use medic::config::Config;
use medic::elixir::compile_plan;
use medic::cargo_step::{cargo_command, cargo_result, CargoTask};
use medic::check::{Check, OutputFormat};
use medic::elixir::deps::{outdated_dep_names, Dep, DepStatus};
use medic::elixir::{compile_command, mix_project_result, task_command, task_result, MixTask};
use medic::git::{git_command, git_result, Command};
use medic::keyed::KeyedList;
use medic::medic_step::{ShellConfig, Step, StepConfig};
use medic::shipit_step::{workflow_command, workflow_outcome, workflow_title, Workflow};
use medic::step_result::StepResult;
use medic::util::StringOrList;

#[test]
fn documented_check_command_line() {
    let mut args = KeyedList::new();
    args.insert("with".to_string(), StringOrList(vec!["thing".to_string()]));
    args.insert("and".to_string(), StringOrList(vec!["first".to_string(), "second".to_string()]));
    let mut env = KeyedList::new();
    env.insert("VAR".to_string(), "value".to_string());
    let check = Check {
        args: Some(args),
        cd: Some("./subdir".to_string()),
        check: "my-check".to_string(),
        command: Some("sub-option".to_string()),
        env,
        output: OutputFormat::Json,
        platform: None,
        verbose: true,
    };
    let cmd = check.command_given(true).ok().unwrap();
    assert_eq!(cmd.program, "medic-check-my-check");
    assert_eq!(
        cmd.args,
        vec!["sub-option", "--with", "thing", "--and", "first", "--and", "second"]
            .into_iter()
            .map(String::from)
            .collect::<Vec<_>>()
    );
    assert_eq!(
        cmd.envs,
        vec![
            ("MEDIC_OUTPUT_FORMAT".to_string(), "json".to_string()),
            ("VAR".to_string(), "value".to_string())
        ]
    );
    assert_eq!(cmd.dir, Some("./subdir".to_string()));
}

#[test]
fn mix_deps_output_is_read_in_groups() {
    let output = "* jason 1.4.1 (Hex package) (mix)\n  locked at 1.4.1 (jason) abc\n  ok\n* plug 1.0.0 (Hex package) (mix)\n  locked at 1.0.0 (plug) def\n  the dependency build is outdated, please run \"mix deps.compile\"\n";
    assert!(Dep::readable(output));
    let deps = Dep::from_deps_output(output.to_string()).ok().unwrap();
    assert_eq!(deps.len(), 2);
    assert_eq!(deps[0].name, "jason");
    assert!(deps[0].status == DepStatus::DepOk);
    assert!(deps[1].status == DepStatus::Outdated);
    assert_eq!(outdated_dep_names(&deps), vec!["plug".to_string()]);
    assert!(!Dep::readable("* one line\n"));
}

#[test]
fn mix_commands_and_results() {
    let cmd = task_command(MixTask::Credo, "/p".to_string());
    assert_eq!(cmd.args, vec!["credo".to_string(), "--strict".to_string()]);
    let cmd = compile_command(&vec!["plug".to_string()], "/p".to_string(), &Some("test".to_string()));
    assert_eq!(cmd.args, vec!["deps.compile".to_string(), "plug".to_string()]);
    assert_eq!(cmd.envs, vec![("MIX_ENV".to_string(), "test".to_string())]);
    match task_result(MixTask::Dialyzer, Some((false, "o".into(), "e".into()))) {
        StepResult::StepError(m, Some(o), Some(e)) => {
            assert_eq!(m, "Dialyzer has detected errors.");
            assert_eq!((o.as_str(), e.as_str()), ("o", "e"));
        }
        _ => panic!("expected an error"),
    }
    match mix_project_result("proj", Some("/abs/proj".to_string()), false) {
        StepResult::StepError(_, None, Some(e)) => assert_eq!(e, "Expected file: \"/abs/proj/mix.exs\""),
        _ => panic!("expected an error"),
    }
    match mix_project_result("proj", None, false) {
        StepResult::StepError(_, None, Some(e)) => assert_eq!(e, "Expected path: `proj/mix.exs`"),
        _ => panic!("expected an error"),
    }
}

#[test]
fn git_and_cargo_steps() {
    assert_eq!(git_command(Command::Push).args, vec!["push", "origin", "HEAD"]);
    match git_result(Command::Pull, None) {
        StepResult::StepError(m, None, None) => assert_eq!(m, "Could not run git pull. Is `git` in PATH?"),
        _ => panic!("expected an error"),
    }
    assert_eq!(cargo_command(CargoTask::Clippy).args, vec!["clippy".to_string()]);
    assert!(matches!(cargo_result(CargoTask::Test, Some((true, String::new(), String::new())), true), StepResult::StepOk));
    match cargo_result(CargoTask::Test, Some((false, "o".into(), "e".into())), false) {
        StepResult::StepError(m, None, None) => assert_eq!(m, "Cargo test failure"),
        _ => panic!("expected an error"),
    }
}

#[test]
fn plain_steps_split_shell_lines_and_show_values() {
    let shell = Step::Shell(ShellConfig {
        allow_failure: false,
        name: "List".to_string(),
        shell: "ls -al dir".to_string(),
        verbose: false,
    });
    assert_eq!(shell.to_string(), "\u{1b}[36mList");
    let cmd = shell.to_command().unwrap();
    assert_eq!(cmd.program, "ls");
    assert_eq!(cmd.args, vec!["-al".to_string(), "dir".to_string()]);

    let mut args = KeyedList::new();
    args.insert("name".to_string(), "x".to_string());
    let step = Step::Step(StepConfig {
        args: Some(args),
        command: Some("sub".to_string()),
        name: None,
        step: "rust".to_string(),
        verbose: false,
    });
    assert_eq!(step.to_string(), "\u{1b}[36mrust: \u{1b}[0;36msub! \u{1b}[0;33m(x)\u{1b}[0m");
    let cmd = step.to_command().unwrap();
    assert_eq!(cmd.program, "medic-step-rust");
    assert_eq!(cmd.args, vec!["sub".to_string(), "--name".to_string(), "x".to_string()]);
}

#[test]
fn shipit_workflow_commands_and_results() {
    let cmd = workflow_command(Workflow::Update);
    assert_eq!(cmd.program, "medic");
    assert_eq!(cmd.args, vec!["update".to_string()]);
    assert_eq!(workflow_title(Workflow::Audit), "\u{1b}[36m== Audit ===\u{1b}[0m");
    match workflow_outcome(Workflow::Test, None) {
        medic::app_result::AppResult::Error(Some(medic::error::MedicError::Message(m))) => {
            assert_eq!(m, "Unable to run medic test")
        }
        _ => panic!("expected an error"),
    }
    match workflow_outcome(Workflow::Update, Some(false)) {
        medic::app_result::AppResult::Error(Some(medic::error::MedicError::Message(m))) => {
            assert_eq!(m, "Unable to update project")
        }
        _ => panic!("expected an error"),
    }
}

#[test]
fn compile_plan_runs_nothing_without_outdated_deps() {
    let fresh = vec![Dep { name: "plug".to_string(), status: DepStatus::DepOk }];
    assert!(compile_plan(&fresh, "/p".to_string(), &None).is_none());
    let stale = vec![
        Dep { name: "plug".to_string(), status: DepStatus::Outdated },
        Dep { name: "jason".to_string(), status: DepStatus::DepOk },
        Dep { name: "ecto".to_string(), status: DepStatus::Outdated },
    ];
    let cmd = compile_plan(&stale, "/p".to_string(), &Some("test".to_string())).unwrap();
    assert_eq!(cmd.program, "mix");
    assert_eq!(cmd.args, vec!["deps.compile".to_string(), "plug".to_string(), "ecto".to_string()]);
    assert_eq!(cmd.envs, vec![("MIX_ENV".to_string(), "test".to_string())]);
    assert_eq!(cmd.dir, Some("/p".to_string()));
}

#[test]
fn config_path_expands_home() {
    let vars = vec![("HOME".to_string(), "/home/u".to_string())];
    assert_eq!(Config::path(&vars), "/home/u/.config/medic/config.toml");
    assert_eq!(Config::path(&vec![]), "${HOME}/.config/medic/config.toml");
}
