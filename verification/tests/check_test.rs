use medic::check::check_output::CheckOutput;
use medic::recoverable::Recoverable;
use medic::check::{Check, OutputFormat};
use medic::error::MedicError;
use medic::keyed::KeyedList;
use medic::util::StringOrList;

fn arg_values(values: &[&str]) -> StringOrList {
    StringOrList(values.iter().map(|s| s.to_string()).collect())
}

fn check_with(args: Option<KeyedList<StringOrList>>, cd: Option<&str>, command: Option<&str>) -> Check {
    Check {
        args,
        cd: cd.map(|s| s.to_string()),
        check: "check-name".to_string(),
        command: command.map(|s| s.to_string()),
        env: KeyedList::new(),
        output: OutputFormat::Json,
        platform: None,
        verbose: false,
    }
}

#[test]
fn check_test_to_string_single_arg() {
    let mut args = KeyedList::new();
    args.insert("name".to_string(), arg_values(&["first"]));
    let check = check_with(Some(args), None, None);
    assert_eq!(
        check.to_string(),
        "\u{1b}[36mcheck-name\u{1b}[0m \u{1b}[33m(name: first)\u{1b}[0m"
    )
}

#[test]
fn check_test_to_string_subcommand_single_arg() {
    let mut args = KeyedList::new();
    args.insert("name".to_string(), arg_values(&["first"]));
    let check = check_with(Some(args), None, Some("subcommand"));
    assert_eq!(
        check.to_string(),
        "\u{1b}[36mcheck-name: subcommand?\u{1b}[0m \u{1b}[33m(name: first)\u{1b}[0m"
    )
}

#[test]
fn check_test_to_string_subcommand_multiple_args() {
    let mut args = KeyedList::new();
    args.insert("name".to_string(), arg_values(&["first"]));
    args.insert("version".to_string(), arg_values(&["second"]));
    let check = check_with(Some(args), None, Some("subcommand"));
    assert_eq!(
        check.to_string(),
        "\u{1b}[36mcheck-name: subcommand?\u{1b}[0m \u{1b}[33m(name: first, version: second)\u{1b}[0m"
    )
}

#[test]
fn check_test_to_string_subcommand_multiple_arg_values() {
    let mut args = KeyedList::new();
    args.insert("name".to_string(), arg_values(&["first", "second"]));
    let check = check_with(Some(args), None, Some("subcommand"));
    assert_eq!(
        check.to_string(),
        "\u{1b}[36mcheck-name: subcommand?\u{1b}[0m \u{1b}[33m(name: first, name: second)\u{1b}[0m"
    )
}

#[test]
fn check_test_to_string_subcommand_multiple_arg_values_and_args() {
    let mut args = KeyedList::new();
    args.insert("name".to_string(), arg_values(&["first", "second"]));
    args.insert("other".to_string(), arg_values(&["third"]));
    let check = check_with(Some(args), None, Some("subcommand"));
    assert_eq!(
        check.to_string(),
        "\u{1b}[36mcheck-name: subcommand?\u{1b}[0m \u{1b}[33m(name: first, name: second, other: third)\u{1b}[0m"
    )
}

#[test]
fn check_test_to_string_cd() {
    let check = check_with(None, Some("../subdirectory"), None);
    assert_eq!(
        check.to_string(),
        "\u{1b}[36mcheck-name\u{1b}[0m \u{1b}[32m(../subdirectory)\u{1b}[0m"
    )
}

fn json_check() -> Check {
    Check {
        args: None,
        cd: None,
        check: "json".to_string(),
        command: None,
        env: KeyedList::new(),
        output: OutputFormat::Json,
        platform: None,
        verbose: false,
    }
}

#[test]
fn check_test_to_command() {
    let cmd = json_check().command_given(true).ok().unwrap();
    assert_eq!(cmd.dir, None);
    assert_eq!(cmd.program, "medic-check-json");
    assert!(cmd.args.is_empty());
    assert!(cmd
        .envs
        .contains(&("MEDIC_OUTPUT_FORMAT".to_string(), "json".to_string())));
}

#[test]
fn check_test_to_command_subcommand() {
    let mut check = json_check();
    check.command = Some("sub-command".to_string());
    let cmd = check.command_given(true).ok().unwrap();
    assert_eq!(cmd.args, vec!["sub-command".to_string()]);
}

#[test]
fn check_test_to_command_env() {
    let mut check = json_check();
    check.env.insert("VAR".to_string(), "value".to_string());
    check.env.insert("OTHER".to_string(), "other".to_string());
    let cmd = check.command_given(true).ok().unwrap();
    assert!(cmd.envs.contains(&("OTHER".to_string(), "other".to_string())));
    assert!(cmd.envs.contains(&("VAR".to_string(), "value".to_string())));
}

#[test]
fn check_test_to_command_args() {
    let mut check = json_check();
    let mut args = KeyedList::new();
    args.insert("name".to_string(), arg_values(&["first"]));
    check.args = Some(args);
    let cmd = check.command_given(true).ok().unwrap();
    assert_eq!(cmd.args, vec!["--name".to_string(), "first".to_string()]);
}

#[test]
fn check_test_to_command_args_list() {
    let mut check = json_check();
    let mut args = KeyedList::new();
    args.insert("name".to_string(), arg_values(&["first", "second"]));
    check.args = Some(args);
    let cmd = check.command_given(true).ok().unwrap();
    assert_eq!(
        cmd.args,
        vec![
            "--name".to_string(),
            "first".to_string(),
            "--name".to_string(),
            "second".to_string()
        ]
    );
}

#[test]
fn check_test_to_command_missing_command() {
    let mut check = json_check();
    check.check = "missing".to_string();
    match check.to_command() {
        Err(MedicError::Message(m)) => {
            assert_eq!(m, "executable medic-check-missing not found in PATH")
        }
        _ => panic!("expected an error"),
    }
}

#[test]
fn check_test_to_command_cd_relative() {
    let mut check = json_check();
    check.cd = Some("../fixtures/bin".to_string());
    let cmd = check.command_given(true).ok().unwrap();
    assert_eq!(cmd.dir, Some("../fixtures/bin".to_string()));
    assert_eq!(cmd.program, "medic-check-json");
}

#[test]
fn check_program_is_the_check_binary() {
    assert_eq!(json_check().program(), "medic-check-json");
}

#[test]
fn check_readme_example_runs_flags_in_written_order() {
    let mut check = json_check();
    check.check = "my-check".to_string();
    check.command = Some("sub-option".to_string());
    let mut args = KeyedList::new();
    args.insert("with".to_string(), arg_values(&["thing"]));
    args.insert("and".to_string(), arg_values(&["first", "second"]));
    check.args = Some(args);
    check.cd = Some("./subdir".to_string());
    check.env.insert("VAR".to_string(), "value".to_string());
    let cmd = check.command_given(true).ok().unwrap();
    assert_eq!(cmd.program, "medic-check-my-check");
    assert_eq!(
        cmd.args,
        vec!["sub-option", "--with", "thing", "--and", "first", "--and", "second"]
            .into_iter()
            .map(String::from)
            .collect::<Vec<String>>()
    );
    assert_eq!(cmd.dir, Some("./subdir".to_string()));
    assert!(cmd.envs.contains(&("MEDIC_OUTPUT_FORMAT".to_string(), "json".to_string())));
    assert!(cmd.envs.contains(&("VAR".to_string(), "value".to_string())));
}

#[test]
fn check_outcome_succeeds_on_success_and_offers_the_remedy_on_failure() {
    let check = json_check();
    assert!(matches!(check.outcome(true, &None), Recoverable::Success(())));
    assert!(matches!(check.outcome(false, &None), Recoverable::Error(None, None)));
    let report = CheckOutput { stdout: None, stderr: None, remedy: Some("fix it".to_string()), verbose: false };
    match check.outcome(false, &Some(report)) {
        Recoverable::Error(None, Some(r)) => {
            assert_eq!(r.command, "fix it");
            assert_eq!(r.cd, None);
        }
        _ => panic!("expected a failure with a remedy"),
    }
    match check.unparsed() {
        Recoverable::Error(Some(MedicError::Message(m)), None) => assert_eq!(m, "Unable to parse check"),
        _ => panic!("expected an error"),
    }
}
