use medic::error::MedicError;
use medic::recoverable::{unparsed_command, Recoverable};
use medic::keyed::KeyedList;
use medic::step::StepConfig;
use medic::util::StringOrList;

fn step_values(values: &[&str]) -> StringOrList {
    StringOrList(values.iter().map(|s| s.to_string()).collect())
}

fn step(args: Option<KeyedList<StringOrList>>, cd: Option<&str>, command: Option<&str>) -> StepConfig {
    StepConfig {
        args,
        cd: cd.map(|s| s.to_string()),
        command: command.map(|s| s.to_string()),
        env: KeyedList::new(),
        name: None,
        platform: None,
        step: "step-name".to_string(),
        verbose: false,
        allow_failure: false,
    }
}

fn thing(args: Option<KeyedList<StringOrList>>, cd: Option<&str>, command: Option<&str>) -> StepConfig {
    let mut s = step(args, cd, command);
    s.step = "thing".to_string();
    s
}

#[test]
fn step_config_test_to_string_cd() {
    assert_eq!(
        step(None, Some("./subdirectory"), None).to_string(),
        "\u{1b}[36mstep-name\u{1b}[0m \u{1b}[32m(./subdirectory)\u{1b}[0m"
    )
}

#[test]
fn step_config_test_to_string_single_arg() {
    let mut args = KeyedList::new();
    args.insert("name".to_string(), step_values(&["first"]));
    assert_eq!(
        step(Some(args), None, None).to_string(),
        "\u{1b}[36mstep-name\u{1b}[0m \u{1b}[33m(name: first)\u{1b}[0m"
    )
}

#[test]
fn step_config_test_to_string_subcommand_single_arg() {
    let mut args = KeyedList::new();
    args.insert("name".to_string(), step_values(&["first"]));
    assert_eq!(
        step(Some(args), None, Some("subcommand")).to_string(),
        "\u{1b}[36mstep-name: subcommand!\u{1b}[0m \u{1b}[33m(name: first)\u{1b}[0m"
    )
}

#[test]
fn step_config_test_to_string_subcommand_multiple_args() {
    let mut args = KeyedList::new();
    args.insert("name".to_string(), step_values(&["first"]));
    args.insert("version".to_string(), step_values(&["second"]));
    assert_eq!(
        step(Some(args), None, Some("subcommand")).to_string(),
        "\u{1b}[36mstep-name: subcommand!\u{1b}[0m \u{1b}[33m(name: first, version: second)\u{1b}[0m"
    )
}

#[test]
fn step_config_test_to_string_subcommand_multiple_arg_values() {
    let mut args = KeyedList::new();
    args.insert("name".to_string(), step_values(&["first", "second"]));
    assert_eq!(
        step(Some(args), None, Some("subcommand")).to_string(),
        "\u{1b}[36mstep-name: subcommand!\u{1b}[0m \u{1b}[33m(name: first, name: second)\u{1b}[0m"
    )
}

#[test]
fn step_config_test_to_string_subcommand_multiple_arg_values_and_args() {
    let mut args = KeyedList::new();
    args.insert("name".to_string(), step_values(&["first", "second"]));
    args.insert("other".to_string(), step_values(&["third"]));
    assert_eq!(
        step(Some(args), None, Some("subcommand")).to_string(),
        "\u{1b}[36mstep-name: subcommand!\u{1b}[0m \u{1b}[33m(name: first, name: second, other: third)\u{1b}[0m"
    )
}

#[test]
fn step_config_test_to_command() {
    let cmd = thing(None, None, None).command_given(true).ok().unwrap();
    assert_eq!(cmd.dir, None);
    assert_eq!(cmd.program, "medic-step-thing");
    assert!(cmd.args.is_empty());
}

#[test]
fn to_command_cd() {
    let cmd = thing(None, Some("../fixtures/bin"), None).command_given(true).ok().unwrap();
    assert_eq!(cmd.dir, Some("../fixtures/bin".to_string()));
    assert_eq!(cmd.program, "medic-step-thing");
}

#[test]
fn step_config_test_to_command_subcommand() {
    let cmd = thing(None, None, Some("sub-command")).command_given(true).ok().unwrap();
    assert_eq!(cmd.program, "medic-step-thing");
    assert_eq!(cmd.args, vec!["sub-command".to_string()]);
}

#[test]
fn step_config_test_to_command_args() {
    let mut args = KeyedList::new();
    args.insert("name".to_string(), step_values(&["first"]));
    let cmd = thing(Some(args), None, None).command_given(true).ok().unwrap();
    assert_eq!(cmd.program, "medic-step-thing");
    assert_eq!(cmd.args, vec!["--name".to_string(), "first".to_string()]);
}

#[test]
fn step_config_test_to_command_args_list() {
    let mut args = KeyedList::new();
    args.insert("name".to_string(), step_values(&["first", "second"]));
    let cmd = thing(Some(args), None, None).command_given(true).ok().unwrap();
    assert_eq!(cmd.program, "medic-step-thing");
    assert_eq!(
        cmd.args,
        vec![
            "--name".to_string(),
            "first".to_string(),
            "--name".to_string(),
            "second".to_string()
        ]
    );
}

#[test]
fn step_config_test_to_command_env() {
    let mut s = thing(None, None, None);
    s.env.insert("VAR".to_string(), "value".to_string());
    s.env.insert("OTHER".to_string(), "other".to_string());
    let cmd = s.command_given(true).ok().unwrap();
    let expected = [
        ("OTHER".to_string(), "other".to_string()),
        ("VAR".to_string(), "value".to_string()),
    ];
    assert!(expected.iter().all(|item| cmd.envs.contains(item)));
}

#[test]
fn step_config_flags_follow_the_written_order() {
    let mut args = KeyedList::new();
    args.insert("with".to_string(), step_values(&["thing"]));
    args.insert("and".to_string(), step_values(&["first", "second"]));
    let cmd = thing(Some(args), Some("./subdir"), Some("sub-option")).command_given(true).ok().unwrap();
    assert_eq!(
        cmd.args,
        vec!["sub-option", "--with", "thing", "--and", "first", "--and", "second"]
            .into_iter()
            .map(String::from)
            .collect::<Vec<String>>()
    );
}

#[test]
fn step_config_program_is_the_step_binary() {
    assert_eq!(thing(None, None, None).program(), "medic-step-thing");
}

#[test]
fn step_config_outcome_honours_allow_failure() {
    let mut s = thing(None, None, None);
    assert!(matches!(s.outcome(false), Recoverable::Error(None, None)));
    assert!(matches!(s.outcome(true), Recoverable::Success(())));
    s.allow_failure = true;
    assert!(s.allow_failure());
    assert!(matches!(s.outcome(false), Recoverable::Optional((), None)));
    assert!(matches!(s.outcome(true), Recoverable::Success(())));
}

#[test]
fn step_config_unparsed_command_error() {
    let s = thing(None, None, None);
    let e = s.command_given(false).err().unwrap();
    match unparsed_command(&e) {
        Recoverable::Error(Some(MedicError::Message(m)), None) => {
            assert_eq!(m, "Failed to parse command: executable medic-step-thing not found in PATH")
        }
        _ => panic!("expected an error"),
    }
}

#[test]
fn step_config_test_to_command_missing_command() {
    let mut s = step(None, None, None);
    s.step = "missing".to_string();
    match s.to_command() {
        Err(medic::error::MedicError::Message(m)) => {
            assert_eq!(m, "executable medic-step-missing not found in PATH")
        }
        _ => panic!("expected an error"),
    }
}
