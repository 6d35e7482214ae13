use medic::error::MedicError;
use medic::keyed::KeyedList;
use medic::recoverable::Recoverable;
use medic::shell::ShellConfig;
use medic::theme::dark_theme;

fn shell(cd: Option<&str>) -> ShellConfig {
    ShellConfig {
        allow_failure: false,
        cd: cd.map(|s| s.to_string()),
        env: KeyedList::new(),
        inline: false,
        manual: false,
        platform: None,
        name: "Run some command".to_string(),
        remedy: Some("do something".to_string()),
        shell: "some command".to_string(),
        verbose: false,
    }
}

#[test]
fn shell_config_test_test_to_string() {
    assert_eq!(
        shell(None).to_string(&dark_theme()),
        "\u{1b}[36mRun some command\u{1b}[0m \u{1b}[33m(some command)\u{1b}[0m"
    );
}

#[test]
fn test_to_string_cd() {
    assert_eq!(
        shell(Some("../fixtures/bin")).to_string(&dark_theme()),
        "\u{1b}[36mRun some command\u{1b}[0m \u{1b}[33m(some command)\u{1b}[0m \u{1b}[32m(../fixtures/bin)\u{1b}[0m"
    );
}

#[test]
fn shell_test_test_to_string() {
    let shell = ShellConfig::new(
        "Run some command".into(),
        "some command".into(),
        None,
        Some("do something".into()),
        false,
    );
    assert_eq!(
        shell.to_string(&dark_theme()),
        "\u{1b}[36mRun some command\u{1b}[0m \u{1b}[33m(some command)\u{1b}[0m"
    );
}

#[test]
fn test_to_command() {
    let cmd = shell(None).command_given(None).ok().unwrap();
    assert_eq!(cmd.program, "sh");
    assert_eq!(cmd.args, vec!["-c".to_string(), "some command".to_string()]);
    assert_eq!(cmd.dir, None);
}

#[test]
fn test_to_command_cd() {
    let cmd = shell(Some("../fixtures/bin"))
        .command_given(Some("/abs/fixtures/bin".to_string()))
        .ok()
        .unwrap();
    assert_eq!(cmd.dir, Some("/abs/fixtures/bin".to_string()));
    assert_eq!(cmd.args, vec!["-c".to_string(), "some command".to_string()]);
}

#[test]
fn test_to_command_env() {
    let mut s = shell(None);
    s.env.insert("VAR".to_string(), "value".to_string());
    s.env.insert("OTHER".to_string(), "other".to_string());
    let cmd = s.command_given(None).ok().unwrap();
    // A process's environment is a map: the order the variables are set in
    // does not show, and `std::process::Command` lists them sorted.
    let mut envs = cmd.envs.clone();
    envs.sort();
    assert_eq!(
        envs,
        vec![
            ("OTHER".to_string(), "other".to_string()),
            ("VAR".to_string(), "value".to_string())
        ]
    );
}

#[test]
fn shell_command_errors() {
    let mut empty = shell(None);
    empty.shell = String::new();
    match empty.command_given(None) {
        Err(MedicError::Message(m)) => assert_eq!(m, "No shell command specified"),
        _ => panic!("expected an error"),
    }
    match shell(Some("nowhere")).command_given(None) {
        Err(MedicError::Message(m)) => assert_eq!(m, "directory nowhere does not exist"),
        _ => panic!("expected an error"),
    }
}

#[test]
fn shell_outcomes() {
    let mut s = shell(Some("dir"));
    assert!(matches!(s.outcome(true, String::new()), Recoverable::Success(())));
    match s.outcome(false, "oops".to_string()) {
        Recoverable::Error(None, Some(r)) => {
            assert_eq!(r.command, "do something");
            assert_eq!(r.cd, Some("dir".to_string()));
        }
        _ => panic!("expected a failure with a remedy"),
    }
    s.allow_failure = true;
    assert!(matches!(s.outcome(false, String::new()), Recoverable::Optional((), Some(_))));
    s.manual = true;
    match s.outcome(false, "oops".to_string()) {
        Recoverable::Manual(Some(MedicError::Message(m)), Some(_)) => assert_eq!(m, "oops"),
        _ => panic!("expected a manual failure"),
    }
}

#[test]
fn shell_verbose_not_inline() {
    let mut s = shell(None);
    s.verbose = true;
    assert!(s.verbose());
    s.inline = true;
    assert!(!s.verbose());
}
