use medic::error::MedicError;
use medic::outdated::check::OutdatedCheck;
use medic::theme::dark_theme;

fn outdated(cd: Option<&str>, name: Option<&str>) -> OutdatedCheck {
    OutdatedCheck {
        args: None,
        cd: cd.map(|s| s.to_string()),
        check: "thing".to_string(),
        name: name.map(|s| s.to_string()),
        platform: None,
        remedy: None,
    }
}

#[test]
fn to_string() {
    assert_eq!(
        outdated(None, None).to_string(&dark_theme()),
        "\u{1b}[36moutdated:\u{1b}[0m \u{1b}[38;5;14m\u{1b}[1mthing\u{1b}[0m"
    )
}

#[test]
fn to_string_name() {
    assert_eq!(
        outdated(None, Some("do things")).to_string(&dark_theme()),
        "\u{1b}[36mdo things\u{1b}[0m"
    )
}

#[test]
fn outdated_check_test_to_string_cd() {
    assert_eq!(
        outdated(Some("../subdirectory"), None).to_string(&dark_theme()),
        "\u{1b}[36moutdated:\u{1b}[0m \u{1b}[38;5;14m\u{1b}[1mthing\u{1b}[0m \u{1b}[32m(../subdirectory)\u{1b}[0m"
    )
}

#[test]
fn outdated_check_test_to_command() {
    let cmd = outdated(None, None).command_given(true, None).ok().unwrap();
    assert_eq!(cmd.program, "medic-outdated-thing");
    assert!(cmd.args.is_empty());
    assert_eq!(cmd.dir, None);
}

#[test]
fn to_command_cd_absolute() {
    let cmd = outdated(Some("/tmp"), None)
        .command_given(true, Some("/tmp".to_string()))
        .ok()
        .unwrap();
    assert_eq!(cmd.dir, Some("/tmp".to_string()));
    assert_eq!(cmd.program, "medic-outdated-thing");
}

#[test]
fn to_command_cd_bad_directory() {
    match outdated(Some("does-not-exist"), None).command_given(true, None) {
        Err(MedicError::Message(m)) => assert_eq!(m, "directory does-not-exist does not exist"),
        _ => panic!("expected an error"),
    }
}

#[test]
fn outdated_check_test_to_command_missing_command() {
    let mut c = outdated(None, None);
    c.check = "missing".to_string();
    match c.to_command(None) {
        Err(MedicError::Message(m)) => {
            assert_eq!(m, "executable medic-outdated-missing not found in PATH")
        }
        _ => panic!("expected an error"),
    }
}

#[test]
fn outdated_check_outcome_with_remedy() {
    let c = outdated(Some("sub"), None);
    let stdout = "::outdated::name=a::version=1::latest=2\n::remedy::mix deps.update\n";
    let (outcome, summary) = c.outcome(true, stdout, "");
    assert!(summary.is_some());
    match outcome {
        medic::recoverable::Recoverable::Optional((), Some(remedy)) => {
            assert_eq!(remedy.command, "mix deps.update");
            assert_eq!(remedy.cd, Some("sub".to_string()));
            assert_eq!(remedy.to_string(), "(cd sub && mix deps.update)");
        }
        _ => panic!("expected an optional outcome"),
    }
}

#[test]
fn outdated_check_outcome_without_deps_and_failure() {
    let c = outdated(None, None);
    assert!(matches!(
        c.outcome(true, "::remedy::x\n", "").0,
        medic::recoverable::Recoverable::Success(())
    ));
    match c.outcome(false, "", "boom").0 {
        medic::recoverable::Recoverable::Error(Some(MedicError::Message(m)), None) => {
            assert_eq!(m, "Unable to parse outdated output:\r\nboom")
        }
        _ => panic!("expected a failure"),
    }
}

#[test]
fn outdated_remedy_line_plain_and_styled() {
    let c = outdated(Some("sub"), None);
    assert_eq!(
        c.remedy_line(&"go".to_string(), false),
        "    Remedy: (cd sub && go)"
    );
    assert_eq!(
        c.remedy_line(&"go".to_string(), true),
        "    \u{1b}[1m\u{1b}[4mRemedy:\u{1b}[0m \u{1b}[33m(cd sub && go)\u{1b}[0m"
    );
}

#[test]
fn outdated_check_test_to_command_cd_relative() {
    let cmd = outdated(Some("../fixtures/bin"), None)
        .command_given(true, Some("/work/fixtures/bin".to_string()))
        .ok()
        .unwrap();
    assert_eq!(cmd.dir, Some("/work/fixtures/bin".to_string()));
    assert_eq!(cmd.program, "medic-outdated-thing");
}

#[test]
fn outdated_program_is_the_outdated_binary() {
    assert_eq!(medic::outdated::check::outdated_program(&"thing".to_string()), "medic-outdated-thing");
}
