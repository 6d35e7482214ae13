use medic::app_result::{AppResult, ResultCodeResidual};
use medic::cli::Flags;
use medic::error::MedicError;
use medic::keyed::KeyedList;
use medic::outdated::summary::OutdatedSummary;
use medic::recoverable::{Flow, Recoverable, Remedy};
use medic::runnable::{after_answer, after_run, AskAction, PromptResult, RunAction};
use medic::step::{combine_parallel_results, serial_stop, DoctorConfig, DoctorOutcome};

fn message(m: &str) -> MedicError {
    MedicError::Message(m.to_string())
}

#[test]
fn parallel_results_prefer_last_failure() {
    let combined = combine_parallel_results(vec![
        Recoverable::Success(()),
        Recoverable::Error(Some(message("first")), None),
        Recoverable::Manual(None, None),
        Recoverable::Error(Some(message("second")), None),
        Recoverable::Optional((), None),
    ]);
    match combined {
        Recoverable::Error(Some(MedicError::Message(m)), None) => assert_eq!(m, "second"),
        _ => panic!("expected the last failure"),
    }
}

#[test]
fn parallel_results_manual_then_optional_then_success() {
    assert!(matches!(
        combine_parallel_results(vec![Recoverable::Optional((), None), Recoverable::Manual(None, None)]),
        Recoverable::Manual(None, None)
    ));
    assert!(matches!(
        combine_parallel_results(vec![Recoverable::Success(()), Recoverable::Optional((), None)]),
        Recoverable::Optional((), None)
    ));
    assert!(matches!(
        combine_parallel_results(vec![Recoverable::Success(()), Recoverable::Success(())]),
        Recoverable::Success(())
    ));
    assert!(matches!(combine_parallel_results(vec![]), Recoverable::Success(())));
}

#[test]
fn serial_steps_stop_at_first_failure() {
    assert!(serial_stop(Recoverable::Success(())).is_none());
    assert!(serial_stop(Recoverable::Optional((), None)).is_none());
    match serial_stop(Recoverable::Manual(Some(message("fix me")), Some(Remedy::new("x".into(), None)))) {
        Some(Recoverable::Error(Some(MedicError::Message(m)), None)) => assert_eq!(m, "fix me"),
        _ => panic!("expected a stop with the error and no remedy"),
    }
    assert!(matches!(serial_stop(Recoverable::Quit), Some(Recoverable::Error(None, None))));
}

#[test]
fn dependency_written_then_read_is_the_same() {
    let text = "name=my-dep::version=1.2.3::latest=2.3.4::parent=other";
    let dep = medic::outdated::summary::OutdatedDep::from_str(text).ok().unwrap();
    let written = format!(
        "name={}::version={}::latest={}::parent={}",
        dep.name,
        dep.version,
        dep.latest,
        dep.parent.clone().unwrap()
    );
    assert_eq!(written, text);
}

#[test]
fn summary_written_then_read_gives_deps_and_remedy() {
    let text = "::outdated::name=a::version=1::latest=2\n::outdated::name=b::version=3::latest=4::parent=a\n::remedy::update all\n";
    let summary = OutdatedSummary::from_str(text).ok().unwrap();
    assert_eq!(summary.deps.len(), 2);
    assert_eq!(summary.deps[1].parent, Some("a".to_string()));
    assert_eq!(summary.remedy, Some("update all".to_string()));
}

#[test]
fn recoverable_branch_continues_only_on_success() {
    assert!(matches!(Recoverable::Success(7).branch(), Flow::Continue(7)));
    assert!(matches!(Recoverable::Optional(7, None).branch(), Flow::Continue(7)));
    assert!(matches!(
        Recoverable::<()>::Nonrecoverable(message("x")).branch(),
        Flow::Break(medic::recoverable::ResultCodeResidual(Some(_)))
    ));
    assert_eq!(Recoverable::Success(()).exit_code(), 0);
    assert_eq!(Recoverable::<()>::Error(None, None).exit_code(), 1);
    assert_eq!(Recoverable::<()>::Quit.exit_code(), medic::QUIT_STATUS_CODE);
}

#[test]
fn app_result_branch_roundtrip() {
    match AppResult::<()>::Quit.branch() {
        Flow::Break(res) => assert!(matches!(AppResult::<()>::from_residual(res), AppResult::Quit)),
        Flow::Continue(_) => panic!("quit goes on"),
    }
    match AppResult::<()>::Error(Some(message("bad"))).branch() {
        Flow::Break(res) => match AppResult::<()>::from_residual(res) {
            AppResult::Error(Some(MedicError::Message(m))) => assert_eq!(m, "bad"),
            _ => panic!("expected the same error"),
        },
        Flow::Continue(_) => panic!("an error goes on"),
    }
    assert!(matches!(
        AppResult::<()>::from_residual(ResultCodeResidual(None, false)),
        AppResult::Error(None)
    ));
}

#[test]
fn from_recoverable_keeps_success() {
    assert!(matches!(
        AppResult::from_recoverable(Recoverable::Optional(3, None)),
        AppResult::Success(3)
    ));
    assert!(matches!(
        AppResult::<()>::from_recoverable(Recoverable::Manual(None, None)),
        AppResult::Error(None)
    ));
}

fn flags(auto: bool, interactive: bool) -> Flags {
    let mut f = Flags::default();
    f.auto_apply_remedy = auto;
    f.interactive = interactive;
    f
}

#[test]
fn run_decisions_without_asking_never_ask() {
    let remedy = || Some(Remedy::new("fix".into(), None));
    assert!(matches!(
        after_run(Recoverable::Error(None, remedy()), &flags(false, false)),
        RunAction::Finish(AppResult::Error(None))
    ));
    assert!(matches!(
        after_run(Recoverable::Optional((), remedy()), &flags(false, false)),
        RunAction::Finish(AppResult::Success(()))
    ));
    assert!(matches!(
        after_run(Recoverable::Error(None, remedy()), &flags(true, false)),
        RunAction::ApplyAndRerun(_)
    ));
    assert!(matches!(
        after_run(Recoverable::Error(None, None), &flags(true, true)),
        RunAction::Ask(None, AppResult::Error(None))
    ));
    assert!(matches!(
        after_run(Recoverable::Quit, &flags(true, true)),
        RunAction::Finish(AppResult::Quit)
    ));
}

#[test]
fn answers_decide_what_follows() {
    let mut f = Flags::default();
    let remedy = Some(Remedy::new("fix".into(), None));
    assert!(matches!(
        after_answer(PromptResult::All, remedy, AppResult::Success(()), &mut f),
        AskAction::ApplyAndRerun(_)
    ));
    assert!(f.auto_apply_remedy);
    match after_answer(PromptResult::Quit, None, AppResult::Success(()), &mut f) {
        AskAction::Finish(AppResult::Error(Some(MedicError::Message(m)))) => assert_eq!(m, "aborting"),
        _ => panic!("expected to abort"),
    }
    assert!(matches!(
        after_answer(PromptResult::Skip, None, AppResult::Error(None), &mut f),
        AskAction::Finish(AppResult::Success(()))
    ));
    assert!(matches!(
        after_answer(PromptResult::No, None, AppResult::Error(None), &mut f),
        AskAction::Finish(AppResult::Error(None))
    ));
    assert!(matches!(
        after_answer(PromptResult::Help, None, AppResult::Error(None), &mut f),
        AskAction::ShowHelp(false)
    ));
    assert!(matches!(
        after_answer(PromptResult::from_input("what"), None, AppResult::Error(None), &mut f),
        AskAction::AskAgain
    ));
    assert!(PromptResult::from_input("Y") == PromptResult::Yes);
    assert!(PromptResult::from_input("?") == PromptResult::Help);
}

#[test]
fn keyed_list_reads_back_what_was_written() {
    let mut list = KeyedList::new();
    list.insert("b".to_string(), 2);
    list.insert("a".to_string(), 1);
    list.insert("b".to_string(), 3);
    assert_eq!(list.get("b"), Some(&3));
    assert_eq!(list.get("a"), Some(&1));
    assert_eq!(list.get("c"), None);
    assert_eq!(list.len(), 2);
    let keys: Vec<&str> = list.entries().iter().map(|(k, _)| k.as_str()).collect();
    assert_eq!(keys, vec!["b", "a"]);
}

#[test]
fn allowed_shell_failure_goes_on() {
    let mut shell = medic::shell::ShellConfig::new("n".into(), "false".into(), None, None, false);
    assert!(matches!(shell.failure_outcome(String::new()).branch(), Flow::Break(_)));
    shell.allow_failure = true;
    assert!(matches!(shell.failure_outcome(String::new()).branch(), Flow::Continue(())));
}

#[test]
fn workflows_need_their_steps() {
    let empty = || medic::config::Manifest {
        audit: None,
        doctor: None,
        outdated: None,
        shipit: None,
        test: None,
        update: None,
    };
    match medic::workflow::update_steps(empty()) {
        Err(MedicError::Message(m)) => assert_eq!(m, "No update steps found in medic config."),
        _ => panic!("expected an error"),
    }
    match medic::workflow::test_checks(empty()) {
        Err(MedicError::Message(m)) => assert_eq!(m, "No test checks found in medic config."),
        _ => panic!("expected an error"),
    }
    let mut with_update = empty();
    with_update.update = Some(medic::config::manifest::UpdateConfig { steps: vec![] });
    assert!(medic::workflow::update_steps(with_update).is_ok());
    assert!(!medic::workflow::test_flags(Flags::default()).recoverable);
    assert!(medic::workflow::stop_after(AppResult::Success(())).is_none());
    assert!(matches!(
        medic::workflow::stop_after(AppResult::Quit),
        Some(AppResult::Quit)
    ));
}

#[test]
fn nested_workflow_outcomes() {
    assert!(matches!(
        medic::shipit::nested_outcome(AppResult::Success(()), true),
        Recoverable::Quit
    ));
    assert!(matches!(
        medic::shipit::nested_outcome(AppResult::Success(()), false),
        Recoverable::Success(())
    ));
    match medic::shipit::nested_outcome(AppResult::Quit, false) {
        Recoverable::Nonrecoverable(MedicError::Message(m)) => assert_eq!(m, "Unable to read manifest"),
        _ => panic!("expected to stop"),
    }
}

#[test]
fn doctor_outcomes() {
    let doctor = DoctorConfig { doctor: medic::noop_config::NoopConfig {} };
    assert!(matches!(doctor.outcome(Some((true, Some(0)))), DoctorOutcome::Done(Recoverable::Success(()))));
    assert!(matches!(
        doctor.outcome(Some((false, Some(medic::QUIT_STATUS_CODE)))),
        DoctorOutcome::Exit(c) if c == medic::QUIT_STATUS_CODE
    ));
    assert!(matches!(doctor.outcome(Some((false, Some(1)))), DoctorOutcome::Done(Recoverable::Error(None, None))));
    match doctor.outcome(None) {
        DoctorOutcome::Done(Recoverable::Error(Some(MedicError::Message(m)), None)) => {
            assert_eq!(m, "Unable to run doctor")
        }
        _ => panic!("expected a failure"),
    }
}
