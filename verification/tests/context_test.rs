use medic::context::Context;

fn context() -> Context {
    Context {
        platform: "Something".into(),
    }
}

#[test]
fn test_platform_matches_none() {
    assert!(context().matches_platform(&None));
}

#[test]
fn test_platform_matches_empty() {
    assert!(context().matches_platform(&Some(vec![])));
}

#[test]
fn test_platform_matches_current() {
    assert!(context().matches_platform(&Some(vec!["Something".into(), "Other".into()])));
}

#[test]
fn test_platform_matches_not_current() {
    assert!(!context().matches_platform(&Some(vec!["SomethingElse".into(), "Other".into()])));
}

#[test]
fn context_new_trims_uname_output() {
    let context = Context::new(Some((true, b"Linux\n".to_vec())));
    assert_eq!(context.platform, "Linux");
}

#[test]
fn context_new_unknown_when_uname_fails() {
    assert_eq!(Context::new(Some((false, b"Linux\n".to_vec()))).platform, "Unknown");
    assert_eq!(Context::new(None).platform, "Unknown");
    assert_eq!(Context::new(Some((true, vec![0xff, 0xfe]))).platform, "Unknown");
}

#[test]
fn test_current_platform() {
    let result = Context::new(Some((true, b"Darwin\n".to_vec()))).platform;
    assert!(!result.is_empty());
    // Should be something like "Darwin", "Linux", etc.
    assert!(result.chars().all(|c| c.is_ascii_alphanumeric()));
}
