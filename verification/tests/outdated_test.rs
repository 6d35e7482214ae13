use medic::outdated_check::outdated::{Outdated, OutdatedDep};

#[test]
fn outdated_test_deserialize_empty() {
    let outdated = Outdated::from_str("").ok().unwrap();
    assert_eq!(outdated.remedy, None);
    assert!(outdated.deps.is_empty());
}

#[test]
fn outdated_test_deserialize_with_deps() {
    let string = "\n    ::outdated::name=my-dep::version=1.2.3::latest=2.3.4\n    ::outdated::name=other-dep::version=1.2.3::latest=2.3.4::parent=my-dep\n    ";
    let outdated = Outdated::from_str(string).ok().unwrap();
    assert_eq!(outdated.remedy, None);

    let deps = outdated.deps;

    assert_eq!(deps[0].name, "my-dep".to_string());
    assert_eq!(deps[0].version, "1.2.3".to_string());
    assert_eq!(deps[0].latest, "2.3.4".to_string());
    assert_eq!(deps[0].parent, None);

    assert_eq!(deps[1].name, "other-dep".to_string());
    assert_eq!(deps[1].version, "1.2.3".to_string());
    assert_eq!(deps[1].latest, "2.3.4".to_string());
    assert_eq!(deps[1].parent, Some("my-dep".to_string()));
}

#[test]
fn outdated_test_deserialize_with_remedy() {
    let string = "\n    ::outdated::name=my-dep::version=1.2.3::latest=2.3.4\n    ::remedy::update deps\n    ";
    let outdated = Outdated::from_str(string).ok().unwrap();
    assert_eq!(outdated.remedy, Some("update deps".to_string()));
}

#[test]
fn outdated_test_deserialize_dep() {
    let dep = OutdatedDep::from_str("name=my-dep::version=1.2.3::latest=2.3.4").ok().unwrap();
    assert_eq!(dep.name, "my-dep".to_string());
    assert_eq!(dep.version, "1.2.3".to_string());
    assert_eq!(dep.latest, "2.3.4".to_string());
    assert_eq!(dep.parent, None);
}

#[test]
fn outdated_test_deserialize_dep_remedy() {
    let dep = OutdatedDep::from_str("name=my-dep::version=1.2.3::latest=2.3.4::parent=update deps")
        .ok()
        .unwrap();
    assert_eq!(dep.name, "my-dep".to_string());
    assert_eq!(dep.version, "1.2.3".to_string());
    assert_eq!(dep.latest, "2.3.4".to_string());
    assert_eq!(dep.parent, Some("update deps".to_string()));
}

#[test]
fn outdated_dep_strict_rejects_empty_pieces() {
    assert!(OutdatedDep::from_str("name=a::::version=1::latest=2").is_err());
    assert!(medic::outdated::summary::OutdatedDep::from_str("name=a::::version=1::latest=2").is_ok());
}
