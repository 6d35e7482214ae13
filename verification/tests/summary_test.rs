use medic::outdated::summary::{OutdatedDep, OutdatedSummary};

fn parse(s: &str) -> OutdatedSummary {
    match OutdatedSummary::from_str(s) {
        Ok(summary) => summary,
        Err(e) => panic!("{}", e.0),
    }
}

#[test]
fn summary_test_deserialize_empty() {
    let outdated = parse("");
    assert_eq!(outdated.remedy, None);
    assert!(outdated.deps.is_empty());
}

#[test]
fn summary_test_deserialize_with_deps() {
    let string = "::outdated::name=my-dep::version=1.2.3::latest=2.3.4\n::outdated::name=other-dep::version=1.2.3::latest=2.3.4::parent=my-dep\n";
    let outdated = parse(string);
    assert_eq!(outdated.remedy, None);

    let deps = outdated.deps;

    assert_eq!(deps[0].name, "my-dep".to_string());
    assert_eq!(deps[0].version, "1.2.3".to_string());
    assert_eq!(deps[0].latest, "2.3.4".to_string());
    assert_eq!(deps[0].parent, None);

    assert_eq!(deps[1].name, "other-dep".to_string());
    assert_eq!(deps[1].version, "1.2.3".to_string());
    assert_eq!(deps[1].latest, "2.3.4".to_string());
    assert_eq!(deps[1].parent, Some("my-dep".to_string()));
}

fn titles() -> (String, String, String, String) {
    (
        console::style("Name").bold().underlined().to_string(),
        console::style("Version").bold().underlined().to_string(),
        console::style("Latest").bold().underlined().to_string(),
        console::style("Parent").bold().underlined().to_string(),
    )
}

#[test]
fn outdated_to_string_long_name() {
    let summary = OutdatedSummary {
        deps: vec![
            OutdatedDep::new("my-dep", "0.1.2", "1.2.3", None),
            OutdatedDep::new("my-other-long-dep", "1.1.2", "5.4.3", None),
        ],
        remedy: None,
        max_name_length: 17,
        max_latest_length: 6,
        max_version_length: 7,
    };
    let (name, version, latest, parent) = titles();
    assert_eq!(
        summary.to_string(),
        format!(
            "{}{}               {}  {}  {}\n{}my-dep             0.1.2    1.2.3\n{}my-other-long-dep  1.1.2    5.4.3\n",
            "    ", name, version, latest, parent, "    ", "    "
        )
    );
}

#[test]
fn outdated_to_string_long_version() {
    let summary = OutdatedSummary {
        deps: vec![
            OutdatedDep::new("dep", "0.1.2", "1.2.3", None),
            OutdatedDep::new("other", "1.1.2-rc.1.2.3", "5.4.3", None),
        ],
        remedy: None,
        max_name_length: 5,
        max_latest_length: 6,
        max_version_length: 14,
    };
    let (name, version, latest, parent) = titles();
    assert_eq!(
        summary.to_string(),
        format!(
            "{}{}   {}         {}  {}\n{}dep    0.1.2           1.2.3\n{}other  1.1.2-rc.1.2.3  5.4.3\n",
            "    ", name, version, latest, parent, "    ", "    "
        )
    );
}

#[test]
fn outdated_to_string_long_latest() {
    let summary = OutdatedSummary {
        deps: vec![
            OutdatedDep::new("dep", "0.1.2", "1.2.3", Some("other")),
            OutdatedDep::new("other", "1.1.2", "5.4.3.2.1.3.4.5", None),
        ],
        remedy: None,
        max_name_length: 5,
        max_latest_length: 15,
        max_version_length: 7,
    };
    let (name, version, latest, parent) = titles();
    assert_eq!(
        summary.to_string(),
        format!(
            "{}{}   {}  {}           {}\n{}dep    0.1.2    1.2.3            other\n{}other  1.1.2    5.4.3.2.1.3.4.5\n",
            "    ", name, version, latest, parent, "    ", "    "
        )
    );
}

#[test]
fn outdated_to_string_parent() {
    let summary = OutdatedSummary {
        deps: vec![
            OutdatedDep::new("my-dep", "0.1.2", "1.2.3", None),
            OutdatedDep::new("other-dep", "1.1.2", "5.4.3", Some("my-dep")),
        ],
        remedy: None,
        max_name_length: 9,
        max_latest_length: 6,
        max_version_length: 7,
    };
    let (name, version, latest, parent) = titles();
    assert_eq!(
        summary.to_string(),
        format!(
            "{}{}       {}  {}  {}\n{}my-dep     0.1.2    1.2.3\n{}other-dep  1.1.2    5.4.3   my-dep\n",
            "    ", name, version, latest, parent, "    ", "    "
        )
    );
}

#[test]
fn summary_test_deserialize_with_remedy() {
    let string = "\n    ::outdated::name=my-dep::version=1.2.3::latest=2.3.4\n    ::remedy::update deps\n    ";
    let outdated = parse(string);
    assert_eq!(outdated.remedy, Some("update deps".to_string()));
}

#[test]
fn summary_test_deserialize_dep() {
    let dep = OutdatedDep::from_str("name=my-dep::version=1.2.3::latest=2.3.4").ok().unwrap();
    assert_eq!(dep.name, "my-dep".to_string());
    assert_eq!(dep.version, "1.2.3".to_string());
    assert_eq!(dep.latest, "2.3.4".to_string());
    assert_eq!(dep.parent, None);
}

#[test]
fn summary_test_deserialize_dep_remedy() {
    let dep = OutdatedDep::from_str("name=my-dep::version=1.2.3::latest=2.3.4::parent=update deps")
        .ok()
        .unwrap();
    assert_eq!(dep.name, "my-dep".to_string());
    assert_eq!(dep.version, "1.2.3".to_string());
    assert_eq!(dep.latest, "2.3.4".to_string());
    assert_eq!(dep.parent, Some("update deps".to_string()));
}

#[test]
fn summary_widths_follow_the_longest_values() {
    let outdated = parse("::outdated::name=a-very-long-name::version=1::latest=2\n");
    assert_eq!(outdated.max_name_length, 16);
    assert_eq!(outdated.max_version_length, 7);
    assert_eq!(outdated.max_latest_length, 6);
}

#[test]
fn summary_reports_bad_dependency() {
    match OutdatedSummary::from_str("::outdated::name=x::version\n") {
        Err(e) => assert_eq!(
            e.0,
            "Expected key=value\r\nFound: version\r\nOutdated: name=x::version"
        ),
        Ok(_) => panic!("expected an error"),
    }
    match OutdatedSummary::from_str("::outdated::name=x::version=1\n") {
        Err(e) => assert_eq!(
            e.0,
            "Expected name, version, latest, <parent>, found: [\"name\", \"version\"]"
        ),
        Ok(_) => panic!("expected an error"),
    }
}

#[test]
fn summary_stops_on_short_remedy_line() {
    assert!(medic::outdated::summary::summary_stops("::remedy\n", true));
    assert!(!medic::outdated::summary::summary_stops("::remedy::do it\n", true));
}

#[test]
fn summary_remedy_keeps_its_double_colons() {
    let outdated = parse("::remedy::cargo update -p a::b\n");
    assert_eq!(outdated.remedy, Some("cargo update -p a::b".to_string()));
}
