use medic::config::Manifest;
use medic::error::{MedicError, OutsideError};
use medic::extra::env::subst;
use medic::github::{ci_message, github_url, url_from_captures};
use medic::runnable::{help, prompt_error, prompt_line};
use medic::style::{Color, OptionalStyled, TextStyle};

#[test]
fn paint_writes_console_escape_codes() {
    let shown = |style: TextStyle, text: &str| OptionalStyled::new(text, style).to_string();
    assert_eq!(shown(TextStyle::color(Color::Cyan), "x"), "\u{1b}[36mx\u{1b}[0m");
    assert_eq!(
        shown(TextStyle::color(Color::Cyan).brightened().emboldened(), "x"),
        "\u{1b}[38;5;14m\u{1b}[1mx\u{1b}[0m"
    );
    assert_eq!(shown(TextStyle::plain().with_underline(), "u"), "\u{1b}[4mu\u{1b}[0m");
    assert_eq!(shown(TextStyle::plain(), "plain"), "plain");
    let mut pending = OptionalStyled::with_style(TextStyle::color(Color::Red)).prefixed(" ");
    assert_eq!(pending.to_string(), "");
    pending.push('x');
    assert_eq!(pending.to_string(), " \u{1b}[31mx\u{1b}[0m");
}

#[test]
fn prompt_error_shows_debug_form() {
    assert_eq!(
        prompt_error(&MedicError::Message("it \"broke\"".to_string())),
        "\n\u{1b}[31m\u{1b}[1mError\u{1b}[0m Message(\"it \\\"broke\\\"\")\n"
    );
}

#[test]
fn prompt_line_and_help() {
    assert_eq!(
        prompt_line(false, false),
        "— \u{1b}[36mThe last step encountered a problem\u{1b}[0m \u{1b}[36m\u{1b}[1m[s,q,?]\u{1b}[0m? "
    );
    assert!(prompt_line(true, true).ends_with("\u{1b}[36m?\u{1b}[0m "));
    assert!(help(true).starts_with("  - a - all"));
    assert!(help(false).starts_with("  - s - skip"));
}

#[test]
fn manifest_path_expands_cwd_and_environment() {
    let vars = vec![
        ("HOME".to_string(), "/home/me".to_string()),
        ("BRACED".to_string(), "{x}".to_string()),
    ];
    let expanded = Manifest::expand_path("${CWD}/.config/${HOME}", &"/project".to_string(), &vars);
    assert_eq!(expanded.ok(), Some("/project/.config//home/me".to_string()));
    let unsafe_value = vec![("MONEY".to_string(), "$5".to_string())];
    assert!(matches!(
        Manifest::expand_path("${CWD}", &"/p".to_string(), &unsafe_value),
        Err(MedicError::Envsubst(_))
    ));
}

#[test]
fn subst_leaves_out_dollar_values() {
    let vars = vec![("MONEY".to_string(), "$5".to_string()), ("A".to_string(), "b".to_string())];
    assert_eq!(subst("${A}${MONEY}", &"/p".to_string(), &vars).ok(), Some("b${MONEY}".to_string()));
}

#[test]
fn github_urls_from_remotes() {
    assert_eq!(
        github_url("git@github.com:synchronal/medic.git\n"),
        Some("https://github.com/synchronal/medic".to_string())
    );
    assert_eq!(
        github_url("https://github.com/synchronal/medic.git"),
        Some("https://github.com/synchronal/medic".to_string())
    );
    assert_eq!(github_url("not a remote"), None);
    assert_eq!(
        ci_message("git@github.com:a/b.git"),
        Some("\u{1b}[93mCheck CI at \u{1b}[0;1mhttps://github.com/a/b/actions\u{1b}[0m".to_string())
    );
}

#[test]
fn manifest_errors() {
    match Manifest::missing("a/b.toml") {
        MedicError::Message(m) => assert_eq!(m, "Medic config file `a/b.toml` does not exist."),
        _ => panic!("expected a message"),
    }
    match Manifest::unreadable(&"/x/medic.toml".to_string(), "bad \"key\"") {
        MedicError::Message(m) => assert_eq!(m, "Unable to parse manifest /x/medic.toml\r\nbad key"),
        _ => panic!("expected a message"),
    }
}

#[test]
fn subst_expands_a_single_placeholder_and_leaves_plain_text() {
    let vars = vec![("NAME".to_string(), "value".to_string())];
    let cwd = "/work".to_string();
    assert_eq!(medic::extra::env::subst("before/${NAME}/after", &cwd, &vars).ok().unwrap(), "before/value/after");
    assert_eq!(medic::extra::env::subst("${CWD}/x", &cwd, &vars).ok().unwrap(), "/work/x");
    assert_eq!(medic::extra::env::subst("plain text", &cwd, &vars).ok().unwrap(), "plain text");
    assert_eq!(medic::extra::env::subst("${MISSING}", &cwd, &vars).ok().unwrap(), "${MISSING}");
}

#[test]
fn prompt_error_shows_outside_debug_forms() {
    let io = std::io::Error::new(std::io::ErrorKind::NotFound, "gone");
    let e = MedicError::Io(OutsideError::new(io.to_string(), format!("{io:?}")));
    assert_eq!(e.to_string(), "gone");
    assert_eq!(
        prompt_error(&e),
        format!("\n\u{1b}[31m\u{1b}[1mError\u{1b}[0m Io({io:?})\n")
    );
    let os = MedicError::OsString(format!("{:?}", "bad"));
    assert_eq!(os.to_string(), "Invalid OsString: \"bad\"");
    assert_eq!(prompt_error(&os), "\n\u{1b}[31m\u{1b}[1mError\u{1b}[0m OsString(\"bad\")\n");
}

#[test]
fn envsubst_error_keeps_its_debug_form() {
    let vars = vec![("A".to_string(), "b".to_string()), ("MONEY".to_string(), "$5".to_string())];
    let mut list = medic::keyed::KeyedList::new();
    for (k, v) in vars {
        list.insert(k, v);
    }
    match medic::extra::env::substitute("${A}", &list) {
        Err(MedicError::Envsubst(e)) => {
            assert!(e.text.starts_with("envsubst error: "));
            assert!(e.debug.starts_with("Error(\""));
        }
        _ => panic!("expected an envsubst error"),
    }
}

#[test]
fn url_from_captures_builds_the_web_address() {
    let caps = Some(vec![
        Some("git@github.com:me/repo.git".to_string()),
        Some("git@".to_string()),
        Some("github.com".to_string()),
        Some("me/repo".to_string()),
    ]);
    assert_eq!(url_from_captures(&caps), Some("https://github.com/me/repo".to_string()));
    assert_eq!(url_from_captures(&None), None);
    assert_eq!(url_from_captures(&Some(vec![Some("x".to_string()), None, None, Some("p".to_string())])), None);
    assert_eq!(url_from_captures(&Some(vec![Some("x".to_string())])), None);
}
