use medic::check::check_output::CheckOutput;
use medic::check::OutputFormat;
use medic::theme::{dark_theme, light_theme, ColorTheme, Theme, ThemeMode};

#[test]
fn stdio_output_reads_error_and_remedy() {
    let out = OutputFormat::Stdio.parse(b" brew install x \n".to_vec(), b"missing x\n".to_vec(), None);
    assert_eq!(out.remedy, Some("brew install x".to_string()));
    assert_eq!(out.stderr, Some("missing x".to_string()));
    assert_eq!(out.stdout, None);
    let empty = OutputFormat::Stdio.parse(vec![], vec![], None);
    assert_eq!(empty.remedy, None);
    assert_eq!(empty.stderr, None);
}

#[test]
fn json_output_prefers_its_error() {
    let json = CheckOutput {
        stdout: Some("out".to_string()),
        stderr: Some("json error".to_string()),
        remedy: Some("fix".to_string()),
        verbose: false,
    };
    let out = OutputFormat::Json.parse(b"{}".to_vec(), b"stderr text".to_vec(), Some(json));
    assert_eq!(out.stderr, Some("json error".to_string()));
    assert_eq!(out.remedy, Some("fix".to_string()));

    let json = CheckOutput { stdout: None, stderr: None, remedy: None, verbose: false };
    let out = OutputFormat::Json.parse(b"{}".to_vec(), b" stderr text \n".to_vec(), Some(json));
    assert_eq!(out.stderr, Some("stderr text".to_string()));

    let out = OutputFormat::Json.parse(b"nope".to_vec(), vec![], None);
    assert_eq!(out.stdout, Some("Check did not return valid JSON".to_string()));
}

#[test]
fn check_output_report() {
    let mut out = CheckOutput::default();
    out.stdout = Some("o".to_string());
    out.stderr = Some("e".to_string());
    out.verbose(true);
    assert!(out.verbose);
    assert_eq!(
        out.to_string(&dark_theme()),
        "\u{1b}[31m== Check output ==\u{1b}[0m\r\n\no\r\n\r\n\u{1b}[31m== Check error ==\u{1b}[0m\r\n\ne\r\n\r\n"
    );
    assert_eq!(CheckOutput::default().to_string(&light_theme()), "");
}

#[test]
fn theme_follows_setting_and_detection() {
    let light = ColorTheme::from_theme(&Theme::Auto, Some(ThemeMode::Light));
    assert!(light == light_theme());
    assert!(ColorTheme::from_theme(&Theme::Auto, None) == dark_theme());
    assert!(ColorTheme::from_theme(&Theme::Light, Some(ThemeMode::Dark)) == light_theme());
    assert_eq!(OutputFormat::Stdio.to_string(), "stdio");
    assert!(OutputFormat::default() == OutputFormat::Json);
}
