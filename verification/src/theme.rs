//! The colour themes of medic's output.
use crate::style::{Color, TextStyle};
use vstd::prelude::*;

verus! {

/// The theme asked for on the command line.
#[derive(Clone, Copy, PartialEq, Eq, Structural)]
pub enum Theme {
    Auto,
    Dark,
    Light,
}

/// Whether the terminal has a dark or a light background.
#[derive(Clone, Copy, PartialEq, Eq, Structural)]
pub enum ThemeMode {
    Dark,
    Light,
}

/// The styles used for each kind of output.
#[derive(Clone, Copy, PartialEq, Eq, Structural)]
pub struct ColorTheme {
    pub args_style: TextStyle,
    pub cd_style: TextStyle,
    pub dim_style: TextStyle,
    pub error_style: TextStyle,
    pub highlight_style: TextStyle,
    pub success_style: TextStyle,
    pub text_style: TextStyle,
    pub warning_style: TextStyle,
}

pub open spec fn fg(c: Color) -> TextStyle {
    TextStyle { fg: Some(c), bright: false, bold: false, underlined: false }
}

pub open spec fn bold_fg(c: Color) -> TextStyle {
    TextStyle { fg: Some(c), bright: false, bold: true, underlined: false }
}

pub open spec fn spec_dark_theme() -> ColorTheme {
    ColorTheme {
        args_style: fg(Color::Yellow),
        cd_style: fg(Color::Green),
        dim_style: bold_fg(Color::Green),
        error_style: fg(Color::Red),
        highlight_style: TextStyle { fg: Some(Color::Cyan), bright: true, bold: true, underlined: false },
        success_style: fg(Color::Green),
        text_style: fg(Color::Cyan),
        warning_style: fg(Color::Yellow),
    }
}

pub open spec fn spec_light_theme() -> ColorTheme {
    ColorTheme {
        args_style: fg(Color::Magenta),
        cd_style: fg(Color::Green),
        dim_style: bold_fg(Color::Green),
        error_style: bold_fg(Color::Red),
        highlight_style: bold_fg(Color::Black),
        success_style: fg(Color::Green),
        text_style: fg(Color::Blue),
        warning_style: fg(Color::Yellow),
    }
}

/// The theme for dark backgrounds.
pub fn dark_theme() -> (r: ColorTheme)
    ensures
        r == spec_dark_theme(),
{
    ColorTheme {
        args_style: TextStyle::color(Color::Yellow),
        cd_style: TextStyle::color(Color::Green),
        dim_style: TextStyle::color(Color::Green).emboldened(),
        error_style: TextStyle::color(Color::Red),
        highlight_style: TextStyle::color(Color::Cyan).brightened().emboldened(),
        success_style: TextStyle::color(Color::Green),
        text_style: TextStyle::color(Color::Cyan),
        warning_style: TextStyle::color(Color::Yellow),
    }
}

/// The theme for light backgrounds.
pub fn light_theme() -> (r: ColorTheme)
    ensures
        r == spec_light_theme(),
{
    ColorTheme {
        args_style: TextStyle::color(Color::Magenta),
        cd_style: TextStyle::color(Color::Green),
        dim_style: TextStyle::color(Color::Green).emboldened(),
        error_style: TextStyle::color(Color::Red).emboldened(),
        highlight_style: TextStyle::color(Color::Black).emboldened(),
        success_style: TextStyle::color(Color::Green),
        text_style: TextStyle::color(Color::Blue),
        warning_style: TextStyle::color(Color::Yellow),
    }
}

/// The theme for a detected background.
pub fn detect_colortheme(mode: ThemeMode) -> (r: ColorTheme)
    ensures
        r == match mode {
            ThemeMode::Dark => spec_dark_theme(),
            ThemeMode::Light => spec_light_theme(),
        },
{
    match mode {
        ThemeMode::Dark => dark_theme(),
        ThemeMode::Light => light_theme(),
    }
}

impl ColorTheme {
    /// The theme to use for `theme`: `Auto` follows the detected background
    /// (`detected`, `None` when it could not be found), falling back to the
    /// dark theme.
    pub fn from_theme(theme: &Theme, detected: Option<ThemeMode>) -> (r: ColorTheme)
        ensures
            r == match *theme {
                Theme::Auto => match detected {
                    Some(ThemeMode::Light) => spec_light_theme(),
                    _ => spec_dark_theme(),
                },
                Theme::Dark => spec_dark_theme(),
                Theme::Light => spec_light_theme(),
            },
    {
        match theme {
            Theme::Auto => match detected {
                Some(mode) => detect_colortheme(mode),
                None => dark_theme(),
            },
            Theme::Dark => dark_theme(),
            Theme::Light => light_theme(),
        }
    }
}

} // verus!
