//! What a failed check reports.
use crate::style::{styled, OptionalStyled};
use crate::theme::ColorTheme;
use vstd::prelude::*;

verus! {

/// The output, error and suggested remedy of a failed check.
pub struct CheckOutput {
    pub stdout: Option<String>,
    pub stderr: Option<String>,
    pub remedy: Option<String>,
    pub verbose: bool,
}

/// A titled section of a check's report: the title in the error style,
/// then the text.
pub open spec fn section_text(title: Seq<char>, style: crate::style::TextStyle, body: Seq<char>) -> Seq<char> {
    styled(style, title) + "\r\n\n"@ + body + "\r\n\r\n"@
}

/// The report shown for a check's output: its output, then its error.
pub open spec fn check_output_text(o: CheckOutput, theme: ColorTheme) -> Seq<char> {
    (match o.stdout {
        Some(s) => section_text("== Check output =="@, theme.error_style, s@),
        None => Seq::empty(),
    }) + (match o.stderr {
        Some(s) => section_text("== Check error =="@, theme.error_style, s@),
        None => Seq::empty(),
    })
}

impl CheckOutput {
    /// The empty report.
    pub fn default() -> (r: Self)
        ensures
            r.stdout is None && r.stderr is None && r.remedy is None && !r.verbose,
    {
        CheckOutput { stdout: None, stderr: None, remedy: None, verbose: false }
    }

    pub fn verbose(&mut self, verbose: bool)
        ensures
            final(self).verbose == verbose,
            final(self).stdout == old(self).stdout,
            final(self).stderr == old(self).stderr,
            final(self).remedy == old(self).remedy,
    {
        self.verbose = verbose;
    }

    /// The report, with titles in the theme's error style.
    pub fn to_string(&self, theme: &ColorTheme) -> (r: String)
        ensures
            r@ == check_output_text(*self, *theme),
    {
        let mut r = String::new();
        if let Some(stdout) = &self.stdout {
            let title = OptionalStyled::new("== Check output ==", theme.error_style).to_string();
            r.append(title.as_str());
            r.append("\r\n\n");
            r.append(stdout.as_str());
            r.append("\r\n\r\n");
        }
        let ghost first = r@;
        if let Some(stderr) = &self.stderr {
            let title = OptionalStyled::new("== Check error ==", theme.error_style).to_string();
            r.append(title.as_str());
            r.append("\r\n\n");
            r.append(stderr.as_str());
            r.append("\r\n\r\n");
        }
        assert(r@ =~= check_output_text(*self, *theme));
        r
    }
}

} // verus!
