//! The formats in which a check reports its result.
use crate::check::check_output::CheckOutput;
use crate::std_to_string;
use crate::text::{string_chars, string_from_chars, trim, trim_chars};
use vstd::prelude::*;
use vstd::utf8::{decode_utf8, valid_utf8};

verus! {

/// How a check reports on failure: JSON on STDOUT, or the remedy on STDOUT
/// and the error on STDERR.
#[derive(Clone, Copy, PartialEq, Eq, Structural)]
pub enum OutputFormat {
    Json,
    Stdio,
}

/// The text a process wrote, trimmed.
fn trimmed(data: Vec<u8>) -> (r: String)
    requires
        valid_utf8(data@),
    ensures
        r@ == trim(decode_utf8(data@)),
{
    let s = std_to_string(data);
    let c = string_chars(&s);
    let t = trim_chars(&c);
    string_from_chars(&t)
}

/// Bytes that can be read as the text a process wrote.
pub open spec fn readable(data: Seq<u8>) -> bool {
    valid_utf8(data)
}

/// The name of a format, as passed in `MEDIC_OUTPUT_FORMAT`.
pub open spec fn format_name(f: OutputFormat) -> Seq<char> {
    match f {
        OutputFormat::Json => "json"@,
        OutputFormat::Stdio => "stdio"@,
    }
}

impl OutputFormat {
    /// The format's name, as passed in `MEDIC_OUTPUT_FORMAT`.
    pub fn to_string(&self) -> (r: String)
        ensures
            r@ == format_name(*self),
            *self == OutputFormat::Json ==> r@ == "json"@,
            *self == OutputFormat::Stdio ==> r@ == "stdio"@,
    {
        match self {
            OutputFormat::Json => "json".to_owned(),
            OutputFormat::Stdio => "stdio".to_owned(),
        }
    }

    /// The default format, JSON.
    pub fn default() -> (r: Self)
        ensures
            r == OutputFormat::Json,
    {
        OutputFormat::Json
    }

    /// What a failed check reported. For JSON, `json` is what its STDOUT
    /// parses to (`None` when it is not valid JSON for a check output); its
    /// STDERR, trimmed, stands in for a missing `error`. For stdio, STDERR is
    /// the error and STDOUT the remedy, each trimmed, when not empty.
    pub fn parse(self, stdout: Vec<u8>, stderr: Vec<u8>, json: Option<CheckOutput>) -> (r: CheckOutput)
        requires
            valid_utf8(stdout@),
            valid_utf8(stderr@),
        ensures
            match self {
                OutputFormat::Json => match json {
                    Some(o) => r.stdout == o.stdout && r.remedy == o.remedy && r.verbose
                        == o.verbose && if o.stderr is None && stderr@.len() > 0 {
                        r.stderr matches Some(e) && e@ == trim(decode_utf8(stderr@))
                    } else {
                        r.stderr == o.stderr
                    },
                    None => r.stdout matches Some(m) && m@ == "Check did not return valid JSON"@
                        && r.stderr is None && r.remedy is None && !r.verbose,
                },
                OutputFormat::Stdio => !r.verbose && r.stdout is None && (if stderr@.len() == 0 {
                    r.stderr is None
                } else {
                    r.stderr matches Some(e) && e@ == trim(decode_utf8(stderr@))
                }) && (if stdout@.len() == 0 {
                    r.remedy is None
                } else {
                    r.remedy matches Some(m) && m@ == trim(decode_utf8(stdout@))
                }),
            },
    {
        match self {
            OutputFormat::Json => {
                let _out = std_to_string(stdout);
                let err_empty = stderr.len() == 0;
                let err = trimmed(stderr);
                match json {
                    Some(mut check_output) => {
                        if check_output.stderr.is_none() && !err_empty {
                            check_output.stderr = Some(err);
                        }
                        check_output
                    },
                    None => CheckOutput {
                        stdout: Some("Check did not return valid JSON".to_owned()),
                        stderr: None,
                        remedy: None,
                        verbose: false,
                    },
                }
            },
            OutputFormat::Stdio => {
                let stderr_text = if stderr.len() == 0 {
                    None
                } else {
                    Some(trimmed(stderr))
                };
                let remedy = if stdout.len() == 0 {
                    None
                } else {
                    Some(trimmed(stdout))
                };
                CheckOutput { stdout: None, stderr: stderr_text, remedy, verbose: false }
            },
        }
    }
}

} // verus!
