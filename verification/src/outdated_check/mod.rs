//! Outdated checks as a stand-alone command runs them: programs named
//! `medic-outdated-<name>`, shown with fixed colours.
pub mod outdated;

use crate::check::{args_suffix, args_suffix_text, cd_suffix, cd_suffix_text, executable_in_path};
use crate::error::MedicError;
use crate::extra::command::CommandSpec;
use crate::keyed::KeyedList;
use crate::outdated::check::{outdated_command, outdated_command_spec};
use crate::style::{paint, styled, Color, TextStyle};
use crate::util::StringOrList;
use vstd::prelude::*;

verus! {

/// An outdated check: runs `medic-outdated-<check>` in `cd` with a
/// `--flag value` pair per argument value.
pub struct OutdatedCheck {
    pub args: Option<KeyedList<StringOrList>>,
    pub cd: Option<String>,
    pub check: String,
    pub name: Option<String>,
    pub remedy: Option<String>,
}

pub open spec fn color(c: Color) -> TextStyle {
    TextStyle { fg: Some(c), bright: false, bold: false, underlined: false }
}

/// How the check is shown: its name in cyan when it has one; else
/// `outdated:` in cyan, the check in bright bold cyan, its directory in
/// green and its arguments in yellow.
pub open spec fn check_text(c: OutdatedCheck) -> Seq<char> {
    match c.name {
        Some(n) => styled(color(Color::Cyan), n@),
        None => styled(color(Color::Cyan), "outdated:"@) + " "@ + styled(
            TextStyle { fg: Some(Color::Cyan), bright: true, bold: true, underlined: false },
            c.check@,
        ) + cd_suffix(c.cd, color(Color::Green)) + args_suffix(c.args, color(Color::Yellow)),
    }
}

impl OutdatedCheck {
    /// An outdated check's output is always shown as it runs.
    pub fn verbose(&self) -> (r: bool)
        ensures
            r,
    {
        true
    }

    /// How the check is shown in progress output.
    pub fn to_string(&self) -> (r: String)
        ensures
            r@ == check_text(*self),
    {
        let cyan = TextStyle::color(Color::Cyan);
        match &self.name {
            Some(n) => paint(&cyan, n.as_str()),
            None => {
                let mut r = paint(&cyan, "outdated:");
                r.append(" ");
                let highlight = TextStyle::color(Color::Cyan).brightened().emboldened();
                r.append(paint(&highlight, self.check.as_str()).as_str());
                let cd = cd_suffix_text(&self.cd, TextStyle::color(Color::Green));
                r.append(cd.as_str());
                let args = args_suffix_text(&self.args, TextStyle::color(Color::Yellow));
                r.append(args.as_str());
                r
            },
        }
    }

    /// The command that runs the check, given whether
    /// `medic-outdated-<check>` was found and the canonical path of its
    /// directory (`None` when it does not exist).
    pub fn command_given(&self, found: bool, resolved_dir: Option<String>) -> (r: Result<CommandSpec, MedicError>)
        ensures
            outdated_command_spec(self.check@, self.cd, self.args, found, resolved_dir, r),
    {
        outdated_command(&self.check, &self.cd, &self.args, found, resolved_dir)
    }

    /// The command that runs the check, given the canonical path of its
    /// directory; whether the program is in the `PATH` is looked up.
    pub fn to_command(&self, resolved_dir: Option<String>) -> (r: Result<CommandSpec, MedicError>)
        ensures
            outdated_command_spec(self.check@, self.cd, self.args, true, resolved_dir, r)
                || outdated_command_spec(self.check@, self.cd, self.args, false, resolved_dir, r),
    {
        let program = crate::outdated::check::outdated_program(&self.check);
        let found = executable_in_path(program.as_str());
        self.command_given(found, resolved_dir)
    }
}

} // verus!
