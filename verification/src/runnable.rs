//! The decisions taken around running a check or step: what follows its
//! outcome, and what follows the user's answer when asked. Running the
//! command, applying a remedy and reading the answer are left to the
//! caller, which hands the results back here.
use crate::app_result::AppResult;
use crate::cli::Flags;
use crate::error::MedicError;
use crate::recoverable::{Recoverable, Remedy};
use crate::style::{colors_enabled, paint, styled, Color, TextStyle};
use crate::text::{chars_of, debug_quoted, debug_string, trim, trim_chars};
use vstd::prelude::*;

verus! {

/// What to do once a runnable has run.
pub enum RunAction {
    /// Stop with this result.
    Finish(AppResult<()>),
    /// Apply the remedy without asking, then run the runnable again.
    ApplyAndRerun(Remedy),
    /// Ask the user, offering the remedy if there is one; answering "no"
    /// gives the result held here.
    Ask(Option<Remedy>, AppResult<()>),
}

/// What follows an outcome, given whether remedies are applied without
/// asking and whether the user may be asked. A success finishes. A failure
/// with a remedy applies it when remedies are applied without asking;
/// otherwise a failure or a success with a remedy asks when the user may be
/// asked, and finishes with its result when not. A failure that stops
/// medic, or a request to quit, finishes at once.
pub open spec fn run_decision(outcome: Recoverable<()>, auto_apply: bool, interactive: bool) -> RunAction {
    match outcome {
        Recoverable::Success(v) => RunAction::Finish(AppResult::Success(v)),
        Recoverable::Error(e, None) => if interactive {
            RunAction::Ask(None, AppResult::Error(e))
        } else {
            RunAction::Finish(AppResult::Error(e))
        },
        Recoverable::Error(e, Some(remedy)) => if auto_apply {
            RunAction::ApplyAndRerun(remedy)
        } else if interactive {
            RunAction::Ask(Some(remedy), AppResult::Error(e))
        } else {
            RunAction::Finish(AppResult::Error(e))
        },
        Recoverable::Manual(e, remedy) => if interactive {
            RunAction::Ask(remedy, AppResult::Error(e))
        } else {
            RunAction::Finish(AppResult::Error(e))
        },
        Recoverable::Optional(v, None) => RunAction::Finish(AppResult::Success(v)),
        Recoverable::Optional(v, Some(remedy)) => if interactive {
            RunAction::Ask(Some(remedy), AppResult::Success(v))
        } else {
            RunAction::Finish(AppResult::Success(v))
        },
        Recoverable::Nonrecoverable(e) => RunAction::Finish(AppResult::Error(Some(e))),
        Recoverable::Quit => RunAction::Finish(AppResult::Quit),
    }
}

/// What to do after a runnable gave `outcome`.
pub fn after_run(outcome: Recoverable<()>, flags: &Flags) -> (a: RunAction)
    ensures
        a == run_decision(outcome, flags.auto_apply_remedy, flags.interactive),
{
    match outcome {
        Recoverable::Success(v) => RunAction::Finish(AppResult::Success(v)),
        Recoverable::Error(e, None) => if flags.interactive {
            RunAction::Ask(None, AppResult::Error(e))
        } else {
            RunAction::Finish(AppResult::Error(e))
        },
        Recoverable::Error(e, Some(remedy)) => if flags.auto_apply_remedy {
            RunAction::ApplyAndRerun(remedy)
        } else if flags.interactive {
            RunAction::Ask(Some(remedy), AppResult::Error(e))
        } else {
            RunAction::Finish(AppResult::Error(e))
        },
        Recoverable::Manual(e, remedy) => if flags.interactive {
            RunAction::Ask(remedy, AppResult::Error(e))
        } else {
            RunAction::Finish(AppResult::Error(e))
        },
        Recoverable::Optional(v, None) => RunAction::Finish(AppResult::Success(v)),
        Recoverable::Optional(v, Some(remedy)) => if flags.interactive {
            RunAction::Ask(Some(remedy), AppResult::Success(v))
        } else {
            RunAction::Finish(AppResult::Success(v))
        },
        Recoverable::Nonrecoverable(e) => RunAction::Finish(AppResult::Error(Some(e))),
        Recoverable::Quit => RunAction::Finish(AppResult::Quit),
    }
}

/// Without asking and without applying remedies on its own, medic never
/// stops to ask and never applies a remedy: every outcome finishes, a
/// success with success. Remedies are applied on their own only for
/// failures that offer one; nothing but a failure with a remedy or a
/// success with a remedy is ever offered a remedy.
pub proof fn lemma_run_decision(outcome: Recoverable<()>, auto_apply: bool, interactive: bool)
    ensures
        !interactive && !auto_apply ==> run_decision(outcome, auto_apply, interactive) is Finish,
        outcome is Success ==> run_decision(outcome, auto_apply, interactive) == RunAction::Finish(
            AppResult::Success(()),
        ),
        run_decision(outcome, auto_apply, interactive) matches RunAction::ApplyAndRerun(r)
            ==> auto_apply && outcome == Recoverable::<()>::Error(outcome->Error_0, Some(r)),
        run_decision(outcome, auto_apply, interactive) is Ask ==> interactive,
        outcome is Quit ==> run_decision(outcome, auto_apply, interactive) == RunAction::Finish(
            AppResult::Quit,
        ),
{
}

/// When medic asks, it offers exactly the remedy the outcome came with,
/// and answering "no" gives the outcome's own result: its error for a
/// failure, success for a success with a remedy. In particular a failure
/// with a remedy, when remedies are not applied on their own and the user
/// may be asked, asks with that same remedy.
pub proof fn lemma_ask_offers_outcome_remedy(outcome: Recoverable<()>, auto_apply: bool, interactive: bool)
    ensures
        run_decision(outcome, auto_apply, interactive) matches RunAction::Ask(offered, no) ==> match outcome {
            Recoverable::Error(e, r) => offered == r && no == AppResult::<()>::Error(e),
            Recoverable::Manual(e, r) => offered == r && no == AppResult::<()>::Error(e),
            Recoverable::Optional(v, r) => offered == r && r is Some && no == AppResult::<()>::Success(v),
            _ => false,
        },
        interactive && (outcome is Error || outcome is Manual || outcome matches Recoverable::Optional(_, Some(_)))
            && !(auto_apply && outcome matches Recoverable::Error(_, Some(_))) ==> run_decision(
            outcome,
            auto_apply,
            interactive,
        ) is Ask,
{
}

/// A failure that comes with a remedy applies that remedy on its own when
/// remedies are applied without asking; otherwise, when the user may be
/// asked, it asks with that same remedy, "no" giving back the failure's
/// error; otherwise it finishes with that error.
pub proof fn lemma_failure_remedy_offered(e: Option<MedicError>, r: Remedy, auto_apply: bool, interactive: bool)
    ensures
        auto_apply ==> run_decision(Recoverable::Error(e, Some(r)), auto_apply, interactive)
            == RunAction::ApplyAndRerun(r),
        !auto_apply && interactive ==> run_decision(Recoverable::Error(e, Some(r)), auto_apply, interactive)
            == RunAction::Ask(Some(r), AppResult::<()>::Error(e)),
        !auto_apply && !interactive ==> run_decision(Recoverable::Error(e, Some(r)), auto_apply, interactive)
            == RunAction::Finish(AppResult::<()>::Error(e)),
{
}

/// The user's answer to "apply this remedy?".
#[derive(Clone, Copy, PartialEq, Eq, Structural)]
pub enum PromptResult {
    All,
    Help,
    No,
    Quit,
    Skip,
    Unknown,
    Yes,
}

/// The answer a line of input gives: `a`, `n`, `q`, `s`, `y` in either
/// case, or `?`; anything else is not understood.
pub open spec fn prompt_answer(s: Seq<char>) -> PromptResult {
    if s.len() != 1 {
        PromptResult::Unknown
    } else if s[0] == 'a' || s[0] == 'A' {
        PromptResult::All
    } else if s[0] == 'n' || s[0] == 'N' {
        PromptResult::No
    } else if s[0] == 'q' || s[0] == 'Q' {
        PromptResult::Quit
    } else if s[0] == 's' || s[0] == 'S' {
        PromptResult::Skip
    } else if s[0] == 'y' || s[0] == 'Y' {
        PromptResult::Yes
    } else if s[0] == '?' {
        PromptResult::Help
    } else {
        PromptResult::Unknown
    }
}

impl PromptResult {
    /// The answer given by the line `input`.
    pub fn from_input(input: &str) -> (r: Self)
        ensures
            r == prompt_answer(input@),
    {
        let cs = crate::text::chars_of(input);
        if cs.len() != 1 {
            return PromptResult::Unknown;
        }
        let c = cs[0];
        if c == 'a' || c == 'A' {
            PromptResult::All
        } else if c == 'n' || c == 'N' {
            PromptResult::No
        } else if c == 'q' || c == 'Q' {
            PromptResult::Quit
        } else if c == 's' || c == 'S' {
            PromptResult::Skip
        } else if c == 'y' || c == 'Y' {
            PromptResult::Yes
        } else if c == '?' {
            PromptResult::Help
        } else {
            PromptResult::Unknown
        }
    }
}

/// Each answer comes from exactly one letter, in either case (`?` for
/// help): `a` all, `n` no, `q` quit, `s` skip, `y` yes. No two letters
/// give the same answer, and any other line is not understood.
pub proof fn lemma_prompt_letters(s: Seq<char>)
    ensures
        prompt_answer(s) == PromptResult::All <==> (s == seq!['a'] || s == seq!['A']),
        prompt_answer(s) == PromptResult::No <==> (s == seq!['n'] || s == seq!['N']),
        prompt_answer(s) == PromptResult::Quit <==> (s == seq!['q'] || s == seq!['Q']),
        prompt_answer(s) == PromptResult::Skip <==> (s == seq!['s'] || s == seq!['S']),
        prompt_answer(s) == PromptResult::Yes <==> (s == seq!['y'] || s == seq!['Y']),
        prompt_answer(s) == PromptResult::Help <==> s == seq!['?'],
{
    if s.len() == 1 {
        assert(s =~= seq![s[0]]);
    }
    let cs = seq!['a', 'A', 'n', 'N', 'q', 'Q', 's', 'S', 'y', 'Y', '?'];
    assert forall|i: int| 0 <= i < cs.len() implies (s == seq![#[trigger] cs[i]] ==> s.len() == 1 && s[0]
        == cs[i]) by {}
}

/// What to do after the user answered.
pub enum AskAction {
    /// Show the help (with the remedy's options when true), then ask again.
    ShowHelp(bool),
    /// Ask again.
    AskAgain,
    /// Apply the remedy, then run the runnable again.
    ApplyAndRerun(Remedy),
    /// Stop with this result.
    Finish(AppResult<()>),
}

/// Whether `a` is what follows `answer`, given the remedy offered and the
/// result that "no" gives: "all" and "yes" apply the remedy, "no" gives
/// that result, "skip" succeeds, "quit" fails with `aborting`, "help" shows
/// the help, and an answer not understood asks again.
pub open spec fn answer_leads_to(
    answer: PromptResult,
    remedy: Option<Remedy>,
    default_exit: AppResult<()>,
    a: AskAction,
) -> bool {
    match answer {
        PromptResult::Help => a == AskAction::ShowHelp(remedy is Some),
        PromptResult::All => a == AskAction::ApplyAndRerun(remedy->0),
        PromptResult::Yes => a == AskAction::ApplyAndRerun(remedy->0),
        PromptResult::No => a == AskAction::Finish(default_exit),
        PromptResult::Quit => a matches AskAction::Finish(
            AppResult::Error(Some(MedicError::Message(m))),
        ) && m@ == "aborting"@,
        PromptResult::Skip => a == AskAction::Finish(AppResult::Success(())),
        PromptResult::Unknown => a == AskAction::AskAgain,
    }
}

/// What each letter typed at the prompt leads to: `n` gives back the result
/// that refusing the remedy means, `s` carries on as a success, `y` and `a`
/// apply the remedy offered, `q` stops with `aborting`, `?` shows the help
/// (with the remedy's options when one is offered); in either case.
pub proof fn lemma_answer_letters(c: char, remedy: Option<Remedy>, default_exit: AppResult<()>, a: AskAction)
    ensures
        (c == 'n' || c == 'N') && answer_leads_to(prompt_answer(seq![c]), remedy, default_exit, a)
            ==> a == AskAction::Finish(default_exit),
        (c == 's' || c == 'S') && answer_leads_to(prompt_answer(seq![c]), remedy, default_exit, a)
            ==> a == AskAction::Finish(AppResult::<()>::Success(())),
        (c == 'y' || c == 'Y' || c == 'a' || c == 'A') && remedy is Some && answer_leads_to(
            prompt_answer(seq![c]),
            remedy,
            default_exit,
            a,
        ) ==> a == AskAction::ApplyAndRerun(remedy->0),
        (c == 'q' || c == 'Q') && answer_leads_to(prompt_answer(seq![c]), remedy, default_exit, a) ==> (a
            matches AskAction::Finish(AppResult::Error(Some(MedicError::Message(m)))) && m@ == "aborting"@),
        c == '?' && answer_leads_to(prompt_answer(seq![c]), remedy, default_exit, a) ==> a
            == AskAction::ShowHelp(remedy is Some),
{
}

/// What to do after the user gave `answer`. "All" also makes every later
/// remedy apply without asking. Answering "all" or "yes" needs a remedy
/// to apply.
pub fn after_answer(
    answer: PromptResult,
    remedy: Option<Remedy>,
    default_exit: AppResult<()>,
    flags: &mut Flags,
) -> (a: AskAction)
    requires
        (answer == PromptResult::All || answer == PromptResult::Yes) ==> remedy is Some,
    ensures
        answer_leads_to(answer, remedy, default_exit, a),
        final(flags).auto_apply_remedy == (old(flags).auto_apply_remedy || answer
            == PromptResult::All),
        final(flags).config_path == old(flags).config_path,
        final(flags).interactive == old(flags).interactive,
        final(flags).parallel == old(flags).parallel,
        final(flags).recoverable == old(flags).recoverable,
{
    match answer {
        PromptResult::Help => AskAction::ShowHelp(remedy.is_some()),
        PromptResult::All => {
            flags.auto_apply_remedy = true;
            AskAction::ApplyAndRerun(remedy.unwrap())
        },
        PromptResult::Yes => AskAction::ApplyAndRerun(remedy.unwrap()),
        PromptResult::No => AskAction::Finish(default_exit),
        PromptResult::Quit => AskAction::Finish(AppResult::Error(Some(MedicError::Message(
            "aborting".to_owned(),
        )))),
        PromptResult::Skip => AskAction::Finish(AppResult::Success(())),
        PromptResult::Unknown => AskAction::AskAgain,
    }
}

/// Whether a failed step's error output is printed after it: when it was
/// not already shown as the step ran, and it holds more than whitespace.
pub fn step_output_shown(verbose: bool, stderr: &str) -> (r: bool)
    ensures
        r == (!verbose && trim(stderr@).len() > 0),
{
    if verbose {
        return false;
    }
    let t = trim_chars(&chars_of(stderr));
    t.len() > 0
}

/// The help shown for the prompt: the answers about the remedy when one is
/// offered, then those that are always understood.
pub open spec fn help_text(has_remedy: bool) -> Seq<char> {
    (if has_remedy {
        "  - a - all  - apply this and all future remedies.\n"@
            + "  - y - yes  - apply the remedy.\n"@
            + "  - n - no   - do not run this remedy; if the check is optional continue, otherwise exit.\n\n"@
    } else {
        Seq::empty()
    }) + "  - s - skip - skip this step, continuing with future checks and steps.\n"@
        + "  - q - quit - abort medic with a non-zero exit code.\n"@
        + "  - ? - help - print this message.\n\n"@
}

/// The help for the prompt.
pub fn help(has_remedy: bool) -> (r: String)
    ensures
        r@ == help_text(has_remedy),
{
    let mut r = String::new();
    if has_remedy {
        r.append("  - a - all  - apply this and all future remedies.\n");
        r.append("  - y - yes  - apply the remedy.\n");
        r.append(
            "  - n - no   - do not run this remedy; if the check is optional continue, otherwise exit.\n\n",
        );
    }
    r.append("  - s - skip - skip this step, continuing with future checks and steps.\n");
    r.append("  - q - quit - abort medic with a non-zero exit code.\n");
    r.append("  - ? - help - print this message.\n\n");
    assert(r@ =~= help_text(has_remedy));
    r
}

pub open spec fn cyan() -> TextStyle {
    TextStyle { fg: Some(Color::Cyan), bright: false, bold: false, underlined: false }
}

pub open spec fn cyan_bold() -> TextStyle {
    TextStyle { fg: Some(Color::Cyan), bright: false, bold: true, underlined: false }
}

/// The question asked after a failure: whether to apply the remedy, with
/// its answers, or, with no remedy, that the step had a problem. The
/// question in cyan, the answers in bold cyan, the closing `?` in cyan when
/// colours are on.
pub open spec fn prompt_text(has_remedy: bool, colors: bool) -> Seq<char> {
    "— "@ + styled(
        cyan(),
        if has_remedy {
            "Apply this remedy"@
        } else {
            "The last step encountered a problem"@
        },
    ) + " "@ + styled(
        cyan_bold(),
        if has_remedy {
            "[y,n,a,s,q,?]"@
        } else {
            "[s,q,?]"@
        },
    ) + (if colors {
        styled(cyan(), "?"@)
    } else {
        "?"@
    }) + " "@
}

/// The question, with colours as `colors` says.
pub fn prompt_line(has_remedy: bool, colors: bool) -> (r: String)
    ensures
        r@ == prompt_text(has_remedy, colors),
{
    let cyan = TextStyle { fg: Some(Color::Cyan), bright: false, bold: false, underlined: false };
    let bold = TextStyle { fg: Some(Color::Cyan), bright: false, bold: true, underlined: false };
    let msg = if has_remedy {
        "Apply this remedy"
    } else {
        "The last step encountered a problem"
    };
    let options = if has_remedy {
        "[y,n,a,s,q,?]"
    } else {
        "[s,q,?]"
    };
    let mut r = "— ".to_owned();
    r.append(paint(&cyan, msg).as_str());
    r.append(" ");
    r.append(paint(&bold, options).as_str());
    if colors {
        r.append(paint(&cyan, "?").as_str());
    } else {
        r.append("?");
    }
    r.append(" ");
    assert(r@ =~= prompt_text(has_remedy, colors));
    r
}

/// The question, the closing `?` styled when `console` styles standard
/// output.
pub fn prompt(has_remedy: bool) -> (r: String)
    ensures
        r@ == prompt_text(has_remedy, true) || r@ == prompt_text(has_remedy, false),
{
    prompt_line(has_remedy, colors_enabled())
}

/// The name of an error's kind.
pub open spec fn error_kind(e: MedicError) -> Seq<char> {
    match e {
        MedicError::Io(_) => "Io"@,
        MedicError::Arboard(_) => "Arboard"@,
        MedicError::Envsubst(_) => "Envsubst"@,
        MedicError::OsString(_) => "OsString"@,
        MedicError::Message(_) => "Message"@,
        MedicError::Other(_) => "Other"@,
    }
}

/// The Debug form of what an error holds: that of the outside error, the
/// Debug form kept of a string that is not valid Unicode, or the quoted
/// message.
pub open spec fn error_payload(e: MedicError) -> Seq<char> {
    match e {
        MedicError::Io(o) => o.debug@,
        MedicError::Arboard(o) => o.debug@,
        MedicError::Envsubst(o) => o.debug@,
        MedicError::OsString(m) => m@,
        MedicError::Message(m) => debug_quoted(m@),
        MedicError::Other(o) => o.debug@,
    }
}

/// The error shown before the question: a blank line, `Error` in bold
/// red, the Debug form of the error (its kind and, in brackets, the Debug
/// form of what it holds), and a blank line.
pub open spec fn prompt_error_text(e: MedicError) -> Seq<char> {
    "\n"@ + styled(TextStyle { fg: Some(Color::Red), bright: false, bold: true, underlined: false }, "Error"@)
        + " "@ + error_kind(e) + "("@ + error_payload(e) + ")\n"@
}

/// The error shown before the question.
pub fn prompt_error(e: &MedicError) -> (r: String)
    ensures
        r@ == prompt_error_text(*e),
{
    let (kind, payload) = match e {
        MedicError::Io(o) => ("Io", o.debug.clone()),
        MedicError::Arboard(o) => ("Arboard", o.debug.clone()),
        MedicError::Envsubst(o) => ("Envsubst", o.debug.clone()),
        MedicError::OsString(m) => ("OsString", m.clone()),
        MedicError::Message(m) => ("Message", debug_string(m)),
        MedicError::Other(o) => ("Other", o.debug.clone()),
    };
    let mut r = "\n".to_owned();
    let red = TextStyle { fg: Some(Color::Red), bright: false, bold: true, underlined: false };
    r.append(paint(&red, "Error").as_str());
    r.append(" ");
    r.append(kind);
    r.append("(");
    r.append(payload.as_str());
    r.append(")\n");
    assert(r@ =~= prompt_error_text(*e));
    r
}

} // verus!
