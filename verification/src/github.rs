//! The step that links to a repository's GitHub Actions page, found from a
//! git remote's URL.
use crate::extra::command::{opt_string_view, BaseEnv, CommandSpec};
use crate::step_result::{command_result, is_step_error, StepResult};
use crate::text::{chars_of, string_from_chars, trim, trim_chars};
use vstd::prelude::*;

verus! {

/// The command line of the GitHub step program: the step to run.
pub struct CliArgs {
    pub command: Command,
}

/// The steps of the GitHub step program.
pub enum Command {
    /// Look at the project's git config to link to GitHub Actions.
    LinkToActions(GithubActionsArgs),
}

/// The git remote to look at (`origin` by default).
pub struct GithubActionsArgs {
    pub remote: String,
}

/// What `regex::Regex::new(pattern)` followed by `captures(text)` finds:
/// `None` when the pattern is not a valid regular expression or does not
/// match; else the text of each group of the leftmost match (the whole
/// match first), `None` for a group that took no part in it.
pub uninterp spec fn regex_captures(pattern: Seq<char>, text: Seq<char>) -> Option<Seq<Option<Seq<char>>>>;

/// The groups of the leftmost match of `pattern` in `text`
/// (`regex::Regex::new` and `Regex::captures`); `None` when the pattern is
/// invalid or does not match.
#[verifier::external_body]
fn captures(pattern: &str, text: &str) -> (r: Option<Vec<Option<String>>>)
    ensures
        r is None ==> regex_captures(pattern@, text@) is None,
        r matches Some(v) ==> regex_captures(pattern@, text@) == Some(
            v@.map_values(|o: Option<String>| opt_string_view(o)),
        ),
{
    let re = regex::Regex::new(pattern).ok()?;
    let caps = re.captures(text)?;
    Some(caps.iter().map(|m| m.map(|m| m.as_str().to_owned())).collect())
}

/// How a remote URL is read: `git@` or `https://`, the host, `:` or `/`,
/// the repository path, and `.git` at the end.
pub open spec fn remote_pattern() -> Seq<char> {
    "(git@|https://)([^:]+)[:/](.+)(?:\\.git)$"@
}

/// The web address that the groups found by `remote_pattern` give:
/// `https://`, the host (the second group) and the repository path (the
/// third); `None` when there was no match or either group is missing.
pub open spec fn url_of_captures(caps: Option<Seq<Option<Seq<char>>>>) -> Option<Seq<char>> {
    match caps {
        Some(c) => if c.len() > 3 && c[2] is Some && c[3] is Some {
            Some("https://"@ + c[2]->0 + "/"@ + c[3]->0)
        } else {
            None
        },
        None => None,
    }
}

/// The web address of the repository whose remote URL is `origin`
/// (trimmed), from the groups that `remote_pattern` finds in it.
pub open spec fn web_url(origin: Seq<char>) -> Option<Seq<char>> {
    url_of_captures(regex_captures(remote_pattern(), trim(origin)))
}

/// The groups found, as text.
pub open spec fn captures_view(caps: Option<Vec<Option<String>>>) -> Option<Seq<Option<Seq<char>>>> {
    match caps {
        Some(v) => Some(v@.map_values(|o: Option<String>| opt_string_view(o))),
        None => None,
    }
}

/// The web address that the groups found in a remote URL give (see
/// `url_of_captures`).
pub fn url_from_captures(caps: &Option<Vec<Option<String>>>) -> (r: Option<String>)
    ensures
        opt_string_view(r) == url_of_captures(captures_view(*caps)),
{
    match caps {
        Some(c) => {
            if c.len() > 3 {
                match (&c[2], &c[3]) {
                    (Some(host), Some(path)) => {
                        let mut url = "https://".to_owned();
                        url.append(host.as_str());
                        url.append("/");
                        url.append(path.as_str());
                        Some(url)
                    },
                    _ => None,
                }
            } else {
                None
            }
        },
        None => None,
    }
}

/// The web address of the repository whose remote URL is `origin`.
pub fn github_url(origin: &str) -> (r: Option<String>)
    ensures
        opt_string_view(r) == web_url(origin@),
{
    let t = string_from_chars(&trim_chars(&chars_of(origin)));
    let caps = captures("(git@|https://)([^:]+)[:/](.+)(?:\\.git)$", t.as_str());
    url_from_captures(&caps)
}

/// The message that links to the Actions page of `url`.
pub open spec fn ci_text(url: Seq<char>) -> Seq<char> {
    "\x1b[93mCheck CI at \x1b[0;1m"@ + url + "/actions\x1b[0m"@
}

/// The message that links to the Actions page of the repository whose
/// remote URL is `origin`, if it has the expected form.
pub fn ci_message(origin: &str) -> (r: Option<String>)
    ensures
        match web_url(origin@) {
            Some(u) => r matches Some(m) && m@ == ci_text(u),
            None => r is None,
        },
{
    match github_url(origin) {
        Some(url) => {
            let mut m = "\x1b[93mCheck CI at \x1b[0;1m".to_owned();
            m.append(url.as_str());
            m.append("/actions\x1b[0m");
            Some(m)
        },
        None => None,
    }
}

/// `git remote get-url <remote>`.
pub fn remote_url_command(args: &GithubActionsArgs) -> (r: CommandSpec)
    ensures
        r@.program == "git"@,
        r@.args == seq!["remote"@, "get-url"@, args.remote@],
        r@.envs == Seq::<(Seq<char>, Seq<char>)>::empty(),
        r@.dir is None,
        r@.base_env == BaseEnv::Inherited,
{
    let mut cmd = CommandSpec {
        program: "git".to_owned(),
        args: Vec::new(),
        envs: Vec::new(),
        dir: None,
        base_env: BaseEnv::Inherited,
    };
    assert(cmd@.args =~= Seq::<Seq<char>>::empty());
    assert(cmd@.envs =~= Seq::<(Seq<char>, Seq<char>)>::empty());
    cmd.arg("remote");
    cmd.arg("get-url");
    cmd.arg(args.remote.as_str());
    assert(cmd@.args =~= seq!["remote"@, "get-url"@, args.remote@]);
    cmd
}

/// What looking up the remote reports when it did not succeed, given
/// whether git could be run and what it wrote.
pub fn remote_failure(ran: Option<(String, String)>) -> (r: StepResult)
    ensures
        match ran {
            Some((out, err)) => is_step_error(r, "Git remote error"@, Some(out@), Some(err@)),
            None => is_step_error(r, "Could not run `git remote get-url`. Is `git` in PATH?"@, None, None),
        },
{
    let ran = match ran {
        Some((out, err)) => Some((false, out, err)),
        None => None,
    };
    command_result(ran, "Git remote error", true, "Could not run `git remote get-url`. Is `git` in PATH?")
}

} // verus!
