//! Steps as the stand-alone step runner describes them: a shell line split
//! at spaces, or a `medic-step-<name>` program.
use crate::extra::command::{BaseEnv, CommandSpec};
use crate::keyed::KeyedList;
use crate::text::{chars_of, split_chars, split_seq, string_from_chars};
use vstd::prelude::*;

verus! {

/// A step.
pub enum Step {
    Shell(ShellConfig),
    Step(StepConfig),
}

/// A shell line to run, split at spaces into a program and its arguments.
pub struct ShellConfig {
    pub allow_failure: bool,
    pub name: String,
    pub shell: String,
    pub verbose: bool,
}

/// A `medic-step-<step>` program, with an optional subcommand and flags.
pub struct StepConfig {
    pub args: Option<KeyedList<String>>,
    pub command: Option<String>,
    pub name: Option<String>,
    pub step: String,
    pub verbose: bool,
}

/// `--<flag> <value>` for each argument, in the order the entries are kept.
pub open spec fn pair_flags(e: Seq<(String, String)>) -> Seq<Seq<char>>
    decreases e.len(),
{
    if e.len() == 0 {
        Seq::empty()
    } else {
        pair_flags(e.drop_last()) + seq!["--"@ + e.last().0@, e.last().1@]
    }
}

/// The values of the arguments, in the order the entries are kept, run together.
pub open spec fn values_text(e: Seq<(String, String)>) -> Seq<char>
    decreases e.len(),
{
    if e.len() == 0 {
        Seq::empty()
    } else {
        values_text(e.drop_last()) + e.last().1@
    }
}

/// The command a step runs: the first word of a shell line with the other
/// words as arguments; or `medic-step-<step>` with the subcommand and the
/// flags.
pub open spec fn command_of(s: Step) -> (Seq<char>, Seq<Seq<char>>) {
    match s {
        Step::Shell(c) => (split_seq(c.shell@, seq![' '])[0], split_seq(c.shell@, seq![' ']).skip(1)),
        Step::Step(c) => (
            "medic-step-"@ + c.step@,
            (match c.command {
                Some(cmd) => seq![cmd@],
                None => Seq::empty(),
            }) + match c.args {
                Some(a) => pair_flags(a.view()),
                None => Seq::empty(),
            },
        ),
    }
}

/// How a step is shown, coloured with escape codes.
pub open spec fn step_text(s: Step) -> Seq<char> {
    match s {
        Step::Shell(c) => "\x1b[36m"@ + c.name@,
        Step::Step(c) => match c.name {
            Some(n) => "\x1b[36m"@ + n@ + "\x1b[0m"@,
            None => "\x1b[36m"@ + c.step@ + (match c.command {
                Some(cmd) => ": \x1b[0;36m"@ + cmd@ + "!"@,
                None => Seq::empty(),
            }) + (match c.args {
                Some(a) => " \x1b[0;33m("@ + values_text(a.view()) + ")"@,
                None => Seq::empty(),
            }) + "\x1b[0m"@,
        },
    }
}

impl Step {
    /// The command the step runs, on the inherited environment.
    pub fn to_command(self) -> (r: Option<CommandSpec>)
        ensures
            r matches Some(cmd) && cmd@.program == command_of(self).0 && cmd@.args == command_of(
                self,
            ).1 && cmd@.envs == Seq::<(Seq<char>, Seq<char>)>::empty() && cmd@.dir is None,
    {
        match self {
            Step::Shell(config) => {
                let space: Vec<char> = vec![' '];
                assert(space@ =~= seq![' ']);
                let words = split_chars(&chars_of(config.shell.as_str()), &space);
                proof {
                    crate::text::lemma_split_nonempty(config.shell@, seq![' ']);
                }
                assert(words[0int]@ == words.deep_view()[0int]) by {
                    assert(words[0int].deep_view() =~= words[0int]@);
                }
                let mut command = CommandSpec {
                    program: string_from_chars(&words[0]),
                    args: Vec::new(),
                    envs: Vec::new(),
                    dir: None,
                    base_env: BaseEnv::Inherited,
                };
                assert(command@.args =~= Seq::<Seq<char>>::empty());
                assert(command@.envs =~= Seq::<(Seq<char>, Seq<char>)>::empty());
                let ghost wv = words.deep_view();
                let mut i: usize = 1;
                while i < words.len()
                    invariant
                        1 <= i <= words.len(),
                        wv == words.deep_view(),
                        command@.args == wv.subrange(1, i as int),
                        command@.envs == Seq::<(Seq<char>, Seq<char>)>::empty(),
                        command@.dir is None,
                        command@.program == wv[0],
                    decreases words.len() - i,
                {
                    assert(words[i as int]@ == wv[i as int]) by {
                        assert(words[i as int].deep_view() =~= words[i as int]@);
                    }
                    let w = string_from_chars(&words[i]);
                    command.arg(w.as_str());
                    assert(command@.args =~= wv.subrange(1, i + 1));
                    i = i + 1;
                }
                assert(wv.subrange(1, words.len() as int) =~= wv.skip(1));
                Some(command)
            },
            Step::Step(config) => {
                let mut program = "medic-step-".to_owned();
                program.append(config.step.as_str());
                let mut command = CommandSpec {
                    program,
                    args: Vec::new(),
                    envs: Vec::new(),
                    dir: None,
                    base_env: BaseEnv::Inherited,
                };
                assert(command@.args =~= Seq::<Seq<char>>::empty());
                assert(command@.envs =~= Seq::<(Seq<char>, Seq<char>)>::empty());
                if let Some(subcmd) = &config.command {
                    command.arg(subcmd.as_str());
                }
                let ghost after_sub = command@.args;
                if let Some(args) = &config.args {
                    let entries = args.entries();
                    let mut i: usize = 0;
                    while i < entries.len()
                        invariant
                            i <= entries.len(),
                            entries@ == args.view(),
                            command@.args == after_sub + pair_flags(entries@.take(i as int)),
                            command@.envs == Seq::<(Seq<char>, Seq<char>)>::empty(),
                            command@.dir is None,
                            command@.program == "medic-step-"@ + config.step@,
                        decreases entries.len() - i,
                    {
                        let mut flag = "--".to_owned();
                        flag.append(entries[i].0.as_str());
                        command.arg(flag.as_str());
                        command.arg(entries[i].1.as_str());
                        assert(entries@.take(i + 1).drop_last() =~= entries@.take(i as int));
                        assert(command@.args =~= after_sub + pair_flags(entries@.take(i + 1)));
                        i = i + 1;
                    }
                    assert(entries@.take(entries.len() as int) =~= entries@);
                }
                Some(command)
            },
        }
    }

    /// How the step is shown.
    pub fn to_string(&self) -> (r: String)
        ensures
            r@ == step_text(*self),
    {
        match self {
            Step::Shell(config) => {
                let mut r = "\x1b[36m".to_owned();
                r.append(config.name.as_str());
                r
            },
            Step::Step(config) => match &config.name {
                Some(n) => {
                    let mut r = "\x1b[36m".to_owned();
                    r.append(n.as_str());
                    r.append("\x1b[0m");
                    r
                },
                None => {
                    let mut r = "\x1b[36m".to_owned();
                    r.append(config.step.as_str());
                    let ghost a = r@;
                    if let Some(command) = &config.command {
                        r.append(": \x1b[0;36m");
                        r.append(command.as_str());
                        r.append("!");
                    }
                    let ghost b = r@;
                    if let Some(args) = &config.args {
                        r.append(" \x1b[0;33m(");
                        let entries = args.entries();
                        let ghost c = r@;
                        let mut i: usize = 0;
                        while i < entries.len()
                            invariant
                                i <= entries.len(),
                                entries@ == args.view(),
                                r@ == c + values_text(entries@.take(i as int)),
                            decreases entries.len() - i,
                        {
                            r.append(entries[i].1.as_str());
                            assert(entries@.take(i + 1).drop_last() =~= entries@.take(i as int));
                            assert(r@ =~= c + values_text(entries@.take(i + 1)));
                            i = i + 1;
                        }
                        assert(entries@.take(entries.len() as int) =~= entries@);
                        r.append(")");
                    }
                    r.append("\x1b[0m");
                    assert(r@ =~= step_text(*self));
                    r
                },
            },
        }
    }
}

} // verus!
