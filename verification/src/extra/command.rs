//! The description of a command to run: what `std::process::Command` is
//! built from.
use crate::keyed::KeyedList;
use vstd::prelude::*;

verus! {

/// The environment a command starts from.
#[derive(Clone, Copy, PartialEq, Eq, Structural)]
pub enum BaseEnv {
    /// The environment of medic itself.
    Inherited,
    /// The environment of medic without the variables whose values hold
    /// `{` or `}`.
    Filtered,
}

/// A command to run: the program, its arguments, the environment variables
/// set on top of `base_env` (in order, a later one winning), and the
/// directory to run in (resolved against the current directory when run).
pub struct CommandSpec {
    pub program: String,
    pub args: Vec<String>,
    pub envs: Vec<(String, String)>,
    pub dir: Option<String>,
    pub base_env: BaseEnv,
}

pub struct CommandView {
    pub program: Seq<char>,
    pub args: Seq<Seq<char>>,
    pub envs: Seq<(Seq<char>, Seq<char>)>,
    pub dir: Option<Seq<char>>,
    pub base_env: BaseEnv,
}

pub open spec fn strings_view(v: Seq<String>) -> Seq<Seq<char>> {
    v.map_values(|s: String| s@)
}

pub open spec fn pairs_view(v: Seq<(String, String)>) -> Seq<(Seq<char>, Seq<char>)> {
    v.map_values(|p: (String, String)| (p.0@, p.1@))
}

pub open spec fn opt_string_view(o: Option<String>) -> Option<Seq<char>> {
    match o {
        Some(s) => Some(s@),
        None => None,
    }
}

impl View for CommandSpec {
    type V = CommandView;

    open spec fn view(&self) -> CommandView {
        CommandView {
            program: self.program@,
            args: strings_view(self.args@),
            envs: pairs_view(self.envs@),
            dir: opt_string_view(self.dir),
            base_env: self.base_env,
        }
    }
}

/// A copy of an optional string.
pub fn clone_opt(o: &Option<String>) -> (r: Option<String>)
    ensures
        r == *o,
{
    match o {
        Some(s) => Some(s.clone()),
        None => None,
    }
}

/// The environment entries of `env`, in the order they were written.
pub fn env_pairs(env: &KeyedList<String>) -> (r: Vec<(String, String)>)
    ensures
        pairs_view(r@) == pairs_view(env.view()),
{
    let entries = env.entries();
    let mut r: Vec<(String, String)> = Vec::new();
    let mut i: usize = 0;
    while i < entries.len()
        invariant
            i <= entries.len(),
            pairs_view(r@) == pairs_view(entries@.take(i as int)),
        decreases entries.len() - i,
    {
        let k = entries[i].0.clone();
        let v = entries[i].1.clone();
        let ghost before = r@;
        r.push((k, v));
        assert(r@ == before.push((k, v)));
        assert(pairs_view(r@) =~= pairs_view(before).push((k@, v@)));
        assert(entries@.take(i + 1) =~= entries@.take(i as int).push(entries@[i as int]));
        assert(pairs_view(entries@.take(i + 1)) =~= pairs_view(entries@.take(i as int)).push(
            (k@, v@),
        ));
        i = i + 1;
    }
    assert(entries@.take(entries.len() as int) =~= entries@);
    r
}

/// How a command line is shown: `(cd <dir> && <command>)` when it runs in
/// a directory, else the command itself.
pub open spec fn command_text(command: Seq<char>, dir: Option<Seq<char>>) -> Seq<char> {
    match dir {
        Some(d) => "(cd "@ + d + " && "@ + command + ")"@,
        None => command,
    }
}

pub fn to_string(command: &String, dir: &Option<String>) -> (r: String)
    ensures
        r@ == command_text(command@, opt_string_view(*dir)),
{
    match dir {
        Some(d) => {
            let mut r = "(cd ".to_owned();
            r.append(d.as_str());
            r.append(" && ");
            r.append(command.as_str());
            r.append(")");
            r
        },
        None => command.clone(),
    }
}

/// `cmd` run in `dir` with `env` set on the filtered environment.
pub fn new(cmd: &str, dir: &Option<String>, env: &KeyedList<String>) -> (r: CommandSpec)
    ensures
        r@.program == cmd@,
        r@.args == Seq::<Seq<char>>::empty(),
        r@.envs == pairs_view(env.view()),
        r@.dir == opt_string_view(*dir),
        r@.base_env == BaseEnv::Filtered,
{
    let r = CommandSpec {
        program: cmd.to_owned(),
        args: Vec::new(),
        envs: env_pairs(env),
        dir: clone_opt(dir),
        base_env: BaseEnv::Filtered,
    };
    assert(strings_view(r.args@) =~= Seq::<Seq<char>>::empty());
    r
}

/// The shell line `cmd`, run by `sh -c` in `dir` with `env` set on the
/// filtered environment.
pub fn from_string(cmd: &str, dir: &Option<String>, env: &KeyedList<String>) -> (r: CommandSpec)
    ensures
        r@.program == "sh"@,
        r@.args == seq!["-c"@, cmd@],
        r@.envs == pairs_view(env.view()),
        r@.dir == opt_string_view(*dir),
        r@.base_env == BaseEnv::Filtered,
{
    let mut r = new("sh", dir, env);
    r.arg("-c");
    r.arg(cmd);
    assert(seq![].push("-c"@).push(cmd@) =~= seq!["-c"@, cmd@]);
    r
}

impl CommandSpec {
    /// Adds an argument.
    pub fn arg(&mut self, a: &str)
        ensures
            final(self)@ == (CommandView { args: old(self)@.args.push(a@), ..old(self)@ }),
    {
        self.args.push(a.to_owned());
        assert(strings_view(self.args@) =~= strings_view(old(self).args@).push(a@));
    }

    /// Sets an environment variable.
    pub fn env(&mut self, key: &str, value: &str)
        ensures
            final(self)@ == (CommandView {
                envs: old(self)@.envs.push((key@, value@)),
                ..old(self)@
            }),
    {
        self.envs.push((key.to_owned(), value.to_owned()));
        assert(pairs_view(self.envs@) =~= pairs_view(old(self).envs@).push((key@, value@)));
    }

    /// Adds each of `args`, in order.
    pub fn args_from(&mut self, args: &Vec<String>)
        ensures
            final(self)@ == (CommandView {
                args: old(self)@.args + strings_view(args@),
                ..old(self)@
            }),
    {
        let mut i: usize = 0;
        while i < args.len()
            invariant
                i <= args.len(),
                self@ == (CommandView {
                    args: old(self)@.args + strings_view(args@.take(i as int)),
                    ..old(self)@
                }),
            decreases args.len() - i,
        {
            self.arg(args[i].as_str());
            assert(strings_view(args@.take(i + 1)) =~= strings_view(args@.take(i as int)).push(
                args@[i as int]@,
            ));
            assert(old(self)@.args + strings_view(args@.take(i + 1)) =~= (old(self)@.args
                + strings_view(args@.take(i as int))).push(args@[i as int]@));
            i = i + 1;
        }
        assert(args@.take(args.len() as int) =~= args@);
    }

    /// Sets each variable of `env`, in the order they were written.
    pub fn envs_from(&mut self, env: &KeyedList<String>)
        ensures
            final(self)@ == (CommandView {
                envs: old(self)@.envs + pairs_view(env.view()),
                ..old(self)@
            }),
    {
        let pairs = env_pairs(env);
        let mut i: usize = 0;
        while i < pairs.len()
            invariant
                i <= pairs.len(),
                pairs_view(pairs@) == pairs_view(env.view()),
                self@ == (CommandView {
                    envs: old(self)@.envs + pairs_view(pairs@.take(i as int)),
                    ..old(self)@
                }),
            decreases pairs.len() - i,
        {
            self.env(pairs[i].0.as_str(), pairs[i].1.as_str());
            assert(pairs_view(pairs@.take(i + 1)) =~= pairs_view(pairs@.take(i as int)).push(
                (pairs@[i as int].0@, pairs@[i as int].1@),
            ));
            assert(old(self)@.envs + pairs_view(pairs@.take(i + 1)) =~= (old(self)@.envs
                + pairs_view(pairs@.take(i as int))).push((pairs@[i as int].0@, pairs@[i as int].1@)));
            i = i + 1;
        }
        assert(pairs@.take(pairs.len() as int) =~= pairs@);
    }
}

} // verus!
