//! Medic's own settings, kept per project in the user's configuration, and
//! the manifest of a project's workflows.
pub mod manifest;

pub use self::manifest::Manifest;

use crate::extra::env::{single_placeholder, substitute, text_map, vars_valid};
use crate::keyed::KeyedList;
use vstd::prelude::*;

verus! {

/// The settings of each project, by the project's directory.
pub struct Config {
    pub projects: KeyedList<Project>,
}

/// The settings of a project: the steps it skips.
pub struct Project {
    pub skipped: Vec<String>,
}

/// Something that can be recorded as skipped, by the text that names it.
pub trait Skippable {
    fn to_skipped(&self) -> String;
}

impl Default for Project {
    /// A project that skips nothing.
    fn default() -> (r: Self)
        ensures
            r.skipped@.len() == 0,
    {
        Project { skipped: Vec::new() }
    }
}

/// A copy of a list of strings.
fn copy_strings(v: &Vec<String>) -> (r: Vec<String>)
    ensures
        r@ == v@,
{
    let mut r: Vec<String> = Vec::new();
    let mut i: usize = 0;
    while i < v.len()
        invariant
            i <= v.len(),
            r@ == v@.take(i as int),
        decreases v.len() - i,
    {
        r.push(v[i].clone());
        assert(r@ =~= v@.take(i + 1));
        i = i + 1;
    }
    assert(v@.take(v.len() as int) =~= v@);
    r
}

/// The variables the configuration path is expanded with: the whole
/// environment, a later entry winning.
pub open spec fn env_map(vars: Seq<(String, String)>) -> Map<Seq<char>, String>
    decreases vars.len(),
{
    if vars.len() == 0 {
        Map::empty()
    } else {
        env_map(vars.drop_last()).insert(vars.last().0@, vars.last().1)
    }
}

/// Where the user's configuration lives before expansion.
pub open spec fn config_template() -> Seq<char> {
    "${HOME}/.config/medic/config.toml"@
}

/// What follows `${HOME}` in the configuration template.
pub open spec fn config_suffix() -> Seq<char> {
    "/.config/medic/config.toml"@
}

/// The path of the user's configuration in the environment `m`: the
/// template with `${HOME}` replaced by the value of `HOME`, or the template
/// itself when `HOME` is not set.
pub open spec fn config_path(m: Map<Seq<char>, Seq<char>>) -> Seq<char> {
    if m.contains_key("HOME"@) {
        m["HOME"@] + config_suffix()
    } else {
        config_template()
    }
}

/// The configuration template is a single `${HOME}` placeholder before the
/// rest of the path.
proof fn lemma_config_template_single()
    ensures
        single_placeholder(config_template(), Seq::empty(), "HOME"@, config_suffix()),
{
    reveal_strlit("${HOME}/.config/medic/config.toml");
    reveal_strlit("/.config/medic/config.toml");
    reveal_strlit("HOME");
    reveal_strlit("${");
    reveal_strlit("}");
    assert(config_template() =~= Seq::<char>::empty() + "${"@ + "HOME"@ + "}"@ + config_suffix());
    assert(!"HOME"@.contains('$'));
    assert(!"HOME"@.contains('}'));
    assert(!config_suffix().contains('$'));
}

impl Config {
    /// An empty configuration.
    pub fn new() -> (r: Self)
        ensures
            r.projects.view().len() == 0,
    {
        Config { projects: KeyedList::new() }
    }

    /// The settings of the project in directory `cwd`, or the default
    /// settings when it has none.
    pub fn project(&self, cwd: &str) -> (r: Project)
        ensures
            self.projects.as_map().contains_key(cwd@) ==> r.skipped@ == self.projects.as_map()[cwd@].skipped@,
            !self.projects.as_map().contains_key(cwd@) ==> r.skipped@.len() == 0,
    {
        match self.projects.get(cwd) {
            Some(p) => Project { skipped: copy_strings(&p.skipped) },
            None => Project::default(),
        }
    }

    /// The path of the user's configuration,
    /// `${HOME}/.config/medic/config.toml` expanded with the environment
    /// `vars`, whose names and values must all be accepted by `envsubst`.
    pub fn path(vars: &Vec<(String, String)>) -> (r: String)
        requires
            vars_valid(text_map(env_map(vars@))),
        ensures
            r@ == config_path(text_map(env_map(vars@))),
    {
        let mut ctx: KeyedList<String> = KeyedList::new();
        let mut i: usize = 0;
        while i < vars.len()
            invariant
                i <= vars.len(),
                ctx.as_map() == env_map(vars@.take(i as int)),
            decreases vars.len() - i,
        {
            assert(vars@.take(i + 1).drop_last() =~= vars@.take(i as int));
            ctx.insert(vars[i].0.clone(), vars[i].1.clone());
            i = i + 1;
        }
        assert(vars@.take(vars.len() as int) =~= vars@);
        assert(ctx.as_map() =~= env_map(vars@));
        proof {
            lemma_config_template_single();
            assert(Seq::<char>::empty() + text_map(env_map(vars@))["HOME"@] + config_suffix()
                =~= text_map(env_map(vars@))["HOME"@] + config_suffix());
        }
        match substitute("${HOME}/.config/medic/config.toml", &ctx) {
            Ok(s) => s,
            Err(_) => String::new(),
        }
    }
}

} // verus!
