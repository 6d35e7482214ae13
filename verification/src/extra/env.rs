//! Expansion of `${NAME}` variables in paths and command lines, with
//! values taken from the environment (through the `envsubst` crate).
use crate::error::{MedicError, OutsideError};
use crate::keyed::KeyedList;
use vstd::prelude::*;

verus! {

/// The error `envsubst` reports.
#[verifier::external_type_specification]
#[verifier::external_body]
pub struct ExEnvsubstError(envsubst::Error);

/// Whether `s` holds none of `$`, `{` and `}`, which `envsubst` does not
/// accept in names and values.
pub open spec fn subst_safe(s: Seq<char>) -> bool {
    !s.contains('$') && !s.contains('{') && !s.contains('}')
}

/// Whether every name and value of `vars` is accepted by `envsubst`.
pub open spec fn vars_valid(vars: Map<Seq<char>, Seq<char>>) -> bool {
    forall|k: Seq<char>| #[trigger] vars.contains_key(k) ==> subst_safe(k) && subst_safe(vars[k])
}

/// The values of a map of strings, as text.
pub open spec fn text_map(m: Map<Seq<char>, String>) -> Map<Seq<char>, Seq<char>> {
    m.map_values(|v: String| v@)
}

/// Whether `t` is `pre`, then `${name}`, then `post`, with no other `$`
/// in it and no `}` in `name`.
pub open spec fn single_placeholder(t: Seq<char>, pre: Seq<char>, name: Seq<char>, post: Seq<char>) -> bool {
    &&& t == pre + "${"@ + name + "}"@ + post
    &&& !pre.contains('$')
    &&& !name.contains('$')
    &&& !name.contains('}')
    &&& !post.contains('$')
}

/// What holds of `s`, an expansion of `template` with the variables `m`,
/// whatever order they are replaced in: a template without `$` is left as
/// it is, and a template with a single `${NAME}` has it replaced by the
/// value of `NAME` when `m` has one, and is otherwise left as it is.
pub open spec fn expansion_of(template: Seq<char>, m: Map<Seq<char>, Seq<char>>, s: Seq<char>) -> bool {
    &&& !template.contains('$') ==> s == template
    &&& forall|pre: Seq<char>, name: Seq<char>, post: Seq<char>|
        #[trigger] single_placeholder(template, pre, name, post) ==> s == (if m.contains_key(name) {
            pre + m[name] + post
        } else {
            template
        })
}

/// `envsubst::substitute(template, vars)`. It succeeds exactly when every
/// name and value is free of `$`, `{` and `}` (so always with no
/// variables); with no variables it gives the template itself. It replaces
/// each `${NAME}` by the value of `NAME`, one variable after another in the
/// order a `HashMap` is walked, which each process seeds anew: where one
/// replacement can make a `${NAME}` for another (as `$${A}{B}` can), the
/// result depends on that order. So only what holds in every order is
/// stated (see `expansion_of`); the message of its error names the first
/// offending variable in that order, and nothing is stated of it.
#[verifier::external_body]
fn envsubst_substitute(template: &str, vars: &KeyedList<String>) -> (r: Result<String, envsubst::Error>)
    ensures
        r is Ok <==> vars_valid(text_map(vars.as_map())),
        r matches Ok(s) ==> expansion_of(template@, text_map(vars.as_map()), s@),
        r matches Ok(s) ==> (vars@.len() == 0 ==> s@ == template@),
{
    let map: std::collections::HashMap<String, String> = vars.entries().iter().cloned().collect();
    envsubst::substitute(template, &map)
}

/// The message of an `envsubst` error (its `Display`).
#[verifier::external_body]
fn envsubst_error_text(e: &envsubst::Error) -> (r: String) {
    e.to_string()
}

/// The `Debug` form of an `envsubst` error. Nothing is stated of it.
#[verifier::external_body]
fn envsubst_error_debug(e: &envsubst::Error) -> (r: String) {
    format!("{:?}", e)
}

/// `template` with its `${NAME}` variables replaced (see
/// `envsubst_substitute`); the error is an `Envsubst` error.
pub fn substitute(template: &str, vars: &KeyedList<String>) -> (r: Result<String, MedicError>)
    ensures
        vars_valid(text_map(vars.as_map())) ==> (r matches Ok(s) && expansion_of(
            template@,
            text_map(vars.as_map()),
            s@,
        )),
        vars@.len() == 0 ==> (r matches Ok(s) && s@ == template@),
        !vars_valid(text_map(vars.as_map())) ==> (r matches Err(MedicError::Envsubst(_))),
{
    match envsubst_substitute(template, vars) {
        Ok(s) => Ok(s),
        Err(e) => Err(MedicError::Envsubst(OutsideError::new(envsubst_error_text(&e), envsubst_error_debug(&e)))),
    }
}

/// Whether `s` holds any of `forbidden`.
pub open spec fn holds_any(s: Seq<char>, forbidden: Seq<char>) -> bool {
    exists|i: int| 0 <= i < forbidden.len() && s.contains(#[trigger] forbidden[i])
}

/// The variables a template is expanded with: `CWD` set to `cwd`, then each
/// of `vars` whose value holds none of `forbidden`, a later one winning.
pub open spec fn subst_context(cwd: String, vars: Seq<(String, String)>, forbidden: Seq<char>) -> Map<
    Seq<char>,
    String,
>
    decreases vars.len(),
{
    if vars.len() == 0 {
        map!["CWD"@ => cwd]
    } else {
        let m = subst_context(cwd, vars.drop_last(), forbidden);
        if holds_any(vars.last().1@, forbidden) {
            m
        } else {
            m.insert(vars.last().0@, vars.last().1)
        }
    }
}

/// Whether `s` holds any of `forbidden`.
fn holds_any_exec(s: &String, forbidden: &Vec<char>) -> (r: bool)
    ensures
        r == holds_any(s@, forbidden@),
{
    let cs = crate::text::chars_of(s.as_str());
    let mut i: usize = 0;
    while i < cs.len()
        invariant
            i <= cs.len(),
            cs@ == s@,
            forall|a: int, b: int| 0 <= a < i && 0 <= b < forbidden@.len() ==> cs@[a] != forbidden@[b],
        decreases cs.len() - i,
    {
        let mut j: usize = 0;
        while j < forbidden.len()
            invariant
                i < cs.len(),
                j <= forbidden.len(),
                cs@ == s@,
                forall|b: int| 0 <= b < j ==> cs@[i as int] != forbidden@[b],
            decreases forbidden.len() - j,
        {
            if cs[i] == forbidden[j] {
                assert(s@.contains(forbidden@[j as int])) by {
                    assert(s@[i as int] == forbidden@[j as int]);
                }
                return true;
            }
            j = j + 1;
        }
        i = i + 1;
    }
    assert forall|b: int| 0 <= b < forbidden@.len() implies !s@.contains(#[trigger] forbidden@[b]) by {
        if s@.contains(forbidden@[b]) {
            let a = choose|a: int| 0 <= a < s@.len() && s@[a] == forbidden@[b];
            assert(cs@[a] != forbidden@[b]);
        }
    }
    false
}

/// The environment a command with a filtered base starts from: each of
/// `vars` whose value holds neither `{` nor `}`, a later one winning, then
/// the command's own variables `envs` on top, in order.
pub open spec fn filtered_env(vars: Seq<(String, String)>, envs: Seq<(String, String)>) -> Map<Seq<char>, String>
    decreases envs.len(),
{
    if envs.len() == 0 {
        kept_vars(vars)
    } else {
        filtered_env(vars, envs.drop_last()).insert(envs.last().0@, envs.last().1)
    }
}

/// The variables of `vars` whose values hold neither `{` nor `}`, a later
/// one winning.
pub open spec fn kept_vars(vars: Seq<(String, String)>) -> Map<Seq<char>, String>
    decreases vars.len(),
{
    if vars.len() == 0 {
        Map::empty()
    } else if holds_any(vars.last().1@, seq!['{', '}']) {
        kept_vars(vars.drop_last())
    } else {
        kept_vars(vars.drop_last()).insert(vars.last().0@, vars.last().1)
    }
}

/// The environment for `filtered_env`.
pub fn build_filtered_env(vars: &Vec<(String, String)>, envs: &Vec<(String, String)>) -> (r: KeyedList<String>)
    ensures
        r.as_map() == filtered_env(vars@, envs@),
{
    let forbidden = vec!['{', '}'];
    assert(forbidden@ =~= seq!['{', '}']);
    let mut env: KeyedList<String> = KeyedList::new();
    assert(env.as_map() =~= Map::<Seq<char>, String>::empty());
    let mut i: usize = 0;
    while i < vars.len()
        invariant
            i <= vars.len(),
            forbidden@ == seq!['{', '}'],
            env.as_map() == kept_vars(vars@.take(i as int)),
        decreases vars.len() - i,
    {
        assert(vars@.take(i + 1).drop_last() =~= vars@.take(i as int));
        if !holds_any_exec(&vars[i].1, &forbidden) {
            env.insert(vars[i].0.clone(), vars[i].1.clone());
        }
        i = i + 1;
    }
    assert(vars@.take(vars.len() as int) =~= vars@);
    let mut j: usize = 0;
    while j < envs.len()
        invariant
            j <= envs.len(),
            env.as_map() == filtered_env(vars@, envs@.take(j as int)),
        decreases envs.len() - j,
    {
        assert(envs@.take(j + 1).drop_last() =~= envs@.take(j as int));
        env.insert(envs[j].0.clone(), envs[j].1.clone());
        j = j + 1;
    }
    assert(envs@.take(envs.len() as int) =~= envs@);
    env
}

/// The variables for `subst_context`.
pub fn build_context(cwd: &String, vars: &Vec<(String, String)>, forbidden: &Vec<char>) -> (r: KeyedList<String>)
    ensures
        r.as_map() == subst_context(*cwd, vars@, forbidden@),
{
    let mut ctx: KeyedList<String> = KeyedList::new();
    ctx.insert("CWD".to_owned(), cwd.clone());
    assert(ctx.as_map() =~= map!["CWD"@ => *cwd]);
    let mut i: usize = 0;
    while i < vars.len()
        invariant
            i <= vars.len(),
            ctx.as_map() == subst_context(*cwd, vars@.take(i as int), forbidden@),
        decreases vars.len() - i,
    {
        assert(vars@.take(i + 1).drop_last() =~= vars@.take(i as int));
        assert(vars@.take(i + 1).last() == vars@[i as int]);
        if !holds_any_exec(&vars[i].1, forbidden) {
            ctx.insert(vars[i].0.clone(), vars[i].1.clone());
        }
        i = i + 1;
    }
    assert(vars@.take(vars.len() as int) =~= vars@);
    ctx
}

/// `string` with its variables expanded from the current directory `cwd`
/// and the environment `vars`; variables whose values hold `{`, `}` or `$`
/// are left out.
pub fn subst(string: &str, cwd: &String, vars: &Vec<(String, String)>) -> (r: Result<String, MedicError>)
    ensures
        vars_valid(text_map(subst_context(*cwd, vars@, seq!['{', '}', '$']))) ==> (r matches Ok(s)
            && expansion_of(string@, text_map(subst_context(*cwd, vars@, seq!['{', '}', '$'])), s@)),
        !vars_valid(text_map(subst_context(*cwd, vars@, seq!['{', '}', '$']))) ==> (r matches Err(
            MedicError::Envsubst(_),
        )),
{
    let forbidden = vec!['{', '}', '$'];
    assert(forbidden@ =~= seq!['{', '}', '$']);
    let ctx = build_context(cwd, vars, &forbidden);
    substitute(string, &ctx)
}

/// The variables a template is expanded with always name `CWD`: the
/// current directory, unless the environment gives `CWD` a usable value,
/// which then wins.
pub proof fn lemma_context_has_cwd(cwd: String, vars: Seq<(String, String)>, forbidden: Seq<char>)
    ensures
        subst_context(cwd, vars, forbidden).contains_key("CWD"@),
        (forall|i: int| 0 <= i < vars.len() ==> #[trigger] vars[i].0@ != "CWD"@) ==> subst_context(
            cwd,
            vars,
            forbidden,
        )["CWD"@] == cwd,
    decreases vars.len(),
{
    if vars.len() > 0 {
        lemma_context_has_cwd(cwd, vars.drop_last(), forbidden);
        if forall|i: int| 0 <= i < vars.len() ==> #[trigger] vars[i].0@ != "CWD"@ {
            assert(vars.last().0@ != "CWD"@) by {
                assert(vars[vars.len() - 1].0@ != "CWD"@);
            }
            assert forall|i: int| 0 <= i < vars.drop_last().len() implies #[trigger] vars.drop_last()[i].0@
                != "CWD"@ by {
                assert(vars.drop_last()[i] == vars[i]);
            }
        }
    }
}

} // verus!
