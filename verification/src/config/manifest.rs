//! The manifest of a project's workflows, and where it is read from.
use crate::audit::AuditStep;
use crate::doctor::DoctorStep;
use crate::error::MedicError;
use crate::extra::env::{
    build_context, expansion_of, subst_context, substitute, text_map, vars_valid,
};
use crate::outdated::check::OutdatedCheck;
use crate::shipit::ShipitStep;
use crate::step::Step;
use crate::text::{chars_of, debug_quoted, debug_string, string_from_chars};
use vstd::prelude::*;

verus! {

/// The workflows of a project.
pub struct Manifest {
    pub audit: Option<AuditConfig>,
    pub doctor: Option<DoctorConfig>,
    pub outdated: Option<OutdatedConfig>,
    pub shipit: Option<ShipitConfig>,
    pub test: Option<TestConfig>,
    pub update: Option<UpdateConfig>,
}

/// The checks of `medic audit`.
pub struct AuditConfig {
    pub checks: Vec<AuditStep>,
}

/// The checks of `medic doctor`.
pub struct DoctorConfig {
    pub checks: Vec<DoctorStep>,
}

/// The checks of `medic outdated`.
pub struct OutdatedConfig {
    pub checks: Vec<OutdatedCheck>,
}

/// The steps of `medic shipit`.
pub struct ShipitConfig {
    pub steps: Vec<ShipitStep>,
}

/// The checks of `medic test`.
pub struct TestConfig {
    pub checks: Vec<Step>,
}

/// The steps of `medic update`.
pub struct UpdateConfig {
    pub steps: Vec<Step>,
}

/// The variables a manifest path is expanded with: `CWD`, then the
/// environment variables whose values hold neither `{` nor `}`.
pub open spec fn manifest_context(cwd: String, vars: Seq<(String, String)>) -> Map<Seq<char>, Seq<char>> {
    text_map(subst_context(cwd, vars, seq!['{', '}']))
}

/// `s` without its `"` characters.
pub open spec fn without_quotes(s: Seq<char>) -> Seq<char> {
    s.filter(|c: char| c != '"')
}

impl Manifest {
    /// The manifest path `path` with its variables expanded from the
    /// current directory `cwd` and the environment `vars` (see
    /// `manifest_context`).
    pub fn expand_path(path: &str, cwd: &String, vars: &Vec<(String, String)>) -> (r: Result<String, MedicError>)
        ensures
            vars_valid(manifest_context(*cwd, vars@)) ==> (r matches Ok(s) && expansion_of(
                path@,
                manifest_context(*cwd, vars@),
                s@,
            )),
            !vars_valid(manifest_context(*cwd, vars@)) ==> (r matches Err(MedicError::Envsubst(_))),
    {
        let forbidden = vec!['{', '}'];
        assert(forbidden@ =~= seq!['{', '}']);
        let ctx = build_context(cwd, vars, &forbidden);
        substitute(path, &ctx)
    }

    /// The error for a manifest `path` that does not exist.
    pub fn missing(path: &str) -> (r: MedicError)
        ensures
            r matches MedicError::Message(m) && m@ == "Medic config file `"@ + path@
                + "` does not exist."@,
    {
        let mut m = "Medic config file `".to_owned();
        m.append(path);
        m.append("` does not exist.");
        MedicError::Message(m)
    }

    /// The error for a manifest at `path` that cannot be read as a
    /// manifest, `reason` saying why: the quoted path and the reason, with
    /// every `"` taken out.
    pub fn unreadable(path: &String, reason: &str) -> (r: MedicError)
        ensures
            r matches MedicError::Message(m) && m@ == without_quotes(
                "Unable to parse manifest "@ + debug_quoted(path@) + "\r\n"@ + reason@,
            ),
    {
        let mut full = "Unable to parse manifest ".to_owned();
        full.append(debug_string(path).as_str());
        full.append("\r\n");
        full.append(reason);
        let cs = chars_of(full.as_str());
        let mut kept: Vec<char> = Vec::new();
        let mut i: usize = 0;
        while i < cs.len()
            invariant
                i <= cs.len(),
                kept@ == without_quotes(cs@.take(i as int)),
            decreases cs.len() - i,
        {
            assert(cs@.take(i + 1).drop_last() =~= cs@.take(i as int));
            proof {
                cs@.take(i as int).lemma_filter_push(cs@[i as int], |c: char| c != '"');
            }
            assert(cs@.take(i as int).push(cs@[i as int]) =~= cs@.take(i + 1));
            if cs[i] != '"' {
                kept.push(cs[i]);
            }
            i = i + 1;
        }
        assert(cs@.take(cs.len() as int) =~= cs@);
        MedicError::Message(string_from_chars(&kept))
    }
}

} // verus!
