//! The summary an outdated check prints, read strictly: every dependency
//! must be well formed.
use crate::outdated::summary::{
    deps_view, opt_view, parse_dep_text, parse_outdated_lines, dep_parse, summary_panics,
    summary_parse, DepView, OutdatedDep as Dep,
};
use crate::text::{chars_of, lines_seq};
use vstd::prelude::*;

verus! {

/// Outdated dependencies and the remedy that updates them.
pub struct Outdated {
    pub deps: Vec<OutdatedDep>,
    pub remedy: Option<String>,
}

/// A dependency that has a newer version.
pub struct OutdatedDep {
    pub latest: String,
    pub name: String,
    pub parent: Option<String>,
    pub version: String,
}

/// Text that does not describe a dependency.
pub struct ParseError;

impl View for OutdatedDep {
    type V = DepView;

    open spec fn view(&self) -> DepView {
        DepView {
            latest: self.latest@,
            name: self.name@,
            parent: opt_view(self.parent),
            version: self.version@,
        }
    }
}

pub open spec fn strict_deps_view(deps: Seq<OutdatedDep>) -> Seq<DepView> {
    deps.map_values(|d: OutdatedDep| d@)
}

fn from_dep(d: Dep) -> (r: OutdatedDep)
    ensures
        r@ == d@,
{
    OutdatedDep { latest: d.latest, name: d.name, parent: d.parent, version: d.version }
}

/// Without stopping, strict reading never fails: a dependency that cannot
/// be read stops it.
pub proof fn lemma_strict_summary_reads(ls: Seq<Seq<char>>)
    requires
        !summary_panics(ls, false),
    ensures
        summary_parse(ls, false) is Ok,
    decreases ls.len(),
{
    if ls.len() > 0 {
        lemma_strict_summary_reads(ls.drop_last());
    }
}

impl Outdated {
    /// Reads the summary `s`. Lines tagged `outdated` name dependencies,
    /// which must be well formed, a line tagged `remedy` the command that
    /// updates them; other lines are ignored.
    pub fn from_str(s: &str) -> (r: Result<Self, ParseError>)
        requires
            !summary_panics(lines_seq(s@), false),
        ensures
            summary_parse(lines_seq(s@), false) matches Ok((deps, remedy)) && r matches Ok(o)
                && strict_deps_view(o.deps@) == deps && opt_view(o.remedy) == remedy,
    {
        proof {
            lemma_strict_summary_reads(lines_seq(s@));
        }
        match parse_outdated_lines(s, false) {
            Ok((ds, remedy)) => {
                let mut deps: Vec<OutdatedDep> = Vec::new();
                let ghost dv = deps_view(ds@);
                let mut rest = ds;
                let n = rest.len();
                let mut i: usize = 0;
                while rest.len() > 0
                    invariant
                        i + rest@.len() == n,
                        dv.len() == n,
                        deps_view(rest@) == dv.skip(i as int),
                        strict_deps_view(deps@) == dv.take(i as int),
                    decreases rest@.len(),
                {
                    let ghost before = rest@;
                    let d = rest.remove(0);
                    assert(deps_view(rest@) =~= deps_view(before).skip(1));
                    assert(d@ == deps_view(before)[0]);
                    let ghost sb = strict_deps_view(deps@);
                    deps.push(from_dep(d));
                    assert(strict_deps_view(deps@) =~= sb.push(d@));
                    assert(dv.take(i + 1) =~= dv.take(i as int).push(dv[i as int]));
                    assert(dv.skip(i + 1) =~= dv.skip(i as int).skip(1));
                    i = i + 1;
                }
                assert(dv.take(n as int) =~= dv);
                Ok(Outdated { deps, remedy })
            },
            Err(_) => Err(ParseError),
        }
    }
}

impl OutdatedDep {
    /// Reads a dependency from `name=..::version=..::latest=..` text, with
    /// an optional `::parent=..`; every piece must be a `key=value` pair.
    pub fn from_str(s: &str) -> (r: Result<Self, ParseError>)
        ensures
            match dep_parse(s@, false) {
                Ok(d) => r matches Ok(x) && x@ == d,
                Err(_) => r is Err,
            },
    {
        let text = chars_of(s);
        match parse_dep_text(&text, false) {
            Ok(d) => Ok(from_dep(d)),
            Err(_) => Err(ParseError),
        }
    }
}

} // verus!
