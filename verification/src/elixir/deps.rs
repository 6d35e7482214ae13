//! The dependencies that `mix deps` lists, and which of them are not
//! compiled.
use crate::error::MedicError;
use crate::text::{chars_of, lines_chars, lines_seq, split_chars, split_seq, string_from_chars, trim, trim_chars};
use vstd::prelude::*;

verus! {

/// Whether a dependency is compiled and up to date.
#[derive(Clone, Copy, PartialEq, Eq, Structural)]
pub enum DepStatus {
    DepOk,
    Outdated,
}

/// A dependency and its status.
pub struct Dep {
    pub name: String,
    pub status: DepStatus,
}

/// Whether `mix deps` output with lines `ls` can be read: it comes in
/// groups of three lines, and the first line of each group holds a space.
pub open spec fn deps_readable(ls: Seq<Seq<char>>) -> bool {
    &&& ls.len() % 3 == 0
    &&& forall|i: int| 0 <= i < ls.len() / 3 ==> #[trigger] split_seq(ls[3 * i], seq![' ']).len() >= 2
}

/// The dependency that group `i` describes: its name is the second word of
/// the first line; it is compiled when the third line, trimmed, is `ok`.
pub open spec fn dep_at(ls: Seq<Seq<char>>, i: int) -> (Seq<char>, DepStatus) {
    (
        split_seq(ls[3 * i], seq![' '])[1],
        if trim(ls[3 * i + 2]) == seq!['o', 'k'] {
            DepStatus::DepOk
        } else {
            DepStatus::Outdated
        },
    )
}

/// The dependency that a group of lines describes (see `dep_at`).
pub open spec fn group_dep(group: Seq<Seq<char>>) -> (Seq<char>, DepStatus) {
    dep_at(group, 0)
}

/// The dependencies that the lines describe, one per group of three.
pub open spec fn deps_of(ls: Seq<Seq<char>>) -> Seq<(Seq<char>, DepStatus)> {
    Seq::new((ls.len() / 3) as nat, |i: int| dep_at(ls, i))
}

pub open spec fn dep_views(ds: Seq<Dep>) -> Seq<(Seq<char>, DepStatus)> {
    ds.map_values(|d: Dep| (d.name@, d.status))
}

impl Dep {
    /// The dependency that a group of lines from `mix deps` describes: the
    /// second word of its first line names it; its third line, trimmed, is
    /// `ok` when it is compiled.
    pub fn parse_dep(group: &Vec<Vec<char>>) -> (r: Dep)
        requires
            group.len() >= 3,
            split_seq(group@[0]@, seq![' ']).len() >= 2,
        ensures
            (r.name@, r.status) == group_dep(group.deep_view()),
    {
        let space: Vec<char> = vec![' '];
        let ok: Vec<char> = vec!['o', 'k'];
        assert(space@ =~= seq![' ']);
        assert(ok@ =~= seq!['o', 'k']);
        assert(group.deep_view()[0] == group@[0]@) by {
            assert(group@[0].deep_view() =~= group@[0]@);
        }
        assert(group.deep_view()[2] == group@[2]@) by {
            assert(group@[2].deep_view() =~= group@[2]@);
        }
        let words = split_chars(&group[0], &space);
        assert(words[1int]@ == words.deep_view()[1int]) by {
            assert(words[1int].deep_view() =~= words[1int]@);
        }
        let name = string_from_chars(&words[1]);
        let status = if crate::text::chars_eq(&trim_chars(&group[2]), &ok) {
            DepStatus::DepOk
        } else {
            DepStatus::Outdated
        };
        Dep { name, status }
    }

    /// Whether `output` can be read as `mix deps` output (see
    /// `deps_readable`).
    pub fn readable(output: &str) -> (r: bool)
        ensures
            r == deps_readable(lines_seq(output@)),
    {
        let text = chars_of(output);
        let ls = lines_chars(&text);
        let ghost lsv = ls.deep_view();
        let space: Vec<char> = vec![' '];
        assert(space@ =~= seq![' ']);
        let n = ls.len();
        if n % 3 != 0 {
            return false;
        }
        let mut k: usize = 0;
        while k < n / 3
            invariant
                n == ls.len(),
                lsv == ls.deep_view(),
                lsv == lines_seq(output@),
                space@ == seq![' '],
                k <= n / 3,
                forall|i: int| 0 <= i < k ==> #[trigger] split_seq(lsv[3 * i], seq![' ']).len() >= 2,
            decreases n / 3 - k,
        {
            assert(3 * k < n) by (nonlinear_arith)
                requires
                    k < n / 3,
            ;
            assert(ls[(3 * k) as int]@ == lsv[3 * k as int]) by {
                assert(ls[(3 * k) as int].deep_view() =~= ls[(3 * k) as int]@);
            }
            let words = split_chars(&ls[3 * k], &space);
            if words.len() < 2 {
                assert(!(split_seq(lsv[3 * k as int], seq![' ']).len() >= 2));
                return false;
            }
            k = k + 1;
        }
        true
    }

    /// The dependencies that `mix deps` printed in `output`.
    pub fn from_deps_output(output: String) -> (r: Result<Vec<Dep>, MedicError>)
        requires
            deps_readable(lines_seq(output@)),
        ensures
            r matches Ok(ds) && dep_views(ds@) == deps_of(lines_seq(output@)),
    {
        let text = chars_of(output.as_str());
        let ls = lines_chars(&text);
        let ghost lsv = ls.deep_view();
        let mut deps: Vec<Dep> = Vec::new();
        let n = ls.len();
        let mut k: usize = 0;
        while k < n / 3
            invariant
                n == ls.len(),
                lsv == ls.deep_view(),
                lsv == lines_seq(output@),
                deps_readable(lsv),
                k <= n / 3,
                dep_views(deps@) == deps_of(lsv).take(k as int),
            decreases n / 3 - k,
        {
            assert(3 * k + 2 < n) by (nonlinear_arith)
                requires
                    k < n / 3,
            ;
            let first = 3 * k;
            let mut group: Vec<Vec<char>> = Vec::new();
            group.push(crate::text::slice_chars(&ls[first], 0, ls[first].len()));
            group.push(crate::text::slice_chars(&ls[first + 1], 0, ls[first + 1].len()));
            group.push(crate::text::slice_chars(&ls[first + 2], 0, ls[first + 2].len()));
            assert(group@[0]@ =~= lsv[3 * k as int]) by {
                assert(ls[first as int].deep_view() =~= ls[first as int]@);
            }
            assert(group@[2]@ =~= lsv[3 * k + 2]) by {
                assert(ls[first + 2].deep_view() =~= ls[first + 2]@);
            }
            assert(split_seq(lsv[3 * k as int], seq![' ']).len() >= 2);
            let d = Dep::parse_dep(&group);
            assert(group.deep_view()[0] == group@[0]@) by {
                assert(group@[0].deep_view() =~= group@[0]@);
            }
            assert(group.deep_view()[2] == group@[2]@) by {
                assert(group@[2].deep_view() =~= group@[2]@);
            }
            assert((d.name@, d.status) == dep_at(lsv, k as int));
            let ghost before = dep_views(deps@);
            let ghost dv = (d.name@, d.status);
            deps.push(d);
            assert(dep_views(deps@) =~= before.push(dv));
            assert(deps_of(lsv).take(k + 1) =~= deps_of(lsv).take(k as int).push(dep_at(lsv, k as int)));
            k = k + 1;
        }
        assert(deps_of(lsv).take((n / 3) as int) =~= deps_of(lsv));
        Ok(deps)
    }
}

/// The names of the dependencies that are not compiled, in order.
pub open spec fn outdated_names(ds: Seq<(Seq<char>, DepStatus)>) -> Seq<Seq<char>>
    decreases ds.len(),
{
    if ds.len() == 0 {
        Seq::empty()
    } else {
        outdated_names(ds.drop_last()) + if ds.last().1 == DepStatus::Outdated {
            seq![ds.last().0]
        } else {
            Seq::empty()
        }
    }
}

/// The names of the dependencies that are not compiled, in order.
pub fn outdated_dep_names(deps: &Vec<Dep>) -> (r: Vec<String>)
    ensures
        crate::extra::command::strings_view(r@) == outdated_names(dep_views(deps@)),
{
    let mut r: Vec<String> = Vec::new();
    let mut i: usize = 0;
    while i < deps.len()
        invariant
            i <= deps.len(),
            crate::extra::command::strings_view(r@) == outdated_names(dep_views(deps@.take(i as int))),
        decreases deps.len() - i,
    {
        assert(dep_views(deps@.take(i + 1)).drop_last() =~= dep_views(deps@.take(i as int)));
        let ghost before = crate::extra::command::strings_view(r@);
        if deps[i].status == DepStatus::Outdated {
            r.push(deps[i].name.clone());
            assert(crate::extra::command::strings_view(r@) =~= before.push(deps@[i as int].name@));
        }
        i = i + 1;
    }
    assert(deps@.take(deps.len() as int) =~= deps@);
    r
}

} // verus!
