//! The `key=value::key=value` field list of an outdated dependency: pairing
//! keys with values, the map they form, and the order in which keys are
//! listed in an error message.
use crate::text::{
    chars_eq, slice_chars, split_once_chars, split_once_seq, trim, trim_chars,
};
use vstd::prelude::*;

verus! {

/// A key/value pair of the field list.
pub type PairView = (Seq<char>, Seq<char>);

/// The pairs read from the `::`-separated pieces, in order, or the first
/// piece that holds no `=`. With `lenient`, each piece is trimmed and empty
/// pieces are skipped.
pub open spec fn collect_pairs(ps: Seq<Seq<char>>, lenient: bool) -> Result<
    Seq<PairView>,
    Seq<char>,
>
    decreases ps.len(),
{
    if ps.len() == 0 {
        Ok(Seq::empty())
    } else {
        match collect_pairs(ps.drop_last(), lenient) {
            Err(e) => Err(e),
            Ok(prev) => {
                let p = if lenient {
                    trim(ps.last())
                } else {
                    ps.last()
                };
                if lenient && p.len() == 0 {
                    Ok(prev)
                } else {
                    match split_once_seq(p, '=') {
                        Some(kv) => Ok(prev.push(kv)),
                        None => Err(p),
                    }
                }
            },
        }
    }
}

/// The map the pairs build when inserted in order (a later value for a key
/// replaces an earlier one).
pub open spec fn pairs_map(pairs: Seq<PairView>) -> Map<Seq<char>, Seq<char>>
    decreases pairs.len(),
{
    if pairs.len() == 0 {
        Map::empty()
    } else {
        pairs_map(pairs.drop_last()).insert(pairs.last().0, pairs.last().1)
    }
}

pub open spec fn key_latest() -> Seq<char> {
    seq!['l', 'a', 't', 'e', 's', 't']
}

pub open spec fn key_name() -> Seq<char> {
    seq!['n', 'a', 'm', 'e']
}

pub open spec fn key_parent() -> Seq<char> {
    seq!['p', 'a', 'r', 'e', 'n', 't']
}

pub open spec fn key_version() -> Seq<char> {
    seq!['v', 'e', 'r', 's', 'i', 'o', 'n']
}

/// Strict lexicographic order of character sequences by code point (the
/// order of `str` comparison).
pub open spec fn lex_lt(a: Seq<char>, b: Seq<char>) -> bool
    decreases a.len(),
{
    if a.len() == 0 {
        b.len() > 0
    } else if b.len() == 0 {
        false
    } else if a[0] != b[0] {
        (a[0] as int) < (b[0] as int)
    } else {
        lex_lt(a.drop_first(), b.drop_first())
    }
}

pub open spec fn strictly_sorted(ks: Seq<Seq<char>>) -> bool {
    forall|i: int, j: int| 0 <= i < j < ks.len() ==> lex_lt(ks[i], ks[j])
}

pub proof fn lemma_lex_irreflexive(a: Seq<char>)
    ensures
        !lex_lt(a, a),
    decreases a.len(),
{
    if a.len() > 0 {
        lemma_lex_irreflexive(a.drop_first());
    }
}

pub proof fn lemma_lex_total(a: Seq<char>, b: Seq<char>)
    requires
        a != b,
    ensures
        lex_lt(a, b) || lex_lt(b, a),
    decreases a.len(),
{
    if a.len() > 0 && b.len() > 0 && a[0] == b[0] {
        if a.drop_first() == b.drop_first() {
            assert(a =~= seq![a[0]] + a.drop_first());
            assert(b =~= seq![b[0]] + b.drop_first());
        }
        lemma_lex_total(a.drop_first(), b.drop_first());
    } else if a.len() > 0 && b.len() > 0 {
        assert((a[0] as int) != (b[0] as int));
    } else if a.len() == 0 && b.len() == 0 {
        assert(a =~= b);
    }
}

pub proof fn lemma_lex_transitive(a: Seq<char>, b: Seq<char>, c: Seq<char>)
    requires
        lex_lt(a, b),
        lex_lt(b, c),
    ensures
        lex_lt(a, c),
    decreases a.len(),
{
    if a.len() > 0 && b.len() > 0 && c.len() > 0 && a[0] == b[0] && b[0] == c[0] {
        lemma_lex_transitive(a.drop_first(), b.drop_first(), c.drop_first());
    }
}

/// Whether `a` comes strictly before `b` in `lex_lt` order.
pub fn lex_less(a: &Vec<char>, b: &Vec<char>) -> (r: bool)
    ensures
        r == lex_lt(a@, b@),
{
    let n = a.len();
    let m = b.len();
    let mut i: usize = 0;
    assert(a@.skip(0) =~= a@ && b@.skip(0) =~= b@);
    while i < n && i < m && a[i] == b[i]
        invariant
            n == a.len(),
            m == b.len(),
            i <= n,
            i <= m,
            lex_lt(a@, b@) == lex_lt(a@.skip(i as int), b@.skip(i as int)),
        decreases n - i,
    {
        proof {
            let x = a@.skip(i as int);
            let y = b@.skip(i as int);
            assert(x.drop_first() =~= a@.skip(i + 1));
            assert(y.drop_first() =~= b@.skip(i + 1));
        }
        i = i + 1;
    }
    if i == n {
        i < m
    } else if i == m {
        false
    } else {
        assert(a@.skip(i as int)[0] == a@[i as int]);
        assert(b@.skip(i as int)[0] == b@[i as int]);
        a[i] < b[i]
    }
}

/// The pairs are in `entries` with one entry per key, holding the key's
/// value in `m`.
pub open spec fn entries_agree(entries: Seq<PairView>, m: Map<Seq<char>, Seq<char>>) -> bool {
    &&& forall|i: int, j: int|
        0 <= i < j < entries.len() ==> #[trigger] entries[i].0 != #[trigger] entries[j].0
    &&& forall|i: int|
        0 <= i < entries.len() ==> m.contains_key(#[trigger] entries[i].0) && m[entries[i].0]
            == entries[i].1
    &&& forall|k: Seq<char>|
        m.contains_key(k) ==> exists|i: int| 0 <= i < entries.len() && #[trigger] entries[i].0 == k
}

/// The spec view of a list of exec key/value pairs.
pub open spec fn pairs_view(v: Seq<(Vec<char>, Vec<char>)>) -> Seq<PairView> {
    v.map_values(|p: (Vec<char>, Vec<char>)| (p.0@, p.1@))
}

/// The fields read from the pieces: `Ok` holds one entry per key with the
/// last value given for it, `Err` the first piece without `=`.
pub fn collect_fields(pieces: &Vec<Vec<char>>, lenient: bool) -> (r: Result<
    Vec<(Vec<char>, Vec<char>)>,
    Vec<char>,
>)
    ensures
        match collect_pairs(pieces.deep_view(), lenient) {
            Ok(pairs) => r matches Ok(entries) && entries_agree(
                pairs_view(entries@),
                pairs_map(pairs),
            ),
            Err(p) => r matches Err(e) && e@ == p,
        },
{
    let ghost psv = pieces.deep_view();
    let n = pieces.len();
    let mut entries: Vec<(Vec<char>, Vec<char>)> = Vec::new();
    let mut i: usize = 0;
    while i < n
        invariant
            n == pieces.len(),
            psv == pieces.deep_view(),
            i <= n,
            collect_pairs(psv.take(i as int), lenient) is Ok,
            entries_agree(
                pairs_view(entries@),
                pairs_map(collect_pairs(psv.take(i as int), lenient)->Ok_0),
            ),
        decreases n - i,
    {
        let ghost prev = collect_pairs(psv.take(i as int), lenient)->Ok_0;
        assert(psv.take(i + 1).drop_last() =~= psv.take(i as int));
        assert(psv.take(i + 1).last() == pieces[i as int]@) by {
            assert(pieces[i as int].deep_view() =~= pieces[i as int]@);
        }
        let p = if lenient {
            trim_chars(&pieces[i])
        } else {
            slice_chars(&pieces[i], 0, pieces[i].len())
        };
        assert(p@ == if lenient {
            trim(psv.take(i + 1).last())
        } else {
            psv.take(i + 1).last()
        }) by {
            assert(pieces[i as int]@.subrange(0, pieces[i as int]@.len() as int)
                =~= pieces[i as int]@);
        }
        if lenient && p.len() == 0 {
            assert(collect_pairs(psv.take(i + 1), lenient) == Ok::<Seq<PairView>, Seq<char>>(
                prev,
            ));
        } else {
            match split_once_chars(&p, '=') {
                None => {
                    assert(collect_pairs(psv.take(i + 1), lenient) == Err::<
                        Seq<PairView>,
                        Seq<char>,
                    >(p@));
                    assert(psv.take(n as int) =~= psv);
                    proof {
                        lemma_collect_prefix_err(psv, lenient, i + 1, n as int);
                    }
                    return Err(p);
                },
                Some((k, v)) => {
                    assert(collect_pairs(psv.take(i + 1), lenient) == Ok::<
                        Seq<PairView>,
                        Seq<char>,
                    >(prev.push((k@, v@))));
                    insert_entry(&mut entries, k, v, Ghost(pairs_map(prev)));
                    assert(pairs_map(prev.push((k@, v@))) == pairs_map(prev).insert(k@, v@)) by {
                        assert(prev.push((k@, v@)).drop_last() =~= prev);
                    }
                },
            }
        }
        i = i + 1;
    }
    assert(psv.take(n as int) =~= psv);
    Ok(entries)
}

/// An error in a prefix of the pieces stays the result for the whole.
pub proof fn lemma_collect_prefix_err(ps: Seq<Seq<char>>, lenient: bool, i: int, n: int)
    requires
        0 <= i <= n <= ps.len(),
        collect_pairs(ps.take(i), lenient) is Err,
    ensures
        collect_pairs(ps.take(n), lenient) == collect_pairs(ps.take(i), lenient),
    decreases n - i,
{
    if i < n {
        lemma_collect_prefix_err(ps, lenient, i, n - 1);
        assert(ps.take(n).drop_last() =~= ps.take(n - 1));
    }
}

/// Inserts `k` with value `v`, replacing the value of an existing entry
/// for `k`.
fn insert_entry(
    entries: &mut Vec<(Vec<char>, Vec<char>)>,
    k: Vec<char>,
    v: Vec<char>,
    Ghost(m): Ghost<Map<Seq<char>, Seq<char>>>,
)
    requires
        entries_agree(pairs_view(old(entries)@), m),
    ensures
        entries_agree(pairs_view(final(entries)@), m.insert(k@, v@)),
{
    let n = entries.len();
    let mut i: usize = 0;
    while i < n
        invariant
            n == entries.len(),
            i <= n,
            entries_agree(pairs_view(entries@), m),
            forall|j: int| 0 <= j < i ==> entries@[j].0@ != k@,
        decreases n - i,
    {
        if chars_eq(&entries[i].0, &k) {
            let ghost before = pairs_view(entries@);
            let key = slice_chars(&entries[i].0, 0, entries[i].0.len());
            entries.set(i, (key, v));
            proof {
                let after = pairs_view(entries@);
                assert(before[i as int].0 =~= k@);
                assert forall|a: int| 0 <= a < after.len() && a != i implies after[a] == before[a] by {}
                assert(after[i as int] == (k@, v@)) by {
                    assert(entries@[i as int].0@ =~= k@);
                }
                let m2 = m.insert(k@, v@);
                assert forall|kk: Seq<char>| m2.contains_key(kk) implies exists|a: int|
                    0 <= a < after.len() && #[trigger] after[a].0 == kk by {
                    if kk == k@ {
                        assert(after[i as int].0 == kk);
                    } else {
                        let a = choose|a: int| 0 <= a < before.len() && #[trigger] before[a].0 == kk;
                        assert(after[a].0 == kk);
                    }
                }
                assert forall|a: int, b: int|
                    0 <= a < b < after.len() implies #[trigger] after[a].0
                    != #[trigger] after[b].0 by {
                    assert(before[a].0 != before[b].0);
                }
            }
            return;
        }
        i = i + 1;
    }
    let ghost before = pairs_view(entries@);
    entries.push((k, v));
    proof {
        let after = pairs_view(entries@);
        let m2 = m.insert(k@, v@);
        assert forall|a: int| 0 <= a < before.len() implies after[a] == before[a] by {}
        assert(after.last() == (k@, v@));
        assert forall|kk: Seq<char>| m2.contains_key(kk) implies exists|a: int|
            0 <= a < after.len() && #[trigger] after[a].0 == kk by {
            if kk == k@ {
                assert(after[after.len() - 1].0 == kk);
            } else {
                let a = choose|a: int| 0 <= a < before.len() && #[trigger] before[a].0 == kk;
                assert(after[a].0 == kk);
            }
        }
        assert forall|a: int, b: int|
            0 <= a < b < after.len() implies #[trigger] after[a].0 != #[trigger] after[b].0 by {
            if b == after.len() - 1 {
                assert(entries@[a].0@ != k@);
            } else {
                assert(before[a].0 != before[b].0);
            }
        }
        assert forall|a: int|
            0 <= a < after.len() implies m2.contains_key(#[trigger] after[a].0) && m2[after[a].0]
            == after[a].1 by {
            if a < before.len() {
                assert(entries@[a].0@ != k@);
            }
        }
    }
}

/// The value recorded for `key`, if any.
pub fn lookup_entry(entries: &Vec<(Vec<char>, Vec<char>)>, key: &Vec<char>) -> (r: Option<
    Vec<char>,
>)
    ensures
        forall|m: Map<Seq<char>, Seq<char>>|
            #![trigger entries_agree(pairs_view(entries@), m)]
            entries_agree(pairs_view(entries@), m) ==> match r {
                Some(v) => m.contains_key(key@) && m[key@] == v@,
                None => !m.contains_key(key@),
            },
{
    let n = entries.len();
    let mut i: usize = 0;
    while i < n
        invariant
            n == entries.len(),
            i <= n,
            forall|j: int| 0 <= j < i ==> entries@[j].0@ != key@,
        decreases n - i,
    {
        if chars_eq(&entries[i].0, key) {
            let v = slice_chars(&entries[i].1, 0, entries[i].1.len());
            proof {
                assert(v@ =~= entries@[i as int].1@);
                assert(pairs_view(entries@)[i as int].0 == key@);
            }
            return Some(v);
        }
        i = i + 1;
    }
    proof {
        assert forall|m: Map<Seq<char>, Seq<char>>|
            entries_agree(pairs_view(entries@), m) implies !m.contains_key(key@) by {
            if m.contains_key(key@) {
                let a = choose|a: int|
                    0 <= a < pairs_view(entries@).len() && #[trigger] pairs_view(entries@)[a].0
                        == key@;
                assert(entries@[a].0@ == key@);
            }
        }
    }
    None
}

/// The keys of the entries in strictly increasing `lex_lt` order.
pub fn sorted_keys(entries: &Vec<(Vec<char>, Vec<char>)>) -> (r: Vec<Vec<char>>)
    ensures
        strictly_sorted(r.deep_view()),
        forall|k: Seq<char>|
            r.deep_view().contains(k) <==> exists|i: int|
                0 <= i < entries.len() && #[trigger] entries@[i].0@ == k,
{
    let n = entries.len();
    let mut r: Vec<Vec<char>> = Vec::new();
    let mut i: usize = 0;
    while i < n
        invariant
            n == entries.len(),
            i <= n,
            strictly_sorted(r.deep_view()),
            forall|k: Seq<char>|
                r.deep_view().contains(k) <==> exists|a: int|
                    0 <= a < i && #[trigger] entries@[a].0@ == k,
        decreases n - i,
    {
        let key = slice_chars(&entries[i].0, 0, entries[i].0.len());
        assert(key@ =~= entries@[i as int].0@);
        insert_sorted(&mut r, key);
        proof {
            assert forall|k: Seq<char>|
                r.deep_view().contains(k) <==> exists|a: int|
                    0 <= a < i + 1 && #[trigger] entries@[a].0@ == k by {
                if exists|a: int| 0 <= a < i + 1 && #[trigger] entries@[a].0@ == k {
                    let a = choose|a: int| 0 <= a < i + 1 && #[trigger] entries@[a].0@ == k;
                    if a < i {
                        assert(exists|b: int| 0 <= b < i && #[trigger] entries@[b].0@ == k);
                    }
                }
            }
        }
        i = i + 1;
    }
    r
}

/// Inserts `key` at its place in the sorted `r`, unless it is there.
fn insert_sorted(r: &mut Vec<Vec<char>>, key: Vec<char>)
    requires
        strictly_sorted(old(r).deep_view()),
    ensures
        strictly_sorted(final(r).deep_view()),
        forall|k: Seq<char>|
            final(r).deep_view().contains(k) <==> (old(r).deep_view().contains(k) || k == key@),
{
    let ghost before = r.deep_view();
    let n = r.len();
    let mut p: usize = 0;
    while p < n && lex_less(&r[p], &key)
        invariant
            n == r.len(),
            before == r.deep_view(),
            p <= n,
            forall|j: int| 0 <= j < p ==> lex_lt(before[j], key@),
        decreases n - p,
    {
        assert(r[p as int].deep_view() =~= r[p as int]@);
        p = p + 1;
    }
    if p < n {
        assert(r[p as int].deep_view() =~= r[p as int]@);
        if chars_eq(&r[p], &key) {
            assert forall|k: Seq<char>|
                r.deep_view().contains(k) <==> (before.contains(k) || k == key@) by {
                if k == key@ {
                    assert(before[p as int] == k);
                }
            }
            return;
        }
        proof {
            lemma_lex_total(before[p as int], key@);
        }
    }
    assert(key.deep_view() =~= key@);
    r.insert(p, key);
    proof {
        let after = r.deep_view();
        assert(after =~= before.insert(p as int, key@));
        assert forall|a: int, b: int| 0 <= a < b < after.len() implies lex_lt(after[a], after[b]) by {
            if b < p {
            } else if b == p {
            } else if a == p {
                // key < before[p] <= before[b - 1]
                if b - 1 > p {
                    lemma_lex_transitive(key@, before[p as int], before[b - 1]);
                }
            } else if a < p {
                // before[a] < key < before[p] <= before[b - 1]
                if b - 1 > p {
                    lemma_lex_transitive(key@, before[p as int], before[b - 1]);
                }
                lemma_lex_transitive(before[a], key@, before[b - 1]);
            }
        }
        assert forall|k: Seq<char>| after.contains(k) <==> (before.contains(k) || k == key@) by {
            if before.contains(k) {
                let a = choose|a: int| 0 <= a < before.len() && before[a] == k;
                if a < p {
                    assert(after[a] == k);
                } else {
                    assert(after[a + 1] == k);
                }
            }
            if k == key@ {
                assert(after[p as int] == k);
            }
            if after.contains(k) {
                let a = choose|a: int| 0 <= a < after.len() && after[a] == k;
                if a < p {
                    assert(before[a] == k);
                } else if a > p {
                    assert(before[a - 1] == k);
                }
            }
        }
    }
}

/// The fields of a dependency, `(latest, name, version, parent)`, when the
/// keys are exactly `latest`, `name`, `version` and maybe `parent`.
pub open spec fn classify(m: Map<Seq<char>, Seq<char>>) -> Option<
    (Seq<char>, Seq<char>, Seq<char>, Option<Seq<char>>),
> {
    if m.dom() == set![key_latest(), key_name(), key_version()] {
        Some((m[key_latest()], m[key_name()], m[key_version()], None))
    } else if m.dom() == set![key_latest(), key_name(), key_parent(), key_version()] {
        Some((m[key_latest()], m[key_name()], m[key_version()], Some(m[key_parent()])))
    } else {
        None
    }
}

pub proof fn lemma_keys_distinct()
    ensures
        key_latest() != key_name(),
        key_latest() != key_parent(),
        key_latest() != key_version(),
        key_name() != key_parent(),
        key_name() != key_version(),
        key_parent() != key_version(),
{
    assert(key_latest()[0] != key_name()[0]);
    assert(key_latest()[0] != key_parent()[0]);
    assert(key_latest()[0] != key_version()[0]);
    assert(key_name()[0] != key_parent()[0]);
    assert(key_name()[0] != key_version()[0]);
    assert(key_parent()[0] != key_version()[0]);
}

/// The dependency fields the entries hold (see `classify`).
pub fn classify_entries(
    entries: &Vec<(Vec<char>, Vec<char>)>,
    Ghost(m): Ghost<Map<Seq<char>, Seq<char>>>,
) -> (r: Option<(Vec<char>, Vec<char>, Vec<char>, Option<Vec<char>>)>)
    requires
        entries_agree(pairs_view(entries@), m),
    ensures
        match classify(m) {
            Some((l, n, v, p)) => r matches Some((rl, rn, rv, rp)) && rl@ == l && rn@ == n && rv@
                == v && match p {
                Some(pp) => rp matches Some(x) && x@ == pp,
                None => rp is None,
            },
            None => r is None,
        },
{
    let k_latest: Vec<char> = vec!['l', 'a', 't', 'e', 's', 't'];
    let k_name: Vec<char> = vec!['n', 'a', 'm', 'e'];
    let k_parent: Vec<char> = vec!['p', 'a', 'r', 'e', 'n', 't'];
    let k_version: Vec<char> = vec!['v', 'e', 'r', 's', 'i', 'o', 'n'];
    assert(k_latest@ =~= key_latest());
    assert(k_name@ =~= key_name());
    assert(k_parent@ =~= key_parent());
    assert(k_version@ =~= key_version());
    proof {
        lemma_keys_distinct();
    }
    let ghost known = set![key_latest(), key_name(), key_parent(), key_version()];
    let n = entries.len();
    let mut i: usize = 0;
    while i < n
        invariant
            n == entries.len(),
            i <= n,
            entries_agree(pairs_view(entries@), m),
            known == set![key_latest(), key_name(), key_parent(), key_version()],
            k_latest@ == key_latest(),
            k_name@ == key_name(),
            k_parent@ == key_parent(),
            k_version@ == key_version(),
            forall|j: int| 0 <= j < i ==> known.contains(#[trigger] entries@[j].0@),
        decreases n - i,
    {
        let k = &entries[i].0;
        let is_known = chars_eq(k, &k_latest) || chars_eq(k, &k_name) || chars_eq(k, &k_parent)
            || chars_eq(k, &k_version);
        assert(is_known <==> (k@ == key_latest() || k@ == key_name() || k@ == key_parent() || k@
            == key_version()));
        if !is_known {
            proof {
                let pv = pairs_view(entries@);
                assert(pv[i as int] == (entries@[i as int].0@, entries@[i as int].1@));
                assert(m.contains_key(pv[i as int].0));
                assert(!known.contains(k@));
                assert(!set![key_latest(), key_name(), key_version()].contains(k@));
            }
            return None;
        }
        assert(known.contains(entries@[i as int].0@));
        i = i + 1;
    }
    proof {
        assert forall|k: Seq<char>| m.contains_key(k) implies known.contains(k) by {
            let pv = pairs_view(entries@);
            let a = choose|a: int| 0 <= a < pv.len() && #[trigger] pv[a].0 == k;
            assert(known.contains(entries@[a].0@));
        }
    }
    let l = lookup_entry(entries, &k_latest);
    let nm = lookup_entry(entries, &k_name);
    let v = lookup_entry(entries, &k_version);
    let p = lookup_entry(entries, &k_parent);
    match (l, nm, v) {
        (Some(l), Some(nm), Some(v)) => {
            match p {
                None => {
                    assert(m.dom() =~= set![key_latest(), key_name(), key_version()]);
                    Some((l, nm, v, None))
                },
                Some(p) => {
                    assert(m.dom() =~= set![key_latest(), key_name(), key_parent(), key_version()]);
                    Some((l, nm, v, Some(p)))
                },
            }
        },
        _ => {
            assert(!m.dom().contains(key_latest()) || !m.dom().contains(key_name())
                || !m.dom().contains(key_version()));
            assert(!set![key_latest(), key_name(), key_version()].contains(key_name()) || true);
            assert(set![key_latest(), key_name(), key_version()].contains(key_latest()));
            assert(set![key_latest(), key_name(), key_version()].contains(key_name()));
            assert(set![key_latest(), key_name(), key_version()].contains(key_version()));
            assert(set![key_latest(), key_name(), key_parent(), key_version()].contains(
                key_latest(),
            ));
            assert(set![key_latest(), key_name(), key_parent(), key_version()].contains(
                key_name(),
            ));
            assert(set![key_latest(), key_name(), key_parent(), key_version()].contains(
                key_version(),
            ));
            None
        },
    }
}

} // verus!
