//! What reading gives back of what an outdated check writes.
use crate::outdated::fields::{
    classify, collect_pairs, key_latest, key_name, key_parent, key_version, lemma_keys_distinct,
    pairs_map, PairView,
};
use crate::outdated::summary::{
    dep_parse, line_kind, outdated_tag, remedy_tag, sep2, summary_panics, summary_parse, DepView,
    LineKind,
};
use crate::text::{
    is_ws, join_seq, leading_ws, lemma_find_from_first, lemma_find_from_none,
    lemma_join_prepend, lemma_join_split, lines_seq, matches_at, split_once_seq, split_seq,
    strip_cr, trailing_ws, trim,
};
use vstd::prelude::*;

verus! {

/// `v` holds no `::`.
pub open spec fn no_double_colon(v: Seq<char>) -> bool {
    forall|k: int| 0 <= k < v.len() - 1 ==> !(#[trigger] v[k] == ':' && v[k + 1] == ':')
}

/// A value that survives being written into a field list: no `::`, no
/// trailing whitespace, and, unless it is the last field, no trailing `:`.
pub open spec fn field_value_ok(v: Seq<char>, last: bool) -> bool {
    &&& no_double_colon(v)
    &&& (v.len() == 0 || !is_ws(v.last()))
    &&& (!last ==> (v.len() == 0 || v.last() != ':'))
}

/// The `key=value` piece of a field.
pub open spec fn field(key: Seq<char>, value: Seq<char>) -> Seq<char> {
    key + seq!['='] + value
}

/// The field list an outdated check writes for `d`:
/// `name=..::version=..::latest=..`, then `::parent=..` when there is one.
pub open spec fn dep_text(d: DepView) -> Seq<char> {
    let base = field(key_name(), d.name) + sep2() + field(key_version(), d.version) + sep2()
        + field(key_latest(), d.latest);
    match d.parent {
        Some(p) => base + sep2() + field(key_parent(), p),
        None => base,
    }
}

/// The values of `d` can be written into a field list and read back.
pub open spec fn dep_writable(d: DepView) -> bool {
    &&& field_value_ok(d.name, false)
    &&& field_value_ok(d.version, false)
    &&& field_value_ok(d.latest, d.parent is None)
    &&& match d.parent {
        Some(p) => field_value_ok(p, true),
        None => true,
    }
}

pub proof fn lemma_trim_id(s: Seq<char>)
    requires
        s.len() > 0,
        !is_ws(s[0]),
        !is_ws(s.last()),
    ensures
        trim(s) == s,
{
    assert(leading_ws(s) == 0);
    assert(s.skip(0) =~= s);
    assert(trailing_ws(s) == 0);
    assert(s.take(s.len() as int) =~= s);
}

/// A piece before a `::` separator is split off whole.
pub proof fn lemma_split_cons(a: Seq<char>, b: Seq<char>)
    requires
        no_double_colon(a),
        a.len() == 0 || a.last() != ':',
    ensures
        split_seq(a + sep2() + b, sep2()) == seq![a] + split_seq(b, sep2()),
{
    let s = a + sep2() + b;
    assert forall|k: int| 0 <= k < a.len() implies !matches_at(s, k, sep2()) by {
        if matches_at(s, k, sep2()) {
            assert(s.subrange(k, k + 2)[0] == s[k]);
            assert(s.subrange(k, k + 2)[1] == s[k + 1]);
            if k + 1 < a.len() {
                assert(s[k] == a[k] && s[k + 1] == a[k + 1]);
            } else {
                assert(s[k] == a.last());
            }
        }
    }
    assert(s.subrange(a.len() as int, a.len() as int + 2) =~= sep2());
    lemma_find_from_first(s, sep2(), 0, a.len() as int);
    assert(s.take(a.len() as int) =~= a);
    assert(s.skip(a.len() as int + 2) =~= b);
}

/// A piece without `::` is not split.
pub proof fn lemma_split_single(a: Seq<char>)
    requires
        no_double_colon(a),
    ensures
        split_seq(a, sep2()) == seq![a],
{
    assert forall|k: int| 0 <= k && k + 2 <= a.len() implies !matches_at(a, k, sep2()) by {
        if matches_at(a, k, sep2()) {
            assert(a.subrange(k, k + 2)[0] == a[k]);
            assert(a.subrange(k, k + 2)[1] == a[k + 1]);
        }
    }
    lemma_find_from_none(a, sep2(), 0);
}

pub proof fn lemma_field_facts(key: Seq<char>, v: Seq<char>, last: bool)
    requires
        key.len() > 0,
        forall|i: int| 0 <= i < key.len() ==> key[i] != ':' && key[i] != '=' && !is_ws(key[i]),
        field_value_ok(v, last),
    ensures
        no_double_colon(field(key, v)),
        !last ==> field(key, v).last() != ':',
        !is_ws(field(key, v)[0]),
        !is_ws(field(key, v).last()),
        trim(field(key, v)) == field(key, v),
        split_once_seq(field(key, v), '=') == Some((key, v)),
{
    let f = field(key, v);
    assert(f[0] == key[0]);
    if v.len() > 0 {
        assert(f.last() == v.last());
    } else {
        assert(f.last() == '=');
    }
    assert forall|k: int| 0 <= k < f.len() - 1 implies !(#[trigger] f[k] == ':' && f[k + 1] == ':') by {
        if k >= key.len() + 1 {
            assert(f[k] == v[k - key.len() - 1]);
            assert(f[k + 1] == v[k - key.len()]);
        } else if k < key.len() {
            assert(f[k] == key[k]);
        }
    }
    lemma_trim_id(f);
    assert forall|k: int| 0 <= k < key.len() implies !matches_at(f, k, seq!['=']) by {
        if matches_at(f, k, seq!['=']) {
            assert(f.subrange(k, k + 1)[0] == f[k]);
            assert(f[k] == key[k]);
        }
    }
    assert(f.subrange(key.len() as int, key.len() as int + 1) =~= seq!['=']);
    lemma_find_from_first(f, seq!['='], 0, key.len() as int);
    assert(f.take(key.len() as int) =~= key);
    assert(f.skip(key.len() as int + 1) =~= v);
}

pub proof fn lemma_key_chars()
    ensures
        forall|i: int|
            0 <= i < key_name().len() ==> key_name()[i] != ':' && key_name()[i] != '=' && !is_ws(
                key_name()[i],
            ),
        forall|i: int|
            0 <= i < key_version().len() ==> key_version()[i] != ':' && key_version()[i] != '='
                && !is_ws(key_version()[i]),
        forall|i: int|
            0 <= i < key_latest().len() ==> key_latest()[i] != ':' && key_latest()[i] != '='
                && !is_ws(key_latest()[i]),
        forall|i: int|
            0 <= i < key_parent().len() ==> key_parent()[i] != ':' && key_parent()[i] != '='
                && !is_ws(key_parent()[i]),
{
}

/// The pieces of the field list of a writable dependency.
pub open spec fn dep_fields(d: DepView) -> Seq<Seq<char>> {
    let base = seq![
        field(key_name(), d.name),
        field(key_version(), d.version),
        field(key_latest(), d.latest),
    ];
    match d.parent {
        Some(p) => base.push(field(key_parent(), p)),
        None => base,
    }
}

pub proof fn lemma_dep_text_split(d: DepView)
    requires
        dep_writable(d),
    ensures
        split_seq(dep_text(d), sep2()) == dep_fields(d),
        trim(dep_text(d)) == dep_text(d),
{
    lemma_key_chars();
    let f1 = field(key_name(), d.name);
    let f2 = field(key_version(), d.version);
    let f3 = field(key_latest(), d.latest);
    lemma_field_facts(key_name(), d.name, false);
    lemma_field_facts(key_version(), d.version, false);
    lemma_field_facts(key_latest(), d.latest, d.parent is None);
    let t = dep_text(d);
    match d.parent {
        Some(p) => {
            let f4 = field(key_parent(), p);
            lemma_field_facts(key_parent(), p, true);
            lemma_split_single(f4);
            lemma_split_cons(f3, f4);
            lemma_split_cons(f2, f3 + sep2() + f4);
            assert(t =~= f1 + sep2() + (f2 + sep2() + (f3 + sep2() + f4)));
            lemma_split_cons(f1, f2 + sep2() + (f3 + sep2() + f4));
            assert(split_seq(t, sep2()) =~= dep_fields(d));
            assert(t[0] == f1[0]);
            assert(t.last() == f4.last());
        },
        None => {
            lemma_split_single(f3);
            lemma_split_cons(f2, f3);
            assert(t =~= f1 + sep2() + (f2 + sep2() + f3));
            lemma_split_cons(f1, f2 + sep2() + f3);
            assert(split_seq(t, sep2()) =~= dep_fields(d));
            assert(t[0] == f1[0]);
            assert(t.last() == f3.last());
        },
    }
    lemma_trim_id(t);
}

/// Reading the field list that an outdated check writes for a dependency
/// gives back that dependency, whether or not pieces are trimmed.
pub proof fn lemma_dep_roundtrip(d: DepView, lenient: bool)
    requires
        dep_writable(d),
    ensures
        dep_parse(dep_text(d), lenient) == Ok::<DepView, crate::outdated::summary::DepFailure>(d),
{
    lemma_dep_text_split(d);
    lemma_key_chars();
    lemma_keys_distinct();
    let ps = dep_fields(d);
    let p1 = (key_name(), d.name);
    let p2 = (key_version(), d.version);
    let p3 = (key_latest(), d.latest);
    lemma_field_facts(key_name(), d.name, false);
    lemma_field_facts(key_version(), d.version, false);
    lemma_field_facts(key_latest(), d.latest, d.parent is None);
    let base: Seq<PairView> = seq![p1, p2, p3];
    assert(ps.take(1).drop_last() =~= Seq::<Seq<char>>::empty());
    assert(ps.take(2).drop_last() =~= ps.take(1));
    assert(ps.take(3).drop_last() =~= ps.take(2));
    assert(ps.take(1).last() == field(key_name(), d.name));
    assert(ps.take(2).last() == field(key_version(), d.version));
    assert(ps.take(3).last() == field(key_latest(), d.latest));
    assert(collect_pairs(Seq::<Seq<char>>::empty(), lenient) == Ok::<Seq<PairView>, Seq<char>>(
        Seq::empty(),
    ));
    assert(Seq::<PairView>::empty().push(p1) =~= seq![p1]);
    assert(seq![p1].push(p2) =~= seq![p1, p2]);
    assert(seq![p1, p2].push(p3) =~= base);
    assert(collect_pairs(ps.take(1), lenient) == Ok::<Seq<PairView>, Seq<char>>(seq![p1]));
    assert(collect_pairs(ps.take(2), lenient) == Ok::<Seq<PairView>, Seq<char>>(seq![p1, p2]));
    assert(collect_pairs(ps.take(3), lenient) == Ok::<Seq<PairView>, Seq<char>>(base));
    assert(seq![p1, p2].drop_last() =~= seq![p1]);
    assert(base.drop_last() =~= seq![p1, p2]);
    assert(seq![p1].drop_last() =~= Seq::<PairView>::empty());
    let m3 = pairs_map(base);
    assert(seq![p1].last() == p1);
    assert(seq![p1].drop_last() =~= Seq::<PairView>::empty());
    assert(pairs_map(Seq::<PairView>::empty()) == Map::<Seq<char>, Seq<char>>::empty());
    assert(pairs_map(seq![p1]) =~= Map::<Seq<char>, Seq<char>>::empty().insert(key_name(), d.name));
    assert(pairs_map(seq![p1, p2]) == pairs_map(seq![p1]).insert(key_version(), d.version));
    assert(m3 == Map::<Seq<char>, Seq<char>>::empty().insert(key_name(), d.name).insert(
        key_version(),
        d.version,
    ).insert(key_latest(), d.latest));
    match d.parent {
        None => {
            assert(ps.take(3) =~= ps);
            assert(m3.dom() =~= set![key_latest(), key_name(), key_version()]);
            assert(classify(m3) == Some((d.latest, d.name, d.version, None::<Seq<char>>)));
        },
        Some(p) => {
            let p4 = (key_parent(), p);
            lemma_field_facts(key_parent(), p, true);
            assert(ps.take(4) =~= ps);
            assert(ps.take(4).drop_last() =~= ps.take(3));
            let all = base.push(p4);
            assert(all.drop_last() =~= base);
            assert(collect_pairs(ps, lenient) == Ok::<Seq<PairView>, Seq<char>>(all));
            let m4 = pairs_map(all);
            assert(m4 == m3.insert(key_parent(), p));
            assert(m4.dom() =~= set![key_latest(), key_name(), key_parent(), key_version()]);
            assert(m4.dom() != set![key_latest(), key_name(), key_version()]) by {
                assert(m4.dom().contains(key_parent()));
            }
            assert(classify(m4) == Some((d.latest, d.name, d.version, Some(p))));
        },
    }
}

/// `v` holds no line break.
pub open spec fn no_newline(v: Seq<char>) -> bool {
    forall|k: int| 0 <= k < v.len() ==> #[trigger] v[k] != '\n'
}

/// The line an outdated check writes for a dependency.
pub open spec fn outdated_line(d: DepView) -> Seq<char> {
    sep2() + outdated_tag() + sep2() + dep_text(d)
}

/// The line an outdated check writes for its remedy.
pub open spec fn remedy_line(r: Seq<char>) -> Seq<char> {
    sep2() + remedy_tag() + sep2() + r
}

/// The lines of a summary: one per dependency, then the remedy's.
pub open spec fn summary_lines(deps: Seq<DepView>, remedy: Option<Seq<char>>) -> Seq<Seq<char>> {
    let ds = deps.map_values(|d: DepView| outdated_line(d));
    match remedy {
        Some(r) => ds.push(remedy_line(r)),
        None => ds,
    }
}

/// The text of a summary: its lines separated by line breaks.
pub open spec fn summary_text(deps: Seq<DepView>, remedy: Option<Seq<char>>) -> Seq<char> {
    join_seq(summary_lines(deps, remedy), seq!['\n'])
}

/// A dependency whose line can be written and read back.
pub open spec fn dep_line_writable(d: DepView) -> bool {
    &&& dep_writable(d)
    &&& no_newline(d.name)
    &&& no_newline(d.version)
    &&& no_newline(d.latest)
    &&& match d.parent {
        Some(p) => no_newline(p),
        None => true,
    }
}

/// A remedy whose line can be written and read back.
pub open spec fn remedy_writable(r: Seq<char>) -> bool {
    no_newline(r)
}

pub proof fn lemma_newline_split_cons(a: Seq<char>, b: Seq<char>)
    requires
        no_newline(a),
    ensures
        split_seq(a + seq!['\n'] + b, seq!['\n']) == seq![a] + split_seq(b, seq!['\n']),
{
    let s = a + seq!['\n'] + b;
    assert forall|k: int| 0 <= k < a.len() implies !matches_at(s, k, seq!['\n']) by {
        if matches_at(s, k, seq!['\n']) {
            assert(s.subrange(k, k + 1)[0] == s[k]);
            assert(s[k] == a[k]);
        }
    }
    assert(s.subrange(a.len() as int, a.len() as int + 1) =~= seq!['\n']);
    lemma_find_from_first(s, seq!['\n'], 0, a.len() as int);
    assert(s.take(a.len() as int) =~= a);
    assert(s.skip(a.len() as int + 1) =~= b);
}

pub proof fn lemma_newline_split_single(a: Seq<char>)
    requires
        no_newline(a),
    ensures
        split_seq(a, seq!['\n']) == seq![a],
{
    assert forall|k: int| 0 <= k && k + 1 <= a.len() implies !matches_at(a, k, seq!['\n']) by {
        if matches_at(a, k, seq!['\n']) {
            assert(a.subrange(k, k + 1)[0] == a[k]);
        }
    }
    lemma_find_from_none(a, seq!['\n'], 0);
}

/// Splitting joined lines at line breaks gives back the lines.
pub proof fn lemma_split_join_lines(ls: Seq<Seq<char>>)
    requires
        ls.len() > 0,
        forall|i: int| 0 <= i < ls.len() ==> no_newline(#[trigger] ls[i]),
    ensures
        split_seq(join_seq(ls, seq!['\n']), seq!['\n']) == ls,
    decreases ls.len(),
{
    if ls.len() == 1 {
        lemma_newline_split_single(ls[0]);
        assert(seq![ls[0]] =~= ls);
    } else {
        let rest = ls.drop_first();
        assert(ls =~= seq![ls[0]] + rest);
        assert forall|i: int| 0 <= i < rest.len() implies no_newline(#[trigger] rest[i]) by {
            assert(rest[i] == ls[i + 1]);
        }
        lemma_split_join_lines(rest);
        lemma_join_prepend(ls[0], rest, seq!['\n']);
        lemma_newline_split_cons(ls[0], join_seq(rest, seq!['\n']));
    }
}

/// Breaking joined lines into lines gives back the lines.
pub proof fn lemma_lines_of_join(ls: Seq<Seq<char>>)
    requires
        ls.len() > 0,
        forall|i: int| 0 <= i < ls.len() ==> no_newline(#[trigger] ls[i]),
        forall|i: int| 0 <= i < ls.len() - 1 ==> strip_cr(#[trigger] ls[i]) == ls[i],
        ls.last().len() > 0,
    ensures
        lines_seq(join_seq(ls, seq!['\n'])) == ls,
{
    lemma_split_join_lines(ls);
    let body = ls.drop_last().map_values(|p: Seq<char>| strip_cr(p));
    assert(body =~= ls.drop_last());
    assert(body.push(ls.last()) =~= ls);
}

pub proof fn lemma_no_newline_concat(a: Seq<char>, b: Seq<char>)
    requires
        no_newline(a),
        no_newline(b),
    ensures
        no_newline(a + b),
{
    assert forall|k: int| 0 <= k < (a + b).len() implies #[trigger] (a + b)[k] != '\n' by {
        if k < a.len() {
            assert((a + b)[k] == a[k]);
        } else {
            assert((a + b)[k] == b[k - a.len()]);
        }
    }
}

pub proof fn lemma_outdated_line(d: DepView)
    requires
        dep_line_writable(d),
    ensures
        line_kind(outdated_line(d)) == LineKind::Outdated(dep_text(d)),
        no_newline(outdated_line(d)),
        outdated_line(d).len() > 0,
        !is_ws(outdated_line(d).last()),
{
    let t = dep_text(d);
    let e = Seq::<char>::empty();
    assert(outdated_line(d) =~= e + sep2() + (outdated_tag() + sep2() + t));
    lemma_split_cons(e, outdated_tag() + sep2() + t);
    lemma_split_cons(outdated_tag(), t);
    let ps = split_seq(outdated_line(d), sep2());
    assert(ps =~= seq![e, outdated_tag()] + split_seq(t, sep2()));
    assert(ps[1] == outdated_tag());
    assert(outdated_tag() != remedy_tag()) by {
        assert(outdated_tag()[0] != remedy_tag()[0]);
    }
    assert(ps.skip(2) =~= split_seq(t, sep2()));
    lemma_join_split(t, sep2());
    lemma_dep_text_split(d);
    assert(t.len() > 0 && !is_ws(t.last())) by {
        lemma_key_chars();
        lemma_field_facts(key_name(), d.name, false);
        lemma_field_facts(key_version(), d.version, false);
        lemma_field_facts(key_latest(), d.latest, d.parent is None);
        match d.parent {
            Some(p) => {
                lemma_field_facts(key_parent(), p, true);
                assert(t.last() == field(key_parent(), p).last());
            },
            None => {
                assert(t.last() == field(key_latest(), d.latest).last());
            },
        }
    }
    assert(outdated_line(d).last() == t.last());
    let fixed = sep2() + outdated_tag() + sep2();
    assert(no_newline(fixed));
    assert(no_newline(field(key_name(), d.name) + sep2())) by {
        lemma_no_newline_concat(field(key_name(), d.name), sep2());
    }
    assert(no_newline(t)) by {
        let f1 = field(key_name(), d.name);
        let f2 = field(key_version(), d.version);
        let f3 = field(key_latest(), d.latest);
        lemma_no_newline_concat(key_name(), seq!['=']);
        lemma_no_newline_concat(key_name() + seq!['='], d.name);
        lemma_no_newline_concat(key_version(), seq!['=']);
        lemma_no_newline_concat(key_version() + seq!['='], d.version);
        lemma_no_newline_concat(key_latest(), seq!['=']);
        lemma_no_newline_concat(key_latest() + seq!['='], d.latest);
        lemma_no_newline_concat(f1, sep2());
        lemma_no_newline_concat(f1 + sep2(), f2);
        lemma_no_newline_concat(f1 + sep2() + f2, sep2());
        lemma_no_newline_concat(f1 + sep2() + f2 + sep2(), f3);
        match d.parent {
            Some(p) => {
                lemma_no_newline_concat(key_parent(), seq!['=']);
                lemma_no_newline_concat(key_parent() + seq!['='], p);
                lemma_no_newline_concat(f1 + sep2() + f2 + sep2() + f3, sep2());
                lemma_no_newline_concat(
                    f1 + sep2() + f2 + sep2() + f3 + sep2(),
                    field(key_parent(), p),
                );
            },
            None => {},
        }
    }
    lemma_no_newline_concat(fixed, t);
}

pub proof fn lemma_remedy_line(r: Seq<char>)
    requires
        remedy_writable(r),
    ensures
        line_kind(remedy_line(r)) == LineKind::Remedy(r),
        no_newline(remedy_line(r)),
        remedy_line(r).len() > 0,
{
    let e = Seq::<char>::empty();
    assert(remedy_line(r) =~= e + sep2() + (remedy_tag() + sep2() + r));
    lemma_split_cons(e, remedy_tag() + sep2() + r);
    lemma_split_cons(remedy_tag(), r);
    crate::text::lemma_join_split(r, sep2());
    crate::text::lemma_split_nonempty(r, sep2());
    let ps = split_seq(remedy_line(r), sep2());
    assert(ps =~= seq![e, remedy_tag()] + split_seq(r, sep2()));
    assert(ps.skip(2) =~= split_seq(r, sep2()));
    let fixed = sep2() + remedy_tag() + sep2();
    assert(no_newline(fixed));
    lemma_no_newline_concat(fixed, r);
}

pub proof fn lemma_parse_dep_lines(deps: Seq<DepView>, lenient: bool, i: int)
    requires
        0 <= i <= deps.len(),
        forall|j: int| 0 <= j < deps.len() ==> dep_line_writable(#[trigger] deps[j]),
    ensures
        summary_parse(deps.map_values(|d: DepView| outdated_line(d)).take(i), lenient) == Ok::<
            (Seq<DepView>, Option<Seq<char>>),
            (Seq<char>, crate::outdated::summary::DepFailure),
        >((deps.take(i), None)),
        !summary_panics(deps.map_values(|d: DepView| outdated_line(d)).take(i), lenient),
    decreases i,
{
    let ls = deps.map_values(|d: DepView| outdated_line(d));
    if i == 0 {
        assert(ls.take(0) =~= Seq::<Seq<char>>::empty());
        assert(deps.take(0) =~= Seq::<DepView>::empty());
    } else {
        lemma_parse_dep_lines(deps, lenient, i - 1);
        assert(ls.take(i).drop_last() =~= ls.take(i - 1));
        assert(ls.take(i).last() == outdated_line(deps[i - 1]));
        lemma_outdated_line(deps[i - 1]);
        lemma_dep_roundtrip(deps[i - 1], lenient);
        assert(deps.take(i - 1).push(deps[i - 1]) =~= deps.take(i));
    }
}

/// Reading the text that an outdated check writes (one `::outdated::` line
/// per dependency, then an optional `::remedy::` line, separated by line
/// breaks) gives back the dependencies, in order, and the remedy.
pub proof fn lemma_summary_roundtrip(deps: Seq<DepView>, remedy: Option<Seq<char>>, lenient: bool)
    requires
        forall|j: int| 0 <= j < deps.len() ==> dep_line_writable(#[trigger] deps[j]),
        match remedy {
            Some(r) => remedy_writable(r),
            None => true,
        },
    ensures
        !summary_panics(lines_seq(summary_text(deps, remedy)), lenient),
        summary_parse(lines_seq(summary_text(deps, remedy)), lenient) == Ok::<
            (Seq<DepView>, Option<Seq<char>>),
            (Seq<char>, crate::outdated::summary::DepFailure),
        >((deps, remedy)),
{
    let ds = deps.map_values(|d: DepView| outdated_line(d));
    let ls = summary_lines(deps, remedy);
    lemma_parse_dep_lines(deps, lenient, deps.len() as int);
    assert(ds.take(deps.len() as int) =~= ds);
    assert(deps.take(deps.len() as int) =~= deps);
    assert forall|i: int| 0 <= i < ds.len() implies no_newline(#[trigger] ds[i]) && strip_cr(ds[i])
        == ds[i] && ds[i].len() > 0 by {
        lemma_outdated_line(deps[i]);
    }
    if ls.len() == 0 {
        let e = Seq::<char>::empty();
        assert(summary_text(deps, remedy) == e);
        assert(split_seq(e, seq!['\n']) == seq![e]) by {
            lemma_newline_split_single(e);
        }
        assert(lines_seq(e) =~= Seq::<Seq<char>>::empty());
        assert(ds =~= Seq::<Seq<char>>::empty());
    } else {
        match remedy {
            Some(r) => {
                lemma_remedy_line(r);
                assert(ls.drop_last() =~= ds);
                assert forall|i: int| 0 <= i < ls.len() implies no_newline(#[trigger] ls[i]) by {
                    if i < ds.len() {
                        assert(ls[i] == ds[i]);
                    }
                }
                assert forall|i: int| 0 <= i < ls.len() - 1 implies strip_cr(#[trigger] ls[i])
                    == ls[i] by {
                    assert(ls[i] == ds[i]);
                }
                lemma_lines_of_join(ls);
            },
            None => {
                assert(ls == ds);
                lemma_outdated_line(deps.last());
                assert(ds.last() == outdated_line(deps.last()));
                lemma_lines_of_join(ls);
            },
        }
    }
}

} // verus!
