//! The summary an outdated check prints: `::outdated::` lines, each naming
//! a dependency, and an optional `::remedy::` line.
use crate::outdated::fields::{
    classify, classify_entries, collect_fields, collect_pairs, pairs_map, sorted_keys,
    strictly_sorted,
};
use crate::text::{
    append_chars, chars_eq, chars_of, join_chars, join_seq, lines_chars, lines_seq, split_chars,
    split_seq, debug_quoted, debug_string, string_chars, string_from_chars, trim, trim_chars, utf8_len, byte_len,
};
use vstd::prelude::*;

verus! {

/// A dependency that has a newer version.
pub struct OutdatedDep {
    pub latest: String,
    pub name: String,
    pub parent: Option<String>,
    pub version: String,
}

pub struct DepView {
    pub latest: Seq<char>,
    pub name: Seq<char>,
    pub parent: Option<Seq<char>>,
    pub version: Seq<char>,
}

pub open spec fn opt_view(o: Option<String>) -> Option<Seq<char>> {
    match o {
        Some(s) => Some(s@),
        None => None,
    }
}

impl View for OutdatedDep {
    type V = DepView;

    open spec fn view(&self) -> DepView {
        DepView {
            latest: self.latest@,
            name: self.name@,
            parent: opt_view(self.parent),
            version: self.version@,
        }
    }
}

/// Why the text of a dependency could not be read.
pub enum DepFailure {
    /// A piece that holds no `=`.
    MissingEquals(Seq<char>),
    /// The keys found, which are not `latest`, `name`, `version` and
    /// maybe `parent`.
    BadKeys(Set<Seq<char>>),
}

/// The `::` separator.
pub open spec fn sep2() -> Seq<char> {
    seq![':', ':']
}

/// The dependency that `text` describes: the trimmed text is split at
/// `::`, and each piece is a `key=value` pair (split at its first `=`).
/// With `lenient`, pieces are trimmed and empty ones skipped.
pub open spec fn dep_parse(text: Seq<char>, lenient: bool) -> Result<DepView, DepFailure> {
    match collect_pairs(split_seq(trim(text), sep2()), lenient) {
        Err(p) => Err(DepFailure::MissingEquals(p)),
        Ok(pairs) => match classify(pairs_map(pairs)) {
            Some((l, n, v, p)) => Ok(DepView { latest: l, name: n, parent: p, version: v }),
            None => Err(DepFailure::BadKeys(pairs_map(pairs).dom())),
        },
    }
}

/// The Debug form of a list of strings: `[` the quoted items joined with
/// `, ` `]`.
pub open spec fn debug_list(ks: Seq<Seq<char>>) -> Seq<char> {
    "["@ + join_seq(ks.map_values(|k: Seq<char>| debug_quoted(k)), ", "@) + "]"@
}

/// `msg` is the message reported for `failure` on `text`.
pub open spec fn failure_message(failure: DepFailure, text: Seq<char>, msg: Seq<char>) -> bool {
    match failure {
        DepFailure::MissingEquals(p) => msg == "Expected key=value\r\nFound: "@ + p
            + "\r\nOutdated: "@ + text,
        DepFailure::BadKeys(keys) => exists|ks: Seq<Seq<char>>|
            #![trigger strictly_sorted(ks)]
            strictly_sorted(ks) && (forall|k: Seq<char>| ks.contains(k) <==> keys.contains(k))
                && msg == "Expected name, version, latest, <parent>, found: "@ + debug_list(ks),
    }
}

/// The error of reading an outdated summary or dependency.
pub struct ParseError(pub String);

impl ParseError {
    /// The message of the error.
    pub fn to_string(&self) -> (r: String)
        ensures
            r@ == self.0@,
    {
        self.0.clone()
    }
}

/// A list of characters as a `String` owned by a dependency.
fn owned(v: &Vec<char>) -> (s: String)
    ensures
        s@ == v@,
{
    string_from_chars(v)
}

/// Reads a dependency from its `key=value::...` text.
pub fn parse_dep_text(text: &Vec<char>, lenient: bool) -> (r: Result<OutdatedDep, ParseError>)
    ensures
        match dep_parse(text@, lenient) {
            Ok(d) => r matches Ok(x) && x@ == d,
            Err(f) => r matches Err(e) && (lenient ==> failure_message(f, text@, e.0@)),
        },
{
    let t = trim_chars(text);
    let sep: Vec<char> = vec![':', ':'];
    assert(sep@ =~= sep2());
    let pieces = split_chars(&t, &sep);
    match collect_fields(&pieces, lenient) {
        Err(p) => {
            let mut msg = chars_of("Expected key=value\r\nFound: ");
            append_chars(&mut msg, &p);
            let mid = chars_of("\r\nOutdated: ");
            append_chars(&mut msg, &mid);
            append_chars(&mut msg, text);
            Err(ParseError(owned(&msg)))
        },
        Ok(entries) => {
            let ghost pairs = collect_pairs(pieces.deep_view(), lenient)->Ok_0;
            match classify_entries(&entries, Ghost(pairs_map(pairs))) {
                Some((l, n, v, p)) => {
                    let parent = match p {
                        Some(pp) => Some(owned(&pp)),
                        None => None,
                    };
                    Ok(OutdatedDep { latest: owned(&l), name: owned(&n), parent, version: owned(&v) })
                },
                None => {
                    let ks = sorted_keys(&entries);
                    let mut quoted: Vec<Vec<char>> = Vec::new();
                    let mut i: usize = 0;
                    while i < ks.len()
                        invariant
                            i <= ks.len(),
                            quoted.deep_view() == ks.deep_view().take(i as int).map_values(
                                |k: Seq<char>| debug_quoted(k),
                            ),
                        decreases ks.len() - i,
                    {
                        let d = debug_string(&owned(&ks[i]));
                        let dc = string_chars(&d);
                        proof {
                            assert(ks[i as int].deep_view() =~= ks[i as int]@);
                            assert(dc.deep_view() =~= dc@);
                        }
                        let ghost before = quoted.deep_view();
                        quoted.push(dc);
                        assert(quoted.deep_view() =~= ks.deep_view().take(i + 1).map_values(
                            |k: Seq<char>| debug_quoted(k),
                        )) by {
                            assert(quoted.deep_view() =~= before.push(dc@));
                        }
                        i = i + 1;
                    }
                    assert(ks.deep_view().take(ks.len() as int) =~= ks.deep_view());
                    let comma = chars_of(", ");
                    let inner = join_chars(&quoted, &comma);
                    let mut msg = chars_of("Expected name, version, latest, <parent>, found: ");
                    let open = chars_of("[");
                    let close = chars_of("]");
                    append_chars(&mut msg, &open);
                    append_chars(&mut msg, &inner);
                    append_chars(&mut msg, &close);
                    proof {
                        let m = pairs_map(pairs);
                        let ksv = ks.deep_view();
                        assert forall|k: Seq<char>| ksv.contains(k) <==> m.dom().contains(k) by {
                            let pv = crate::outdated::fields::pairs_view(entries@);
                            if ksv.contains(k) {
                                let a = choose|a: int|
                                    0 <= a < entries.len() && #[trigger] entries@[a].0@ == k;
                                assert(pv[a].0 == k);
                            }
                            if m.dom().contains(k) {
                                let a = choose|a: int| 0 <= a < pv.len() && #[trigger] pv[a].0 == k;
                                assert(entries@[a].0@ == k);
                            }
                        }
                        assert(msg@ =~= "Expected name, version, latest, <parent>, found: "@
                            + debug_list(ksv));
                    }
                    Err(ParseError(owned(&msg)))
                },
            }
        },
    }
}

impl OutdatedDep {
    pub fn new(name: &str, version: &str, latest: &str, parent: Option<&str>) -> (r: Self)
        ensures
            r.name@ == name@,
            r.version@ == version@,
            r.latest@ == latest@,
            match parent {
                Some(p) => r.parent matches Some(q) && q@ == p@,
                None => r.parent is None,
            },
    {
        let parent = match parent {
            Some(p) => Some(p.to_owned()),
            None => None,
        };
        OutdatedDep {
            latest: latest.to_owned(),
            name: name.to_owned(),
            parent,
            version: version.to_owned(),
        }
    }

    /// Reads a dependency from `name=..::version=..::latest=..` text, with
    /// an optional `::parent=..`; pieces are trimmed and empty ones skipped.
    pub fn from_str(s: &str) -> (r: Result<Self, ParseError>)
        ensures
            match dep_parse(s@, true) {
                Ok(d) => r matches Ok(x) && x@ == d,
                Err(f) => r matches Err(e) && failure_message(f, s@, e.0@),
            },
    {
        let text = chars_of(s);
        parse_dep_text(&text, true)
    }
}

/// The `remedy` tag of a summary line.
pub open spec fn remedy_tag() -> Seq<char> {
    seq!['r', 'e', 'm', 'e', 'd', 'y']
}

/// The `outdated` tag of a summary line.
pub open spec fn outdated_tag() -> Seq<char> {
    seq!['o', 'u', 't', 'd', 'a', 't', 'e', 'd']
}

/// What a line of a summary holds. The line is split at `::`; the piece
/// before the first `::` is ignored and the second piece is the tag.
pub enum LineKind {
    /// No tag, or a tag other than `remedy` and `outdated`.
    Other,
    /// `remedy` with the rest of the line (the later pieces rejoined).
    Remedy(Seq<char>),
    /// `remedy` with nothing after it.
    ShortRemedy,
    /// `outdated` with the rest of the line (the later pieces rejoined).
    Outdated(Seq<char>),
}

pub open spec fn line_kind(line: Seq<char>) -> LineKind {
    let ps = split_seq(line, sep2());
    if ps.len() < 2 {
        LineKind::Other
    } else if ps[1] == remedy_tag() {
        if ps.len() < 3 {
            LineKind::ShortRemedy
        } else {
            LineKind::Remedy(join_seq(ps.skip(2), sep2()))
        }
    } else if ps[1] == outdated_tag() {
        LineKind::Outdated(join_seq(ps.skip(2), sep2()))
    } else {
        LineKind::Other
    }
}

/// The dependencies and remedy that the lines give, in order, the last
/// remedy line winning; or the text of the first dependency that cannot be
/// read, with the reason.
pub open spec fn summary_parse(ls: Seq<Seq<char>>, lenient: bool) -> Result<
    (Seq<DepView>, Option<Seq<char>>),
    (Seq<char>, DepFailure),
>
    decreases ls.len(),
{
    if ls.len() == 0 {
        Ok((Seq::empty(), None))
    } else {
        match summary_parse(ls.drop_last(), lenient) {
            Err(e) => Err(e),
            Ok((deps, remedy)) => match line_kind(ls.last()) {
                LineKind::Remedy(r) => Ok((deps, Some(r))),
                LineKind::Outdated(t) => match dep_parse(t, lenient) {
                    Ok(d) => Ok((deps.push(d), remedy)),
                    Err(f) => Err((t, f)),
                },
                _ => Ok((deps, remedy)),
            },
        }
    }
}

/// Reading the lines stops on a `::remedy` line with nothing after the tag
/// (and, when not `lenient`, on a dependency that cannot be read) before
/// any error is found.
pub open spec fn summary_panics(ls: Seq<Seq<char>>, lenient: bool) -> bool
    decreases ls.len(),
{
    if ls.len() == 0 {
        false
    } else {
        ||| summary_panics(ls.drop_last(), lenient)
        ||| summary_parse(ls.drop_last(), lenient) is Ok && match line_kind(ls.last()) {
            LineKind::ShortRemedy => true,
            LineKind::Outdated(t) => !lenient && dep_parse(t, lenient) is Err,
            _ => false,
        }
    }
}

pub proof fn lemma_summary_prefix(ls: Seq<Seq<char>>, lenient: bool, i: int, n: int)
    requires
        0 <= i <= n <= ls.len(),
    ensures
        summary_panics(ls.take(i), lenient) ==> summary_panics(ls.take(n), lenient),
        summary_parse(ls.take(i), lenient) is Err ==> summary_parse(ls.take(n), lenient)
            == summary_parse(ls.take(i), lenient),
    decreases n - i,
{
    if i < n {
        lemma_summary_prefix(ls, lenient, i, n - 1);
        assert(ls.take(n).drop_last() =~= ls.take(n - 1));
    }
}

/// Once reading has failed without stopping, later lines make it stop no
/// more.
pub proof fn lemma_summary_failed(ls: Seq<Seq<char>>, lenient: bool, i: int, n: int)
    requires
        0 <= i <= n <= ls.len(),
        summary_parse(ls.take(i), lenient) is Err,
        !summary_panics(ls.take(i), lenient),
    ensures
        !summary_panics(ls.take(n), lenient),
    decreases n - i,
{
    if i < n {
        lemma_summary_failed(ls, lenient, i, n - 1);
        lemma_summary_prefix(ls, lenient, i, n - 1);
        assert(ls.take(n).drop_last() =~= ls.take(n - 1));
    }
}

pub open spec fn deps_view(deps: Seq<OutdatedDep>) -> Seq<DepView> {
    deps.map_values(|d: OutdatedDep| d@)
}

/// Copies pieces `from..` of `ps`.
fn pieces_from(ps: &Vec<Vec<char>>, from: usize) -> (r: Vec<Vec<char>>)
    requires
        from <= ps.len(),
    ensures
        r.deep_view() == ps.deep_view().skip(from as int),
{
    let mut r: Vec<Vec<char>> = Vec::new();
    let mut i = from;
    while i < ps.len()
        invariant
            from <= i <= ps.len(),
            r.deep_view() == ps.deep_view().subrange(from as int, i as int),
        decreases ps.len() - i,
    {
        let c = slice_chars_all(&ps[i]);
        let ghost before = r.deep_view();
        proof {
            assert(c.deep_view() =~= c@);
            assert(ps[i as int].deep_view() =~= ps[i as int]@);
        }
        r.push(c);
        assert(r.deep_view() =~= ps.deep_view().subrange(from as int, i + 1)) by {
            assert(r.deep_view() =~= before.push(c@));
        }
        i = i + 1;
    }
    assert(ps.deep_view().subrange(from as int, ps.len() as int) =~= ps.deep_view().skip(
        from as int,
    ));
    r
}

fn slice_chars_all(v: &Vec<char>) -> (r: Vec<char>)
    ensures
        r@ == v@,
{
    let r = crate::text::slice_chars(v, 0, v.len());
    assert(r@ =~= v@);
    r
}

/// What reading the lines of a summary comes to.
pub enum Scan {
    /// The dependencies and the remedy.
    Parsed(Vec<OutdatedDep>, Option<String>),
    /// A dependency could not be read.
    Failed(ParseError),
    /// Reading stops before any error is found (see `summary_panics`).
    Stopped,
}

/// Reads the dependencies and remedy from the text an outdated check
/// prints (see `summary_parse`), or finds where reading stops.
pub fn scan_outdated_lines(s: &str, lenient: bool) -> (r: Scan)
    ensures
        summary_panics(lines_seq(s@), lenient) <==> r is Stopped,
        !summary_panics(lines_seq(s@), lenient) ==> match summary_parse(lines_seq(s@), lenient) {
            Ok((deps, remedy)) => r matches Scan::Parsed(ds, rm) && deps_view(ds@) == deps
                && opt_view(rm) == remedy,
            Err((t, f)) => r matches Scan::Failed(e) && (lenient ==> failure_message(f, t, e.0@)),
        },
{
    let text = chars_of(s);
    let ls = lines_chars(&text);
    let ghost lsv = ls.deep_view();
    let sep: Vec<char> = vec![':', ':'];
    let remedy_t: Vec<char> = vec!['r', 'e', 'm', 'e', 'd', 'y'];
    let outdated_t: Vec<char> = vec!['o', 'u', 't', 'd', 'a', 't', 'e', 'd'];
    assert(sep@ =~= sep2());
    assert(remedy_t@ =~= remedy_tag());
    assert(outdated_t@ =~= outdated_tag());
    let mut deps: Vec<OutdatedDep> = Vec::new();
    let mut remedy: Option<String> = None;
    let n = ls.len();
    let mut i: usize = 0;
    assert(lsv.take(0) =~= Seq::<Seq<char>>::empty());
    assert(deps_view(deps@) =~= Seq::<DepView>::empty());
    while i < n
        invariant
            n == ls.len(),
            lsv == ls.deep_view(),
            lsv == lines_seq(s@),
            i <= n,
            sep@ == sep2(),
            remedy_t@ == remedy_tag(),
            outdated_t@ == outdated_tag(),
            !summary_panics(lsv.take(i as int), lenient),
            summary_parse(lsv.take(i as int), lenient) == Ok::<
                (Seq<DepView>, Option<Seq<char>>),
                (Seq<char>, DepFailure),
            >((deps_view(deps@), opt_view(remedy))),
        decreases n - i,
    {
        let ghost prefix = lsv.take(i as int);
        let ghost next = lsv.take(i + 1);
        assert(next.drop_last() =~= prefix);
        assert(next.last() == ls[i as int]@) by {
            assert(ls[i as int].deep_view() =~= ls[i as int]@);
        }
        proof {
            lemma_summary_prefix(lsv, lenient, i + 1, n as int);
            assert(lsv.take(n as int) =~= lsv);
        }
        let ps = split_chars(&ls[i], &sep);
        let ghost psv = ps.deep_view();
        if ps.len() >= 2 {
            assert(psv[1] == ps[1]@) by {
                assert(ps[1].deep_view() =~= ps[1]@);
            }
            if chars_eq(&ps[1], &remedy_t) {
                if ps.len() < 3 {
                    return Scan::Stopped;
                }
                let rest = pieces_from(&ps, 2);
                let remedy_text = join_chars(&rest, &sep);
                remedy = Some(owned(&remedy_text));
            } else if chars_eq(&ps[1], &outdated_t) {
                let rest = pieces_from(&ps, 2);
                let dep_text = join_chars(&rest, &sep);
                match parse_dep_text(&dep_text, lenient) {
                    Ok(d) => {
                        let ghost before = deps_view(deps@);
                        deps.push(d);
                        assert(deps_view(deps@) =~= before.push(d@));
                    },
                    Err(e) => {
                        if lenient {
                            proof {
                                assert(!summary_panics(lsv.take(i + 1), lenient));
                                lemma_summary_failed(lsv, lenient, i + 1, n as int);
                            }
                            return Scan::Failed(e);
                        } else {
                            return Scan::Stopped;
                        }
                    },
                }
            }
        }
        i = i + 1;
    }
    assert(lsv.take(n as int) =~= lsv);
    Scan::Parsed(deps, remedy)
}


/// Reads the dependencies and remedy from the text an outdated check
/// prints (see `summary_parse`).
pub fn parse_outdated_lines(s: &str, lenient: bool) -> (r: Result<
    (Vec<OutdatedDep>, Option<String>),
    ParseError,
>)
    requires
        !summary_panics(lines_seq(s@), lenient),
    ensures
        match summary_parse(lines_seq(s@), lenient) {
            Ok((deps, remedy)) => r matches Ok((ds, rm)) && deps_view(ds@) == deps && opt_view(rm)
                == remedy,
            Err((t, f)) => r matches Err(e) && (lenient ==> failure_message(f, t, e.0@)),
        },
{
    match scan_outdated_lines(s, lenient) {
        Scan::Parsed(deps, remedy) => Ok((deps, remedy)),
        Scan::Failed(e) => Err(e),
        Scan::Stopped => Err(ParseError(String::new())),
    }
}

/// Whether reading the summary `s` stops before any error is found (see
/// `summary_panics`).
pub fn summary_stops(s: &str, lenient: bool) -> (r: bool)
    ensures
        r == summary_panics(lines_seq(s@), lenient),
{
    match scan_outdated_lines(s, lenient) {
        Scan::Stopped => {
            true
        },
        _ => false,
    }
}

/// Outdated dependencies and the remedy that updates them, with the widths
/// (in bytes, at least the width of each column's title) of the columns
/// used to print them.
pub struct OutdatedSummary {
    pub deps: Vec<OutdatedDep>,
    pub remedy: Option<String>,
    pub max_name_length: usize,
    pub max_latest_length: usize,
    pub max_version_length: usize,
}

/// The largest byte length among the names of `deps`, at least 4.
pub open spec fn max_name_len(deps: Seq<DepView>) -> nat
    decreases deps.len(),
{
    if deps.len() == 0 {
        4
    } else {
        let m = max_name_len(deps.drop_last());
        let l = utf8_len(deps.last().name);
        if l > m {
            l
        } else {
            m
        }
    }
}

/// The largest byte length among the latest versions of `deps`, at least 6.
pub open spec fn max_latest_len(deps: Seq<DepView>) -> nat
    decreases deps.len(),
{
    if deps.len() == 0 {
        6
    } else {
        let m = max_latest_len(deps.drop_last());
        let l = utf8_len(deps.last().latest);
        if l > m {
            l
        } else {
            m
        }
    }
}

/// The largest byte length among the versions of `deps`, at least 7.
pub open spec fn max_version_len(deps: Seq<DepView>) -> nat
    decreases deps.len(),
{
    if deps.len() == 0 {
        7
    } else {
        let m = max_version_len(deps.drop_last());
        let l = utf8_len(deps.last().version);
        if l > m {
            l
        } else {
            m
        }
    }
}

/// Each column of the summary is at least as wide as its title and as
/// every value in it.
pub proof fn lemma_widths(deps: Seq<DepView>)
    ensures
        max_name_len(deps) >= 4,
        max_latest_len(deps) >= 6,
        max_version_len(deps) >= 7,
        forall|i: int| 0 <= i < deps.len() ==> utf8_len(#[trigger] deps[i].name) <= max_name_len(deps)
            && utf8_len(deps[i].latest) <= max_latest_len(deps) && utf8_len(deps[i].version)
            <= max_version_len(deps),
    decreases deps.len(),
{
    if deps.len() > 0 {
        lemma_widths(deps.drop_last());
        assert forall|i: int| 0 <= i < deps.len() implies utf8_len(#[trigger] deps[i].name) <= max_name_len(deps)
            && utf8_len(deps[i].latest) <= max_latest_len(deps) && utf8_len(deps[i].version)
            <= max_version_len(deps) by {
            if i < deps.len() - 1 {
                assert(deps[i] == deps.drop_last()[i]);
            }
        }
    }
}

impl OutdatedSummary {
    /// Reads the summary an outdated check prints. Lines tagged `outdated`
    /// name dependencies, a line tagged `remedy` the command that updates
    /// them; other lines are ignored.
    pub fn from_str(s: &str) -> (r: Result<Self, ParseError>)
        requires
            !summary_panics(lines_seq(s@), true),
        ensures
            match summary_parse(lines_seq(s@), true) {
                Ok((deps, remedy)) => r matches Ok(sum) && deps_view(sum.deps@) == deps && opt_view(
                    sum.remedy,
                ) == remedy && sum.max_name_length == max_name_len(deps)
                    && sum.max_latest_length == max_latest_len(deps) && sum.max_version_length
                    == max_version_len(deps),
                Err((t, f)) => r matches Err(e) && failure_message(f, t, e.0@),
            },
    {
        let (deps, remedy) = match parse_outdated_lines(s, true) {
            Ok(v) => v,
            Err(e) => return Err(e),
        };
        let ghost dv = deps_view(deps@);
        let mut mn: usize = 4;
        let mut ml: usize = 6;
        let mut mv: usize = 7;
        let mut i: usize = 0;
        while i < deps.len()
            invariant
                i <= deps.len(),
                dv == deps_view(deps@),
                mn == max_name_len(dv.take(i as int)),
                ml == max_latest_len(dv.take(i as int)),
                mv == max_version_len(dv.take(i as int)),
            decreases deps.len() - i,
        {
            assert(dv.take(i + 1).drop_last() =~= dv.take(i as int));
            assert(dv.take(i + 1).last() == deps[i as int]@);
            let ln = byte_len(&deps[i].name);
            let ll = byte_len(&deps[i].latest);
            let lv = byte_len(&deps[i].version);
            if ln > mn {
                mn = ln;
            }
            if ll > ml {
                ml = ll;
            }
            if lv > mv {
                mv = lv;
            }
            i = i + 1;
        }
        assert(dv.take(deps.len() as int) =~= dv);
        Ok(OutdatedSummary {
            deps,
            remedy,
            max_name_length: mn,
            max_latest_length: ml,
            max_version_length: mv,
        })
    }
}

} // verus!
