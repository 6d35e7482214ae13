//! Character-sequence utilities: trimming, splitting on a separator, joining
//! and breaking text into lines, each specified over `Seq<char>`.
use vstd::prelude::*;

verus! {

/// The characters with the Unicode `White_Space` property.
pub open spec fn is_ws(c: char) -> bool {
    let u = c as u32;
    ||| (0x9 <= u && u <= 0xD)
    ||| u == 0x20
    ||| u == 0x85
    ||| u == 0xA0
    ||| u == 0x1680
    ||| (0x2000 <= u && u <= 0x200A)
    ||| u == 0x2028
    ||| u == 0x2029
    ||| u == 0x202F
    ||| u == 0x205F
    ||| u == 0x3000
}

pub fn is_whitespace(c: char) -> (r: bool)
    ensures
        r == is_ws(c),
{
    let u = c as u32;
    (0x9 <= u && u <= 0xD) || u == 0x20 || u == 0x85 || u == 0xA0 || u == 0x1680 || (0x2000 <= u
        && u <= 0x200A) || u == 0x2028 || u == 0x2029 || u == 0x202F || u == 0x205F || u == 0x3000
}

/// Number of whitespace characters at the start of `s`.
pub open spec fn leading_ws(s: Seq<char>) -> nat
    decreases s.len(),
{
    if s.len() > 0 && is_ws(s[0]) {
        1 + leading_ws(s.drop_first())
    } else {
        0
    }
}

/// Number of whitespace characters at the end of `s`.
pub open spec fn trailing_ws(s: Seq<char>) -> nat
    decreases s.len(),
{
    if s.len() > 0 && is_ws(s.last()) {
        1 + trailing_ws(s.drop_last())
    } else {
        0
    }
}

pub open spec fn trim_start(s: Seq<char>) -> Seq<char> {
    s.skip(leading_ws(s) as int)
}

pub open spec fn trim_end(s: Seq<char>) -> Seq<char> {
    s.take(s.len() - trailing_ws(s))
}

/// `s` without leading and trailing whitespace.
pub open spec fn trim(s: Seq<char>) -> Seq<char> {
    trim_end(trim_start(s))
}

pub proof fn lemma_leading_ws(s: Seq<char>, i: int)
    requires
        0 <= i <= s.len(),
        forall|k: int| 0 <= k < i ==> is_ws(#[trigger] s[k]),
        i == s.len() || !is_ws(s[i]),
    ensures
        leading_ws(s) == i,
    decreases i,
{
    if i > 0 {
        let t = s.drop_first();
        assert forall|k: int| 0 <= k < i - 1 implies is_ws(#[trigger] t[k]) by {
            assert(t[k] == s[k + 1]);
        }
        if i - 1 < t.len() {
            assert(t[i - 1] == s[i]);
        }
        lemma_leading_ws(t, i - 1);
    }
}

pub proof fn lemma_trailing_ws(s: Seq<char>, i: int)
    requires
        0 <= i <= s.len(),
        forall|k: int| s.len() - i <= k < s.len() ==> is_ws(#[trigger] s[k]),
        i == s.len() || !is_ws(s[s.len() - i - 1]),
    ensures
        trailing_ws(s) == i,
    decreases i,
{
    if i > 0 {
        let t = s.drop_last();
        assert forall|k: int| t.len() - (i - 1) <= k < t.len() implies is_ws(#[trigger] t[k]) by {
            assert(t[k] == s[k]);
        }
        if i - 1 < t.len() {
            assert(t[t.len() - (i - 1) - 1] == s[s.len() - i - 1]);
        }
        lemma_trailing_ws(t, i - 1);
    }
}

/// The characters `s[from..to]` as a new vector.
pub fn slice_chars(s: &Vec<char>, from: usize, to: usize) -> (r: Vec<char>)
    requires
        from <= to <= s.len(),
    ensures
        r@ == s@.subrange(from as int, to as int),
{
    let mut r: Vec<char> = Vec::new();
    let mut i = from;
    while i < to
        invariant
            from <= i <= to <= s.len(),
            r@ == s@.subrange(from as int, i as int),
        decreases to - i,
    {
        r.push(s[i]);
        i = i + 1;
        assert(r@ =~= s@.subrange(from as int, i as int));
    }
    r
}

/// `s` without leading and trailing whitespace.
pub fn trim_chars(s: &Vec<char>) -> (r: Vec<char>)
    ensures
        r@ == trim(s@),
{
    let n = s.len();
    let mut a: usize = 0;
    while a < n && is_whitespace(s[a])
        invariant
            a <= n == s.len(),
            forall|k: int| 0 <= k < a ==> is_ws(#[trigger] s@[k]),
        decreases n - a,
    {
        a = a + 1;
    }
    proof {
        lemma_leading_ws(s@, a as int);
    }
    let ghost t = trim_start(s@);
    assert(t =~= s@.subrange(a as int, n as int));
    let mut b: usize = n;
    while b > a && is_whitespace(s[b - 1])
        invariant
            a <= b <= n == s.len(),
            forall|k: int| b <= k < n ==> is_ws(#[trigger] s@[k]),
        decreases b,
    {
        b = b - 1;
    }
    proof {
        let j = (n - b) as int;
        assert forall|k: int| t.len() - j <= k < t.len() implies is_ws(#[trigger] t[k]) by {
            assert(t[k] == s@[k + a]);
        }
        if j < t.len() {
            assert(t[t.len() - j - 1] == s@[b - 1]);
        }
        lemma_trailing_ws(t, j);
        assert(trim(s@) =~= s@.subrange(a as int, b as int));
    }
    slice_chars(s, a, b)
}

/// `pat` occurs in `s` starting at index `i`.
pub open spec fn matches_at(s: Seq<char>, i: int, pat: Seq<char>) -> bool {
    0 <= i && i + pat.len() <= s.len() && s.subrange(i, i + pat.len()) == pat
}

/// The first index at or after `i` where `pat` occurs in `s`.
pub open spec fn find_from(s: Seq<char>, pat: Seq<char>, i: int) -> Option<int>
    decreases s.len() - i,
{
    if i < 0 || i + pat.len() > s.len() {
        None
    } else if matches_at(s, i, pat) {
        Some(i)
    } else if i >= s.len() {
        None
    } else {
        find_from(s, pat, i + 1)
    }
}

pub proof fn lemma_find_from_bounds(s: Seq<char>, pat: Seq<char>, j: int)
    requires
        0 <= j,
    ensures
        find_from(s, pat, j) matches Some(i) ==> {
            &&& j <= i
            &&& i + pat.len() <= s.len()
            &&& matches_at(s, i, pat)
            &&& forall|k: int| j <= k < i ==> !matches_at(s, k, pat)
        },
        find_from(s, pat, j) is None ==> forall|k: int| j <= k ==> !matches_at(s, k, pat),
    decreases s.len() - j,
{
    if j + pat.len() <= s.len() && !matches_at(s, j, pat) && j < s.len() {
        lemma_find_from_bounds(s, pat, j + 1);
    }
}

pub proof fn lemma_find_from_first(s: Seq<char>, pat: Seq<char>, j: int, m: int)
    requires
        0 <= j <= m,
        forall|k: int| j <= k < m ==> !matches_at(s, k, pat),
        matches_at(s, m, pat),
    ensures
        find_from(s, pat, j) == Some(m),
    decreases m - j,
{
    if j < m {
        lemma_find_from_first(s, pat, j + 1, m);
    }
}

pub proof fn lemma_find_from_none(s: Seq<char>, pat: Seq<char>, j: int)
    requires
        0 <= j,
        forall|k: int| j <= k && k + pat.len() <= s.len() ==> !matches_at(s, k, pat),
    ensures
        find_from(s, pat, j) is None,
    decreases s.len() - j,
{
    if j + pat.len() <= s.len() && j < s.len() {
        lemma_find_from_none(s, pat, j + 1);
    }
}

/// Splits `s` at each non-overlapping occurrence of `pat`, scanning from
/// the left (the pieces `str::split` yields for a non-empty pattern).
pub open spec fn split_seq(s: Seq<char>, pat: Seq<char>) -> Seq<Seq<char>>
    decreases s.len(),
{
    if pat.len() == 0 {
        seq![s]
    } else {
        match find_from(s, pat, 0) {
            Some(i) => {
                proof {
                    lemma_find_from_bounds(s, pat, 0);
                }
                seq![s.take(i)] + split_seq(s.skip(i + pat.len()), pat)
            },
            None => seq![s],
        }
    }
}

pub proof fn lemma_split_nonempty(s: Seq<char>, pat: Seq<char>)
    ensures
        split_seq(s, pat).len() >= 1,
{
}

pub proof fn lemma_matches_shift(s: Seq<char>, start: int, k: int, pat: Seq<char>)
    requires
        0 <= start <= s.len(),
        0 <= k,
    ensures
        matches_at(s.skip(start), k, pat) == matches_at(s, k + start, pat),
{
    if k + pat.len() <= s.len() - start {
        assert(s.skip(start).subrange(k, k + pat.len()) =~= s.subrange(
            k + start,
            k + start + pat.len(),
        ));
    }
}

/// Whether `pat` occurs in `s` at index `i`.
pub fn matches_at_exec(s: &Vec<char>, i: usize, pat: &Vec<char>) -> (r: bool)
    requires
        i + pat.len() <= s.len(),
    ensures
        r == matches_at(s@, i as int, pat@),
{
    let m = pat.len();
    let mut j: usize = 0;
    while j < m
        invariant
            j <= m == pat.len(),
            i + m <= s.len(),
            forall|k: int| 0 <= k < j ==> s@[i + k] == pat@[k],
        decreases m - j,
    {
        if s[i + j] != pat[j] {
            assert(s@.subrange(i as int, i + m)[j as int] != pat@[j as int]);
            return false;
        }
        j = j + 1;
    }
    assert(s@.subrange(i as int, i + m) =~= pat@);
    true
}

/// Splits `s` at each non-overlapping occurrence of `pat`.
pub fn split_chars(s: &Vec<char>, pat: &Vec<char>) -> (r: Vec<Vec<char>>)
    requires
        pat.len() > 0,
    ensures
        r.deep_view() == split_seq(s@, pat@),
{
    let n = s.len();
    let m = pat.len();
    let mut pieces: Vec<Vec<char>> = Vec::new();
    let mut start: usize = 0;
    let mut i: usize = 0;
    assert(s@.skip(0) =~= s@);
    assert(pieces.deep_view() =~= Seq::<Seq<char>>::empty());
    while m <= n && i <= n - m
        invariant
            n == s.len(),
            m == pat.len() > 0,
            start <= i <= n,
            forall|k: int| start <= k < i ==> !matches_at(s@, k, pat@),
            split_seq(s@, pat@) == pieces.deep_view() + split_seq(s@.skip(start as int), pat@),
        decreases n - i,
    {
        if matches_at_exec(s, i, pat) {
            let piece = slice_chars(s, start, i);
            proof {
                let t = s@.skip(start as int);
                assert forall|k: int| 0 <= k < i - start implies !matches_at(t, k, pat@) by {
                    lemma_matches_shift(s@, start as int, k, pat@);
                }
                lemma_matches_shift(s@, start as int, i - start, pat@);
                lemma_find_from_first(t, pat@, 0, i - start);
                assert(t.take(i - start) =~= piece@);
                assert(t.skip(i - start + m) =~= s@.skip(i + m));
                assert(split_seq(t, pat@) == seq![piece@] + split_seq(s@.skip(i + m), pat@));
            }
            let ghost old_pieces = pieces.deep_view();
            assert(piece.deep_view() =~= piece@);
            pieces.push(piece);
            assert(pieces.deep_view() =~= old_pieces.push(piece@));
            start = i + m;
            i = start;
        } else {
            i = i + 1;
        }
    }
    let last = slice_chars(s, start, n);
    proof {
        let t = s@.skip(start as int);
        assert forall|k: int| 0 <= k && k + m <= t.len() implies !matches_at(t, k, pat@) by {
            lemma_matches_shift(s@, start as int, k, pat@);
        }
        lemma_find_from_none(t, pat@, 0);
        assert(t =~= last@);
    }
    let ghost old_pieces = pieces.deep_view();
    assert(last.deep_view() =~= last@);
    pieces.push(last);
    assert(pieces.deep_view() =~= old_pieces.push(last@));
    assert(split_seq(s@, pat@) =~= pieces.deep_view());
    pieces
}

/// The pieces of `parts` joined, with `sep` between neighbours.
pub open spec fn join_seq(parts: Seq<Seq<char>>, sep: Seq<char>) -> Seq<char>
    decreases parts.len(),
{
    if parts.len() == 0 {
        Seq::empty()
    } else if parts.len() == 1 {
        parts[0]
    } else {
        join_seq(parts.drop_last(), sep) + sep + parts.last()
    }
}

pub proof fn lemma_join_prepend(a: Seq<char>, rest: Seq<Seq<char>>, sep: Seq<char>)
    requires
        rest.len() > 0,
    ensures
        join_seq(seq![a] + rest, sep) == a + sep + join_seq(rest, sep),
    decreases rest.len(),
{
    let all = seq![a] + rest;
    assert(all.last() == rest.last());
    if rest.len() == 1 {
        assert(all.drop_last() =~= seq![a]);
        assert(join_seq(seq![a], sep) == a);
        assert(join_seq(rest, sep) == rest[0]);
    } else {
        assert(all.drop_last() =~= seq![a] + rest.drop_last());
        lemma_join_prepend(a, rest.drop_last(), sep);
        assert(a + sep + join_seq(rest, sep) =~= a + sep + join_seq(rest.drop_last(), sep) + sep
            + rest.last());
    }
}

/// Joining the pieces of a split with the separator gives back the text.
pub proof fn lemma_join_split(s: Seq<char>, pat: Seq<char>)
    requires
        pat.len() > 0,
    ensures
        join_seq(split_seq(s, pat), pat) == s,
    decreases s.len(),
{
    lemma_find_from_bounds(s, pat, 0);
    match find_from(s, pat, 0) {
        Some(i) => {
            let rest = s.skip(i + pat.len());
            lemma_join_split(rest, pat);
            lemma_join_prepend(s.take(i), split_seq(rest, pat), pat);
            assert(s.subrange(i, i + pat.len()) == pat);
            assert(s.take(i) + pat + rest =~= s);
        },
        None => {},
    }
}

/// Joins `parts` with `sep` between neighbours.
pub fn join_chars(parts: &Vec<Vec<char>>, sep: &Vec<char>) -> (r: Vec<char>)
    ensures
        r@ == join_seq(parts.deep_view(), sep@),
{
    let mut r: Vec<char> = Vec::new();
    let n = parts.len();
    let mut i: usize = 0;
    while i < n
        invariant
            n == parts.len(),
            i <= n,
            r@ == join_seq(parts.deep_view().take(i as int), sep@),
        decreases n - i,
    {
        let ghost before = r@;
        if i > 0 {
            append_chars(&mut r, sep);
        }
        append_chars(&mut r, &parts[i]);
        proof {
            let dv = parts.deep_view();
            assert(dv.take(i + 1).drop_last() =~= dv.take(i as int));
            assert(parts[i as int].deep_view() =~= parts[i as int]@);
            if i == 0 {
                assert(r@ =~= dv.take(1)[0]);
            } else {
                assert(r@ =~= join_seq(dv.take(i as int), sep@) + sep@ + dv.take(i + 1).last());
            }
        }
        i = i + 1;
    }
    assert(parts.deep_view().take(n as int) =~= parts.deep_view());
    r
}

/// Appends the characters of `tail` to `r`.
pub fn append_chars(r: &mut Vec<char>, tail: &Vec<char>)
    ensures
        final(r)@ == old(r)@ + tail@,
{
    let n = tail.len();
    let mut i: usize = 0;
    while i < n
        invariant
            n == tail.len(),
            i <= n,
            r@ == old(r)@ + tail@.take(i as int),
        decreases n - i,
    {
        r.push(tail[i]);
        i = i + 1;
        assert(r@ =~= old(r)@ + tail@.take(i as int));
    }
    assert(tail@.take(n as int) =~= tail@);
}

/// `l` without one trailing carriage return.
pub open spec fn strip_cr(l: Seq<char>) -> Seq<char> {
    if l.len() > 0 && l.last() == '\r' {
        l.drop_last()
    } else {
        l
    }
}

/// The lines of `s` as `str::lines` yields them: split at each `\n`, each
/// line that ended with `\n` loses one trailing `\r`, and a final line
/// ending adds no empty line.
pub open spec fn lines_seq(s: Seq<char>) -> Seq<Seq<char>> {
    let ps = split_seq(s, seq!['\n']);
    let body = ps.drop_last().map_values(|p: Seq<char>| strip_cr(p));
    if ps.last().len() == 0 {
        body
    } else {
        body.push(ps.last())
    }
}

/// The lines of `s` (see `lines_seq`).
pub fn lines_chars(s: &Vec<char>) -> (r: Vec<Vec<char>>)
    ensures
        r.deep_view() == lines_seq(s@),
{
    let nl: Vec<char> = vec!['\n'];
    assert(nl@ =~= seq!['\n']);
    let ps = split_chars(s, &nl);
    proof {
        lemma_split_nonempty(s@, nl@);
    }
    let ghost psv = ps.deep_view();
    let n = ps.len();
    let mut r: Vec<Vec<char>> = Vec::new();
    let mut i: usize = 0;
    while i + 1 < n
        invariant
            n == ps.len() >= 1,
            psv == ps.deep_view(),
            i + 1 <= n,
            r.deep_view() == psv.take(i as int).map_values(|p: Seq<char>| strip_cr(p)),
        decreases n - i,
    {
        let p = &ps[i];
        let len = p.len();
        let line = if len > 0 && p[len - 1] == '\r' {
            slice_chars(p, 0, len - 1)
        } else {
            slice_chars(p, 0, len)
        };
        proof {
            assert(p.deep_view() =~= p@);
            assert(line@ =~= strip_cr(psv[i as int]));
            assert(line.deep_view() =~= line@);
        }
        let ghost before = r.deep_view();
        r.push(line);
        proof {
            assert(r.deep_view() =~= before.push(line@));
            assert(psv.take(i + 1).map_values(|p: Seq<char>| strip_cr(p)) =~= psv.take(
                i as int,
            ).map_values(|p: Seq<char>| strip_cr(p)).push(strip_cr(psv[i as int])));
        }
        i = i + 1;
    }
    assert(psv.take(i as int) =~= psv.drop_last());
    let last = &ps[n - 1];
    assert(last.deep_view() =~= last@);
    assert(psv.last() == last@);
    assert(psv == split_seq(s@, seq!['\n']));
    assert(r.deep_view() == psv.drop_last().map_values(|p: Seq<char>| strip_cr(p)));
    if last.len() > 0 {
        let copy = slice_chars(last, 0, last.len());
        assert(copy.deep_view() =~= copy@);
        assert(copy@ =~= last@);
        let ghost before = r.deep_view();
        r.push(copy);
        assert(r.deep_view() =~= before.push(copy@));
        assert(r.deep_view() =~= lines_seq(s@));
    } else {
        assert(r.deep_view() =~= lines_seq(s@));
    }
    r
}

/// The text before and after the first occurrence of `c` in `s`.
pub open spec fn split_once_seq(s: Seq<char>, c: char) -> Option<(Seq<char>, Seq<char>)> {
    match find_from(s, seq![c], 0) {
        Some(i) => Some((s.take(i), s.skip(i + 1))),
        None => None,
    }
}

/// Splits `s` at the first occurrence of `c`.
pub fn split_once_chars(s: &Vec<char>, c: char) -> (r: Option<(Vec<char>, Vec<char>)>)
    ensures
        match split_once_seq(s@, c) {
            Some((a, b)) => r matches Some((x, y)) && x@ == a && y@ == b,
            None => r is None,
        },
{
    let n = s.len();
    let mut i: usize = 0;
    while i < n
        invariant
            n == s.len(),
            i <= n,
            forall|k: int| 0 <= k < i ==> s@[k] != c,
        decreases n - i,
    {
        if s[i] == c {
            proof {
                assert forall|k: int| 0 <= k < i implies !matches_at(s@, k, seq![c]) by {
                    assert(s@.subrange(k, k + 1)[0] == s@[k]);
                }
                assert(s@.subrange(i as int, i + 1) =~= seq![c]);
                lemma_find_from_first(s@, seq![c], 0, i as int);
            }
            let a = slice_chars(s, 0, i);
            let b = slice_chars(s, i + 1, n);
            assert(a@ =~= s@.take(i as int));
            assert(b@ =~= s@.skip(i + 1));
            return Some((a, b));
        }
        i = i + 1;
    }
    proof {
        assert forall|k: int| 0 <= k && k + 1 <= s@.len() implies !matches_at(s@, k, seq![c]) by {
            assert(s@.subrange(k, k + 1)[0] == s@[k]);
        }
        lemma_find_from_none(s@, seq![c], 0);
    }
    None
}

/// Whether two character vectors hold the same characters.
pub fn chars_eq(a: &Vec<char>, b: &Vec<char>) -> (r: bool)
    ensures
        r == (a@ == b@),
{
    if a.len() != b.len() {
        return false;
    }
    let n = a.len();
    let mut i: usize = 0;
    while i < n
        invariant
            n == a.len() == b.len(),
            i <= n,
            forall|k: int| 0 <= k < i ==> a@[k] == b@[k],
        decreases n - i,
    {
        if a[i] != b[i] {
            return false;
        }
        i = i + 1;
    }
    assert(a@ =~= b@);
    true
}

/// The characters of `s`.
pub fn chars_of(s: &str) -> (r: Vec<char>)
    ensures
        r@ == s@,
{
    let n = s.unicode_len();
    let mut r: Vec<char> = Vec::new();
    let mut i: usize = 0;
    while i < n
        invariant
            n == s@.len(),
            i <= n,
            r@ == s@.take(i as int),
        decreases n - i,
    {
        r.push(s.get_char(i));
        i = i + 1;
        assert(r@ =~= s@.take(i as int));
    }
    assert(s@.take(n as int) =~= s@);
    r
}

/// A `String` holding the characters of `v`.
#[verifier::external_body]
pub(crate) fn string_from_chars(v: &Vec<char>) -> (s: String)
    ensures
        s@ == v@,
{
    String::from_iter(v.iter())
}

/// The characters of `s`.
pub fn string_chars(s: &String) -> (r: Vec<char>)
    ensures
        r@ == s@,
{
    chars_of(s.as_str())
}

/// The length of `s` in bytes of its UTF-8 encoding (what `str::len` gives).
pub open spec fn utf8_len(s: Seq<char>) -> nat {
    vstd::utf8::encode_utf8(s).len()
}

/// The length of `s` in bytes (`String::len`). vstd states `str::len`
/// only up to a cast to `usize`; a `String` never holds more than
/// `isize::MAX` bytes, so the length is exact.
#[verifier::external_body]
pub(crate) fn byte_len(s: &String) -> (n: usize)
    ensures
        n == utf8_len(s@),
{
    s.len()
}

/// What `format!("{:?}", s)` gives for a string.
pub uninterp spec fn debug_quoted(s: Seq<char>) -> Seq<char>;

/// The Debug form of a string (`format!("{:?}", ..)`).
#[verifier::external_body]
pub(crate) fn debug_string(s: &String) -> (r: String)
    ensures
        r@ == debug_quoted(s@),
{
    format!("{:?}", s)
}

} // verus!
