//! How a summary of outdated dependencies is printed: a header of column
//! titles, then a row per dependency, the columns padded to their widths.
use crate::outdated::summary::{deps_view, DepView, OutdatedDep, OutdatedSummary};
use crate::style::{colors_enabled, pad_cell, pad_left_aligned, paint, styled, TextStyle};
use crate::text::{byte_len, utf8_len};
use vstd::prelude::*;

verus! {

/// `n` spaces (none when `n` is not positive).
pub open spec fn spaces(n: int) -> Seq<char> {
    Seq::new(if n > 0 { n as nat } else { 0 }, |i: int| ' ')
}

/// The style of the column titles: bold and underlined.
pub open spec fn title_style() -> TextStyle {
    TextStyle { fg: None, bright: false, bold: true, underlined: true }
}

/// A column title, styled when colours are on.
pub open spec fn title(text: Seq<char>, colors: bool) -> Seq<char> {
    if colors {
        styled(title_style(), text)
    } else {
        text
    }
}

/// The header line: each title followed by spaces up to its column's
/// width, columns separated by two spaces, indented by four.
pub open spec fn table_header(name_w: nat, version_w: nat, latest_w: nat, colors: bool) -> Seq<char> {
    "    "@ + title("Name"@, colors) + spaces(name_w - 4) + "  "@ + title("Version"@, colors)
        + spaces(version_w - 7) + "  "@ + title("Latest"@, colors) + spaces(latest_w - 6) + "  "@
        + title("Parent"@, colors) + "\n"@
}

/// The line of one dependency: name and version padded to their columns,
/// the latest version, and the parent when there is one (the latest
/// version then padded to its column first).
pub open spec fn dep_row(d: DepView, name_w: nat, version_w: nat, latest_w: nat) -> Seq<char> {
    "    "@ + pad_cell(d.name, name_w) + "  "@ + pad_cell(d.version, version_w) + "  "@
        + d.latest + (match d.parent {
        Some(p) => (if utf8_len(d.latest) < latest_w {
            spaces(latest_w - utf8_len(d.latest))
        } else {
            Seq::empty()
        }) + "  "@ + p,
        None => Seq::empty(),
    }) + "\n"@
}

/// The lines of `deps`, in order.
pub open spec fn dep_rows(deps: Seq<DepView>, name_w: nat, version_w: nat, latest_w: nat) -> Seq<char>
    decreases deps.len(),
{
    if deps.len() == 0 {
        Seq::empty()
    } else {
        dep_rows(deps.drop_last(), name_w, version_w, latest_w) + dep_row(
            deps.last(),
            name_w,
            version_w,
            latest_w,
        )
    }
}

/// The printed summary: the header, then the dependencies' lines.
pub open spec fn summary_table(s: OutdatedSummary, colors: bool) -> Seq<char> {
    table_header(
        s.max_name_length as nat,
        s.max_version_length as nat,
        s.max_latest_length as nat,
        colors,
    ) + dep_rows(
        deps_view(s.deps@),
        s.max_name_length as nat,
        s.max_version_length as nat,
        s.max_latest_length as nat,
    )
}

/// Appends `n` spaces (none when `n` is zero).
fn push_spaces(r: &mut String, n: usize)
    ensures
        final(r)@ == old(r)@ + spaces(n as int),
{
    let mut i: usize = 0;
    while i < n
        invariant
            i <= n,
            r@ == old(r)@ + spaces(i as int),
        decreases n - i,
    {
        r.append(" ");
        assert(spaces(i + 1) =~= spaces(i as int) + " "@) by {
            reveal_strlit(" ");
        }
        i = i + 1;
    }
}

/// Appends a column title.
fn push_title(r: &mut String, text: &str, colors: bool)
    ensures
        final(r)@ == old(r)@ + title(text@, colors),
{
    if colors {
        let t = paint(&TextStyle { fg: None, bright: false, bold: true, underlined: true }, text);
        r.append(t.as_str());
    } else {
        r.append(text);
    }
}

/// Appends the line of `d`.
fn push_row(r: &mut String, d: &OutdatedDep, name_w: usize, version_w: usize, latest_w: usize)
    ensures
        final(r)@ == old(r)@ + dep_row(d@, name_w as nat, version_w as nat, latest_w as nat),
{
    r.append("    ");
    let name = pad_left_aligned(d.name.as_str(), name_w);
    r.append(name.as_str());
    r.append("  ");
    let version = pad_left_aligned(d.version.as_str(), version_w);
    r.append(version.as_str());
    r.append("  ");
    r.append(d.latest.as_str());
    let ghost mid = r@;
    assert(mid =~= old(r)@ + "    "@ + pad_cell(d.name@, name_w as nat) + "  "@ + pad_cell(
        d.version@,
        version_w as nat,
    ) + "  "@ + d.latest@);
    if let Some(parent) = &d.parent {
        let ll = byte_len(&d.latest);
        let ghost before_pad = r@;
        if ll < latest_w {
            let pad = pad_left_aligned("", latest_w - ll);
            proof {
                reveal_strlit("");
                assert(""@ =~= Seq::<char>::empty());
                assert(crate::style::printable_ascii(""@));
                assert(pad@ =~= spaces(latest_w - utf8_len(d.latest@)));
            }
            r.append(pad.as_str());
        }
        assert(r@ =~= before_pad + (if utf8_len(d.latest@) < latest_w {
            spaces(latest_w - utf8_len(d.latest@))
        } else {
            Seq::empty()
        }));
        r.append("  ");
        r.append(parent.as_str());
    }
    r.append("\n");
    assert(r@ =~= old(r)@ + dep_row(d@, name_w as nat, version_w as nat, latest_w as nat));
}

impl OutdatedSummary {
    /// The printed summary, with the column titles styled when `colors`.
    pub fn table_text(&self, colors: bool) -> (r: String)
        ensures
            r@ == summary_table(*self, colors),
    {
        let mut r = String::new();
        r.append("    ");
        push_title(&mut r, "Name", colors);
        if self.max_name_length > 4 {
            push_spaces(&mut r, self.max_name_length - 4);
        }
        r.append("  ");
        push_title(&mut r, "Version", colors);
        if self.max_version_length > 7 {
            push_spaces(&mut r, self.max_version_length - 7);
        }
        r.append("  ");
        push_title(&mut r, "Latest", colors);
        if self.max_latest_length > 6 {
            push_spaces(&mut r, self.max_latest_length - 6);
        }
        r.append("  ");
        push_title(&mut r, "Parent", colors);
        r.append("\n");
        let ghost nw = self.max_name_length as nat;
        let ghost vw = self.max_version_length as nat;
        let ghost lw = self.max_latest_length as nat;
        assert(spaces(nw - 4) =~= (if self.max_name_length > 4 { spaces(self.max_name_length - 4) } else { Seq::empty() }));
        assert(spaces(vw - 7) =~= (if self.max_version_length > 7 { spaces(self.max_version_length - 7) } else { Seq::empty() }));
        assert(spaces(lw - 6) =~= (if self.max_latest_length > 6 { spaces(self.max_latest_length - 6) } else { Seq::empty() }));
        assert(r@ =~= table_header(nw, vw, lw, colors));
        let ghost header = r@;
        let ghost dv = deps_view(self.deps@);
        let mut i: usize = 0;
        while i < self.deps.len()
            invariant
                i <= self.deps.len(),
                dv == deps_view(self.deps@),
                nw == self.max_name_length,
                vw == self.max_version_length,
                lw == self.max_latest_length,
                r@ == header + dep_rows(dv.take(i as int), nw, vw, lw),
            decreases self.deps.len() - i,
        {
            push_row(
                &mut r,
                &self.deps[i],
                self.max_name_length,
                self.max_version_length,
                self.max_latest_length,
            );
            assert(dv.take(i + 1).drop_last() =~= dv.take(i as int));
            assert(dv.take(i + 1).last() == self.deps@[i as int]@);
            assert(dep_rows(dv.take(i + 1), nw, vw, lw) == dep_rows(dv.take(i as int), nw, vw, lw)
                + dep_row(self.deps@[i as int]@, nw, vw, lw));
            assert(r@ =~= header + dep_rows(dv.take(i + 1), nw, vw, lw));
            i = i + 1;
        }
        assert(dv.take(self.deps.len() as int) =~= dv);
        r
    }

    /// The printed summary, the column titles styled when `console` styles
    /// standard output.
    pub fn to_string(&self) -> (r: String)
        ensures
            r@ == summary_table(*self, true) || r@ == summary_table(*self, false),
    {
        let colors = colors_enabled();
        self.table_text(colors)
    }
}

} // verus!
