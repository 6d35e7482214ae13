//! Terminal styles, applied to text through the `console` crate, and
//! text that is shown with a prefix and a style only once it has content.
use vstd::prelude::*;

verus! {

/// A basic terminal colour.
#[derive(Clone, Copy, PartialEq, Eq, Structural)]
pub enum Color {
    Black,
    Red,
    Green,
    Yellow,
    Blue,
    Magenta,
    Cyan,
    White,
}

/// A terminal style: an optional foreground colour, whether that colour is
/// the bright variant, and the bold and underlined attributes.
#[derive(Clone, Copy, PartialEq, Eq, Structural)]
pub struct TextStyle {
    pub fg: Option<Color>,
    pub bright: bool,
    pub bold: bool,
    pub underlined: bool,
}

/// The escape sequence that sets foreground colour `c`: codes 30 to 37, or
/// for the bright variant the 256-colour codes 8 to 15.
pub open spec fn fg_code(c: Color, bright: bool) -> Seq<char> {
    match c {
        Color::Black => if bright { "\x1b[38;5;8m"@ } else { "\x1b[30m"@ },
        Color::Red => if bright { "\x1b[38;5;9m"@ } else { "\x1b[31m"@ },
        Color::Green => if bright { "\x1b[38;5;10m"@ } else { "\x1b[32m"@ },
        Color::Yellow => if bright { "\x1b[38;5;11m"@ } else { "\x1b[33m"@ },
        Color::Blue => if bright { "\x1b[38;5;12m"@ } else { "\x1b[34m"@ },
        Color::Magenta => if bright { "\x1b[38;5;13m"@ } else { "\x1b[35m"@ },
        Color::Cyan => if bright { "\x1b[38;5;14m"@ } else { "\x1b[36m"@ },
        Color::White => if bright { "\x1b[38;5;15m"@ } else { "\x1b[37m"@ },
    }
}

/// The escape sequences written before styled text: the colour, then bold,
/// then underline.
pub open spec fn style_start(style: TextStyle) -> Seq<char> {
    (match style.fg {
        Some(c) => fg_code(c, style.bright),
        None => Seq::empty(),
    }) + (if style.bold {
        "\x1b[1m"@
    } else {
        Seq::empty()
    }) + (if style.underlined {
        "\x1b[4m"@
    } else {
        Seq::empty()
    })
}

/// The reset written after styled text, when anything was set.
pub open spec fn style_end(style: TextStyle) -> Seq<char> {
    if style.fg is Some || style.bold || style.underlined {
        "\x1b[0m"@
    } else {
        Seq::empty()
    }
}

/// What `console` writes for `text` in `style` when styling is on.
pub open spec fn styled(style: TextStyle, text: Seq<char>) -> Seq<char> {
    style_start(style) + text + style_end(style)
}

impl TextStyle {
    /// The style with no colour and no attributes.
    pub fn plain() -> (r: Self)
        ensures
            r == (TextStyle { fg: None, bright: false, bold: false, underlined: false }),
    {
        TextStyle { fg: None, bright: false, bold: false, underlined: false }
    }

    /// The style with foreground `c` and nothing else.
    pub fn color(c: Color) -> (r: Self)
        ensures
            r == (TextStyle { fg: Some(c), bright: false, bold: false, underlined: false }),
    {
        TextStyle { fg: Some(c), bright: false, bold: false, underlined: false }
    }

    /// This style, made bright.
    pub fn brightened(self) -> (r: Self)
        ensures
            r == (TextStyle { bright: true, ..self }),
    {
        TextStyle { bright: true, ..self }
    }

    /// This style, made bold.
    pub fn emboldened(self) -> (r: Self)
        ensures
            r == (TextStyle { bold: true, ..self }),
    {
        TextStyle { bold: true, ..self }
    }

    /// This style, made underlined.
    pub fn with_underline(self) -> (r: Self)
        ensures
            r == (TextStyle { underlined: true, ..self }),
    {
        TextStyle { underlined: true, ..self }
    }
}

/// The name `console` gives a colour in a dotted style.
pub open spec fn color_name(c: Color) -> Seq<char> {
    match c {
        Color::Black => "black"@,
        Color::Red => "red"@,
        Color::Green => "green"@,
        Color::Yellow => "yellow"@,
        Color::Blue => "blue"@,
        Color::Magenta => "magenta"@,
        Color::Cyan => "cyan"@,
        Color::White => "white"@,
    }
}

/// The parts of a style in `console`'s dotted notation: the colour, then
/// `bright`, `bold` and `underlined` when set.
pub open spec fn style_parts(style: TextStyle) -> Seq<Seq<char>> {
    (match style.fg {
        Some(c) => seq![color_name(c)],
        None => Seq::empty(),
    }) + (if style.bright {
        seq!["bright"@]
    } else {
        Seq::empty()
    }) + (if style.bold {
        seq!["bold"@]
    } else {
        Seq::empty()
    }) + (if style.underlined {
        seq!["underlined"@]
    } else {
        Seq::empty()
    })
}

/// A style in `console`'s dotted notation, such as `cyan.bright.bold`.
pub open spec fn dotted(style: TextStyle) -> Seq<char> {
    crate::text::join_seq(style_parts(style), "."@)
}

/// `text` styled, with styling forced on, in the style that `spec` names in
/// `console`'s dotted notation (`console::Style::from_dotted_str`): for
/// each of this library's styles with that name, the escape sequences that
/// `console` writes for it, the text, and a reset when anything was set.
#[verifier::external_body]
fn paint_dotted(spec: &str, text: &str) -> (r: String)
    ensures
        forall|st: TextStyle| #[trigger] dotted(st) == spec@ ==> r@ == styled(st, text@),
{
    console::Style::from_dotted_str(spec).force_styling(true).apply_to(text).to_string()
}

/// `style` in `console`'s dotted notation.
pub fn dotted_style(style: &TextStyle) -> (r: String)
    ensures
        r@ == dotted(*style),
{
    let mut parts: Vec<&str> = Vec::new();
    if let Some(c) = style.fg {
        let name = match c {
            Color::Black => "black",
            Color::Red => "red",
            Color::Green => "green",
            Color::Yellow => "yellow",
            Color::Blue => "blue",
            Color::Magenta => "magenta",
            Color::Cyan => "cyan",
            Color::White => "white",
        };
        parts.push(name);
    }
    if style.bright {
        parts.push("bright");
    }
    if style.bold {
        parts.push("bold");
    }
    if style.underlined {
        parts.push("underlined");
    }
    let ghost pv = parts@.map_values(|p: &str| p@);
    assert(pv =~= style_parts(*style));
    let mut r = String::new();
    let mut i: usize = 0;
    while i < parts.len()
        invariant
            i <= parts.len(),
            pv == parts@.map_values(|p: &str| p@),
            r@ == crate::text::join_seq(pv.take(i as int), "."@),
        decreases parts.len() - i,
    {
        proof {
            assert(pv.take(i + 1).drop_last() =~= pv.take(i as int));
            assert(pv.take(i + 1).last() == pv[i as int]);
        }
        if i > 0 {
            r.append(".");
        }
        r.append(parts[i]);
        assert(r@ =~= crate::text::join_seq(pv.take(i + 1), "."@));
        i = i + 1;
    }
    assert(pv.take(parts.len() as int) =~= pv);
    r
}

/// `text` in `style`, with styling forced on (`console::Style` with
/// `force_styling(true)`, applied to `text`): the escape sequences that
/// `console` writes for the style, the text, and a reset when anything was
/// set.
pub(crate) fn paint(style: &TextStyle, text: &str) -> (r: String)
    ensures
        r@ == styled(*style, text@),
{
    let d = dotted_style(style);
    paint_dotted(d.as_str(), text)
}

/// Whether `console` styles text written to standard output
/// (`console::colors_enabled`). It depends on the terminal, the
/// environment and earlier settings, so nothing is stated of it.
#[verifier::external_body]
pub(crate) fn colors_enabled() -> (r: bool) {
    console::colors_enabled()
}

/// What `console::pad_str` gives for `text`, `width` columns wide,
/// left-aligned, without truncation.
pub uninterp spec fn padded_left(text: Seq<char>, width: nat) -> Seq<char>;

/// Whether every character of `s` is printable ASCII (space to `~`):
/// each takes one display column, and none starts an escape sequence.
pub open spec fn printable_ascii(s: Seq<char>) -> bool {
    forall|i: int| 0 <= i < s.len() ==> 0x20 <= #[trigger] (s[i] as int) <= 0x7e
}

/// `n` spaces.
pub open spec fn spaces(n: nat) -> Seq<char> {
    Seq::new(n, |i: int| ' ')
}

/// `text` padded on the right to `width` display columns: spaces after
/// printable ASCII text up to `width`, and otherwise what `padded_left`
/// names.
pub open spec fn pad_cell(text: Seq<char>, width: nat) -> Seq<char> {
    if printable_ascii(text) {
        if text.len() >= width {
            text
        } else {
            text + spaces((width - text.len()) as nat)
        }
    } else {
        padded_left(text, width)
    }
}

/// `text` padded on the right to `width` display columns
/// (`console::pad_str` with left alignment and no truncation). For
/// printable ASCII text, whose width is its length, that is the text with
/// spaces after it up to `width`, or the text itself when it is already as
/// wide; for other text the display width that `console` measures (with
/// `unicode-width`, escape sequences left out) is only named.
#[verifier::external_body]
pub(crate) fn pad_left_aligned(text: &str, width: usize) -> (r: String)
    ensures
        r@ == padded_left(text@, width as nat),
        printable_ascii(text@) ==> r@ == (if text@.len() >= width {
            text@
        } else {
            text@ + spaces((width - text@.len()) as nat)
        }),
{
    console::pad_str(text, width, console::Alignment::Left, None).to_string()
}

/// Text that is shown, after a prefix and in a style, only once something
/// has been pushed to it.
pub struct OptionalStyled {
    pub content: String,
    pub prefix: String,
    pub some: bool,
    pub style: TextStyle,
}

/// How an `OptionalStyled` with these parts is shown.
pub open spec fn optional_styled_text(
    some: bool,
    prefix: Seq<char>,
    style: TextStyle,
    content: Seq<char>,
) -> Seq<char> {
    if some {
        prefix + styled(style, content)
    } else {
        Seq::empty()
    }
}

impl OptionalStyled {
    /// Shown text `content` in `style`, with no prefix.
    pub fn new(content: &str, style: TextStyle) -> (r: Self)
        ensures
            r.content@ == content@,
            r.prefix@ == Seq::<char>::empty(),
            r.some,
            r.style == style,
    {
        OptionalStyled { content: content.to_owned(), prefix: String::new(), some: true, style }
    }

    /// Empty text in `style`, shown as nothing until pushed to.
    pub fn with_style(style: TextStyle) -> (r: Self)
        ensures
            r.content@ == Seq::<char>::empty(),
            r.prefix@ == Seq::<char>::empty(),
            !r.some,
            r.style == style,
    {
        OptionalStyled { content: String::new(), prefix: String::new(), some: false, style }
    }

    /// The same text with `prefix` shown before it.
    pub fn prefixed(self, prefix: &str) -> (r: Self)
        ensures
            r.prefix@ == prefix@,
            r.content == self.content,
            r.some == self.some,
            r.style == self.style,
    {
        OptionalStyled { prefix: prefix.to_owned(), ..self }
    }

    /// Appends `ch` and marks the text as shown.
    pub fn push(&mut self, ch: char)
        ensures
            final(self).content@ == old(self).content@.push(ch),
            final(self).some,
            final(self).prefix == old(self).prefix,
            final(self).style == old(self).style,
    {
        self.some = true;
        let v = vec![ch];
        assert(v@ =~= seq![ch]);
        let s = crate::text::string_from_chars(&v);
        self.content.append(s.as_str());
    }

    /// Appends `string` and marks the text as shown.
    pub fn push_str(&mut self, string: &str)
        ensures
            final(self).content@ == old(self).content@ + string@,
            final(self).some,
            final(self).prefix == old(self).prefix,
            final(self).style == old(self).style,
    {
        self.some = true;
        self.content.append(string);
    }

    /// The shown text: nothing until pushed to, then the prefix and the
    /// styled content.
    pub fn to_string(&self) -> (r: String)
        ensures
            r@ == optional_styled_text(self.some, self.prefix@, self.style, self.content@),
    {
        if self.some {
            let mut r = self.prefix.clone();
            let painted = paint(&self.style, self.content.as_str());
            r.append(painted.as_str());
            r
        } else {
            String::new()
        }
    }
}

} // verus!
