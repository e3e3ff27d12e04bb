use vstd::prelude::*;

verus! {

/// The ANSI foreground colors used by the built-in severity levels.
#[derive(Clone, Copy, Debug)]
pub enum Color {
    Red,
    Yellow,
    Green,
    Blue,
    Magenta,
}

/// A semantic style request: an optional foreground color and a weight.
///
/// Values of this type only describe the requested look; turning a request
/// into concrete escape sequences is the styling collaborator's business.
#[derive(Clone, Copy, Debug)]
pub struct StyleSpec {
    pub color: Option<Color>,
    pub bold: bool,
}

/// The escape sequence that switches the terminal's foreground to `c`.
pub open spec fn color_escape(c: Color) -> Seq<char> {
    match c {
        Color::Red => "\u{1b}[31m"@,
        Color::Yellow => "\u{1b}[33m"@,
        Color::Green => "\u{1b}[32m"@,
        Color::Blue => "\u{1b}[34m"@,
        Color::Magenta => "\u{1b}[35m"@,
    }
}

/// A style that requests neither a color nor boldness.
pub open spec fn is_plain(s: StyleSpec) -> bool {
    !s.bold && s.color is None
}

/// The escape sequences that enable `s`: boldness first, then the color.
pub open spec fn style_on(s: StyleSpec) -> Seq<char> {
    (if s.bold {
        "\u{1b}[1m"@
    } else {
        Seq::<char>::empty()
    }) + (match s.color {
        Some(c) => color_escape(c),
        None => Seq::<char>::empty(),
    })
}

/// The escape sequence that undoes `s`: a reset, elided for a plain style.
pub open spec fn style_off(s: StyleSpec) -> Seq<char> {
    if is_plain(s) {
        Seq::<char>::empty()
    } else {
        "\u{1b}[0m"@
    }
}

/// `text` wrapped in the escape sequences that enable and undo `s`.
pub open spec fn styled(s: StyleSpec, text: Seq<char>) -> Seq<char> {
    style_on(s) + text + style_off(s)
}

/// Relies on `anstyle::Style`'s `Display` impl: the plain form writes the
/// bold escape followed by the foreground-color escape of the style's
/// attributes, and the alternate form writes the reset escape, elided when
/// the style has no attribute at all.
#[verifier::external_body]
pub(crate) fn paint(s: &StyleSpec, text: &str) -> (r: String)
    ensures
        r@ == styled(*s, text@),
{
    let mut st = anstyle::Style::new();
    if s.bold {
        st = st.bold();
    }
    if let Some(c) = s.color {
        st = st.fg_color(Some(anstyle::Color::Ansi(match c {
            Color::Red => anstyle::AnsiColor::Red,
            Color::Yellow => anstyle::AnsiColor::Yellow,
            Color::Green => anstyle::AnsiColor::Green,
            Color::Blue => anstyle::AnsiColor::Blue,
            Color::Magenta => anstyle::AnsiColor::Magenta,
        })));
    }
    format!("{st}{text}{st:#}")
}

} // verus!
