use vstd::prelude::*;

use crate::style::Color;
use crate::style::StyleSpec;
use crate::style::paint;
use crate::style::styled;

verus! {

/// Specifies how a value renders as a message tag.
///
/// This is the crate's one extension point: any type that can supply a style
/// request and a short label may prefix a message.
pub trait Render {
    /// The style this tag asks for.
    spec fn style_spec(&self) -> StyleSpec;

    /// The label this tag shows.
    spec fn label_spec(&self) -> Seq<char>;

    /// Converts the given value to a style.
    fn style(&self) -> (s: StyleSpec)
        ensures
            s == self.style_spec(),
    ;

    /// Displays the given value without styling.
    fn label(&self) -> (l: String)
        ensures
            l@ == self.label_spec(),
    ;

    /// Renders the given value as a colorized `String`.
    fn render(&self) -> (r: String)
        ensures
            r@ == styled(self.style_spec(), self.label_spec()),
    {
        let s = self.style();
        let l = self.label();
        paint(&s, l.as_str())
    }
}

/// The five built-in severity levels.
#[derive(Clone, Copy, PartialEq, Eq, Structural, Debug)]
pub enum Level {
    Error,
    Warn,
    Info,
    Debug,
    Trace,
}

/// The fixed style of each built-in level: bold red, yellow, green, blue,
/// magenta, in severity order.
pub open spec fn level_style(l: Level) -> StyleSpec {
    match l {
        Level::Error => StyleSpec { color: Some(Color::Red), bold: true },
        Level::Warn => StyleSpec { color: Some(Color::Yellow), bold: false },
        Level::Info => StyleSpec { color: Some(Color::Green), bold: false },
        Level::Debug => StyleSpec { color: Some(Color::Blue), bold: false },
        Level::Trace => StyleSpec { color: Some(Color::Magenta), bold: false },
    }
}

/// The fixed label of each built-in level: its lowercase name.
pub open spec fn level_label(l: Level) -> Seq<char> {
    match l {
        Level::Error => "error"@,
        Level::Warn => "warn"@,
        Level::Info => "info"@,
        Level::Debug => "debug"@,
        Level::Trace => "trace"@,
    }
}

impl Render for Level {
    open spec fn style_spec(&self) -> StyleSpec {
        level_style(*self)
    }

    open spec fn label_spec(&self) -> Seq<char> {
        level_label(*self)
    }

    fn style(&self) -> (s: StyleSpec) {
        match self {
            Level::Error => StyleSpec { color: Some(Color::Red), bold: true },
            Level::Warn => StyleSpec { color: Some(Color::Yellow), bold: false },
            Level::Info => StyleSpec { color: Some(Color::Green), bold: false },
            Level::Debug => StyleSpec { color: Some(Color::Blue), bold: false },
            Level::Trace => StyleSpec { color: Some(Color::Magenta), bold: false },
        }
    }

    fn label(&self) -> (l: String) {
        match self {
            Level::Error => "error".to_string(),
            Level::Warn => "warn".to_string(),
            Level::Info => "info".to_string(),
            Level::Debug => "debug".to_string(),
            Level::Trace => "trace".to_string(),
        }
    }
}

/// The punctuation between a rendered tag and the message body.
#[derive(Clone, Copy, PartialEq, Eq, Structural, Debug)]
pub enum Separator {
    Colon,
}

impl Default for Separator {
    fn default() -> (s: Self)
        ensures
            s == Separator::Colon,
    {
        Separator::Colon
    }
}

impl Render for Separator {
    open spec fn style_spec(&self) -> StyleSpec {
        StyleSpec { color: None, bold: true }
    }

    open spec fn label_spec(&self) -> Seq<char> {
        ": "@
    }

    fn style(&self) -> (s: StyleSpec) {
        StyleSpec { color: None, bold: true }
    }

    fn label(&self) -> (l: String) {
        ": ".to_string()
    }
}

/// A caller-defined tag: an arbitrary label under an arbitrary style.
#[derive(Debug)]
pub struct Custom {
    pub style: StyleSpec,
    pub label: String,
}

impl Render for Custom {
    open spec fn style_spec(&self) -> StyleSpec {
        self.style
    }

    open spec fn label_spec(&self) -> Seq<char> {
        self.label@
    }

    fn style(&self) -> (s: StyleSpec) {
        self.style
    }

    fn label(&self) -> (l: String) {
        self.label.clone()
    }
}

} // verus!
