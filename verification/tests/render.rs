use advise::Advise;
use advise::Color;
use advise::Custom;
use advise::Level;
use advise::Render;
use advise::Separator;
use advise::StyleSpec;

const BOLD: &str = "\u{1b}[1m";
const RESET: &str = "\u{1b}[0m";
const SEP: &str = "\u{1b}[1m: \u{1b}[0m";

/// Removes every ANSI escape sequence (`ESC [ ... m`) from `s`.
fn destyle(s: &str) -> String {
    let mut out = String::new();
    let mut chars = s.chars().peekable();
    while let Some(c) = chars.next() {
        if c == '\u{1b}' {
            while let Some(&d) = chars.peek() {
                chars.next();
                if d == 'm' {
                    break;
                }
            }
        } else {
            out.push(c);
        }
    }
    out
}

#[test]
fn error_line() {
    let line = Advise::new(Level::Error, "It broke.".to_string()).render();
    assert_eq!(line, format!("{BOLD}\u{1b}[31merror{RESET}{SEP}It broke."));
}

#[test]
fn warn_line() {
    let line = Advise::new(Level::Warn, "Are you sure?".to_string()).render();
    assert_eq!(line, format!("\u{1b}[33mwarn{RESET}{SEP}Are you sure?"));
}

#[test]
fn info_line() {
    let line = Advise::new(Level::Info, "For your information...".to_string()).render();
    assert_eq!(line, format!("\u{1b}[32minfo{RESET}{SEP}For your information..."));
}

#[test]
fn debug_line() {
    let line = Advise::new(Level::Debug, "This should help.".to_string()).render();
    assert_eq!(line, format!("\u{1b}[34mdebug{RESET}{SEP}This should help."));
}

#[test]
fn trace_line() {
    let line = Advise::new(Level::Trace, "A specific thing happened.".to_string()).render();
    assert_eq!(line, format!("\u{1b}[35mtrace{RESET}{SEP}A specific thing happened."));
}

#[test]
fn level_labels_are_lowercase_names() {
    assert_eq!(Level::Error.label(), "error");
    assert_eq!(Level::Warn.label(), "warn");
    assert_eq!(Level::Info.label(), "info");
    assert_eq!(Level::Debug.label(), "debug");
    assert_eq!(Level::Trace.label(), "trace");
}

#[test]
fn level_styles_match_the_table() {
    let s = Level::Error.style();
    assert!(s.bold);
    assert!(matches!(s.color, Some(Color::Red)));
    let s = Level::Warn.style();
    assert!(!s.bold);
    assert!(matches!(s.color, Some(Color::Yellow)));
    let s = Level::Info.style();
    assert!(!s.bold);
    assert!(matches!(s.color, Some(Color::Green)));
    let s = Level::Debug.style();
    assert!(!s.bold);
    assert!(matches!(s.color, Some(Color::Blue)));
    let s = Level::Trace.style();
    assert!(!s.bold);
    assert!(matches!(s.color, Some(Color::Magenta)));
}

#[test]
fn render_twice_is_identical() {
    let msg = Advise::new(Level::Info, "same twice".to_string());
    assert_eq!(msg.render(), msg.render());
    assert_eq!(Level::Debug.render(), Level::Debug.render());
    assert_eq!(Separator::Colon.render(), Separator::Colon.render());
}

#[test]
fn custom_plain_tag() {
    let tag = Custom { style: StyleSpec { color: None, bold: false }, label: "custom".to_string() };
    let line = Advise::new(tag, "hello".to_string()).render();
    assert_eq!(line, format!("custom{SEP}hello"));
    assert_eq!(destyle(&line), "custom: hello");
}

#[test]
fn custom_styled_tag() {
    let tag = Custom { style: StyleSpec { color: Some(Color::Green), bold: true }, label: "ok".to_string() };
    assert_eq!(tag.render(), format!("{BOLD}\u{1b}[32mok{RESET}"));
}

#[test]
fn interpolated_body_is_verbatim() {
    let body = format!("{} on port {}", "Connected", 22);
    assert_eq!(body, "Connected on port 22");
    let line = Advise::new(Level::Info, body).render();
    assert_eq!(line, format!("\u{1b}[32minfo{RESET}{SEP}Connected on port 22"));
    assert_eq!(destyle(&line), "info: Connected on port 22");
}

#[test]
fn no_extra_whitespace() {
    let line = Advise::new(Level::Error, "x".to_string()).render();
    assert_eq!(destyle(&line), "error: x");
}

#[test]
fn empty_body() {
    let line = Advise::new(Level::Warn, String::new()).render();
    assert_eq!(line, format!("\u{1b}[33mwarn{RESET}{SEP}"));
    assert_eq!(destyle(&line), "warn: ");
}

#[test]
fn empty_custom_label() {
    let tag = Custom { style: StyleSpec { color: None, bold: false }, label: String::new() };
    let line = Advise::new(tag, "body".to_string()).render();
    assert_eq!(destyle(&line), ": body");
}

#[test]
fn separator_renders_bold_colon_space() {
    assert_eq!(Separator::default().render(), SEP);
    assert_eq!(Separator::Colon.label(), ": ");
    let s = Separator::Colon.style();
    assert!(s.bold);
    assert!(s.color.is_none());
}
