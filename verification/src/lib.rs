//! User-friendly status reporting.
//!
//! A message is paired with a tag — one of five built-in severity levels, or
//! any value implementing [`Render`] — and rendered as a colorized, styled
//! prefix followed by the message body.  Writing the rendered line to the
//! standard error stream is left to the caller, so that this crate stays a
//! pure formatter.

mod message;
mod style;
mod tag;

pub use message::Advise;
pub use message::rendered;
pub use style::Color;
pub use style::StyleSpec;
pub use style::color_escape;
pub use style::is_plain;
pub use style::style_off;
pub use style::style_on;
pub use style::styled;
pub use tag::Custom;
pub use tag::Level;
pub use tag::Render;
pub use tag::Separator;
