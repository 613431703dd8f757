//! A small terminal-presentation helper: a readable style-name syntax
//! (`"bold_red_on_black"`) for producing ANSI-styled text, a session type that
//! places the terminal into raw mode and an alternate screen buffer and
//! restores both on release, and scoped guards that put the cursor back where
//! it stood.

pub mod color;
pub mod model;
pub mod style;
pub mod term;

pub use color::Color;
pub use color::StyleError;
pub use style::parse_and_render;
pub use style::StyleSpec;
pub use term::LocationGuard;
pub use term::Size;
pub use term::Terminal;
