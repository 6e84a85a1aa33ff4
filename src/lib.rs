//! Terminal output policy for a command-line tool: which severities are shown,
//! and how error, warning, debug and plain lines are rendered.
pub mod level;
pub mod text;
pub mod style;
pub mod wrap;
pub mod logger;
