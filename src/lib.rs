//! Styling of terminal text with ANSI SGR escape sequences.
//!
//! The library is pure: whether styling is emitted is decided by
//! [`ColorizeConfig::should_colorize`] from values that the host observes
//! (the disabling environment variable, whether the destination is a
//! terminal), and each styling operation takes that decision as an argument.
pub mod config;
pub mod sgr;
pub mod hex;
pub mod hsl;
pub mod colorize;
pub mod laws;

pub use colorize::Colorize;
pub use config::ColorizeConfig;
