//! A verified core for a browser-console logger.
//!
//! Log records carry a severity, a module path, an optional source file and
//! line, and a message. A [`config::Config`] chooses a minimum severity, an
//! optional module-path prefix filter, an optional timestamp format and the
//! placement of the message. The library decides which records are emitted,
//! renders each one as a single styled line, and names the console channel
//! that should receive it; performing the console call itself is left to the
//! embedding application.

pub mod config;
pub mod dispatch;
pub mod filter;
pub mod format;
pub mod record;
pub mod severity;
pub mod style;
pub mod text;
pub mod timestamp;
