use vstd::prelude::*;
use crate::severity::Severity;

verus! {

/// How a timestamp is rendered, when one is rendered at all.
#[derive(Clone)]
pub enum TimestampFormat {
    /// The RFC 2822 calendar form, such as `Tue, 1 Jul 2003 10:52:37 +0000`.
    Rfc2822,
    /// The RFC 3339 / ISO 8601 form with a `T` separator and a zone offset.
    Rfc3339,
    /// A custom strftime-style pattern.
    Custom(String),
}

/// Where the message stands relative to the level, timestamp and location.
#[derive(Clone, Copy, PartialEq, Eq, Structural, Debug)]
pub enum MessageLocation {
    /// The message follows the other fields on the same line.
    SameLine,
    /// The message stands on its own line, after the other fields.
    NewLine,
}

/// The policy a logger is installed with: minimum severity, optional
/// module-path prefix filter, optional timestamp rendering, and message
/// placement. A `Config` is fully determined at construction time; the
/// chained setters each return the updated value.
pub struct Config {
    /// Minimum severity to emit, inclusive.
    pub level: Severity,
    /// If present, only records whose module path starts with this exact
    /// string are eligible.
    pub module_prefix: Option<String>,
    /// If present, a timestamp is rendered in this format.
    pub timestamp_format: Option<TimestampFormat>,
    /// Whether the message shares the line with the other fields.
    pub message_location: MessageLocation,
}

impl Default for Config {
    /// The default policy: emit from `Debug` up, no prefix filter, no
    /// timestamp, message on the same line.
    fn default() -> (r: Self)
        ensures
            r.level == Severity::Debug,
            r.module_prefix is None,
            r.timestamp_format is None,
            r.message_location is SameLine,
    {
        Self {
            level: Severity::Debug,
            module_prefix: None,
            timestamp_format: None,
            message_location: MessageLocation::SameLine,
        }
    }
}

impl Config {
    /// A policy that emits from `level` up, with no prefix filter, no
    /// timestamp, and the message on the same line.
    pub fn new(level: Severity) -> (r: Self)
        ensures
            r.level == level,
            r.module_prefix is None,
            r.timestamp_format is None,
            r.message_location is SameLine,
    {
        Self {
            level,
            module_prefix: None,
            timestamp_format: None,
            message_location: MessageLocation::SameLine,
        }
    }

    /// Choose a timestamp format. Without this call no timestamp is
    /// rendered; a later call replaces an earlier choice.
    pub fn timestamp_format(self, ts_fmt: TimestampFormat) -> (r: Self)
        ensures
            r.level == self.level,
            r.module_prefix == self.module_prefix,
            r.timestamp_format == Some(ts_fmt),
            r.message_location == self.message_location,
    {
        Self { timestamp_format: Some(ts_fmt), ..self }
    }

    /// Restrict output to records whose module path starts with
    /// `module_prefix`. Only one prefix is supported: a later call replaces
    /// an earlier one.
    pub fn module_prefix(self, module_prefix: &str) -> (r: Self)
        ensures
            r.level == self.level,
            r.module_prefix matches Some(p) && p@ == module_prefix@,
            r.timestamp_format == self.timestamp_format,
            r.message_location == self.message_location,
    {
        Self { module_prefix: Some(module_prefix.to_owned()), ..self }
    }

    /// Put the message on its own line, after the level, timestamp and
    /// location fields.
    pub fn message_on_new_line(self) -> (r: Self)
        ensures
            r.level == self.level,
            r.module_prefix == self.module_prefix,
            r.timestamp_format == self.timestamp_format,
            r.message_location is NewLine,
    {
        Self { message_location: MessageLocation::NewLine, ..self }
    }
}

} // verus!
