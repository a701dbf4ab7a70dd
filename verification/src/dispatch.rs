use vstd::prelude::*;
use crate::config::Config;
use crate::filter::{is_enabled, spec_enabled};
use crate::format::{format_record, spec_format_text, Formatted};
use crate::record::Record;
use crate::severity::Severity;
use crate::style::{spec_level_style, Style};

verus! {

/// One of the five severity-keyed console output channels.
#[derive(Clone, Copy, PartialEq, Eq, Structural, Debug)]
pub enum Channel {
    /// The console's debug channel.
    Debug,
    /// The console's plain log channel.
    Log,
    /// The console's info channel.
    Info,
    /// The console's warning channel.
    Warn,
    /// The console's error channel.
    Error,
}

/// The channel a severity is routed to: trace to the debug channel, debug
/// to the plain log channel, and info, warn and error to their namesakes.
pub open spec fn spec_channel_of(sev: Severity) -> Channel {
    match sev {
        Severity::Trace => Channel::Debug,
        Severity::Debug => Channel::Log,
        Severity::Info => Channel::Info,
        Severity::Warn => Channel::Warn,
        Severity::Error => Channel::Error,
    }
}

/// Route a severity to its console channel.
pub fn channel_of(sev: Severity) -> (r: Channel)
    ensures
        r == spec_channel_of(sev),
{
    match sev {
        Severity::Trace => Channel::Debug,
        Severity::Debug => Channel::Log,
        Severity::Info => Channel::Info,
        Severity::Warn => Channel::Warn,
        Severity::Error => Channel::Error,
    }
}

/// Everything the embedding application needs for one console call: the
/// channel, and the rendered line with its three style slots.
pub struct Emission {
    /// The console channel the line goes to.
    pub channel: Channel,
    /// The rendered line and its style slots.
    pub output: Formatted,
}

/// A record is emitted exactly when it passes both independent gates: its
/// severity reaches the configured minimum, and its module path passes the
/// prefix filter.
pub open spec fn spec_emits(r: Record, c: Config) -> bool {
    r.level.spec_passes(c.level) && spec_enabled(c, r.target@)
}

/// The whole per-record decision: filter, then render, then pick the
/// channel. Returns nothing when the record is not emitted; otherwise the
/// channel keyed by the record's severity and the rendered line with its
/// three style slots.
pub fn handle_record(record: &Record, config: &Config, style: &Style, now_ms: i64) -> (r: Option<
    Emission,
>)
    ensures
        r is Some <==> spec_emits(*record, *config),
        r matches Some(e) ==> ({
            &&& e.channel == spec_channel_of(record.level)
            &&& e.output.text@ == spec_format_text(*record, *config, now_ms)
            &&& e.output.styles@.len() == 3
            &&& e.output.styles@[0]@ == spec_level_style(*style, record.level)
            &&& e.output.styles@[1]@ == style.tgt@
            &&& e.output.styles@[2]@ == style.args@
        }),
{
    if record.level.passes(config.level) && is_enabled(record.target.as_str(), config) {
        let output = format_record(record, config, style, now_ms);
        Some(Emission { channel: channel_of(record.level), output })
    } else {
        None
    }
}

} // verus!
