use vstd::prelude::*;
use crate::severity::Severity;

verus! {

/// The style table: one console style string per severity, plus the two
/// shared styles for the location label and the message body. Built once
/// when the logger is installed and never mutated afterwards.
pub struct Style {
    /// Style of the level marker for `Trace` records.
    pub lvl_trace: String,
    /// Style of the level marker for `Debug` records.
    pub lvl_debug: String,
    /// Style of the level marker for `Info` records.
    pub lvl_info: String,
    /// Style of the level marker for `Warn` records.
    pub lvl_warn: String,
    /// Style of the level marker for `Error` records.
    pub lvl_error: String,
    /// Style of the location label.
    pub tgt: String,
    /// Style of the message body.
    pub args: String,
}

/// The style string the table assigns to the level marker of a record of
/// severity `sev`.
pub open spec fn spec_level_style(st: Style, sev: Severity) -> Seq<char> {
    match sev {
        Severity::Trace => st.lvl_trace@,
        Severity::Debug => st.lvl_debug@,
        Severity::Info => st.lvl_info@,
        Severity::Warn => st.lvl_warn@,
        Severity::Error => st.lvl_error@,
    }
}

impl Style {
    /// The fixed style table: a white-on-color badge per severity, a bold
    /// location label, and a message body that inherits the console's own
    /// colors.
    pub fn new() -> (r: Style)
        ensures
            r.lvl_trace@ == "color: white; padding: 0 3px; background: gray;"@,
            r.lvl_debug@ == "color: white; padding: 0 3px; background: blue;"@,
            r.lvl_info@ == "color: white; padding: 0 3px; background: green;"@,
            r.lvl_warn@ == "color: white; padding: 0 3px; background: orange;"@,
            r.lvl_error@ == "color: white; padding: 0 3px; background: darkred;"@,
            r.tgt@ == "font-weight: bold; color: inherit"@,
            r.args@ == "background: inherit; color: inherit"@,
    {
        Style {
            lvl_trace: "color: white; padding: 0 3px; background: gray;".to_owned(),
            lvl_debug: "color: white; padding: 0 3px; background: blue;".to_owned(),
            lvl_info: "color: white; padding: 0 3px; background: green;".to_owned(),
            lvl_warn: "color: white; padding: 0 3px; background: orange;".to_owned(),
            lvl_error: "color: white; padding: 0 3px; background: darkred;".to_owned(),
            tgt: "font-weight: bold; color: inherit".to_owned(),
            args: "background: inherit; color: inherit".to_owned(),
        }
    }

    /// The style string for the level marker of a record of severity `sev`.
    pub fn level_style(&self, sev: Severity) -> (r: &String)
        ensures
            r@ == spec_level_style(*self, sev),
    {
        match sev {
            Severity::Trace => &self.lvl_trace,
            Severity::Debug => &self.lvl_debug,
            Severity::Info => &self.lvl_info,
            Severity::Warn => &self.lvl_warn,
            Severity::Error => &self.lvl_error,
        }
    }
}

} // verus!
