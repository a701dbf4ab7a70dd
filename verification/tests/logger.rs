use wasm_logger::config::{Config, MessageLocation, TimestampFormat};
use wasm_logger::dispatch::{channel_of, handle_record, Channel};
use wasm_logger::filter::is_enabled;
use wasm_logger::format::format_record;
use wasm_logger::record::Record;
use wasm_logger::severity::Severity;
use wasm_logger::style::Style;
use wasm_logger::text::u32_to_string;
use wasm_logger::timestamp::{render_timestamp, timestamp_field};

fn sample_record(level: Severity) -> Record {
    Record {
        level,
        target: "app::net".to_string(),
        file: Some("net.rs".to_string()),
        line: Some(42),
        message: "conn lost".to_string(),
    }
}

#[test]
fn default_config() {
    let c = Config::default();
    assert_eq!(c.level, Severity::Debug);
    assert!(c.module_prefix.is_none());
    assert!(c.timestamp_format.is_none());
    assert_eq!(c.message_location, MessageLocation::SameLine);
}

#[test]
fn builder_chain() {
    let c = Config::new(Severity::Info)
        .timestamp_format(TimestampFormat::Rfc3339)
        .module_prefix("app")
        .message_on_new_line();
    assert_eq!(c.level, Severity::Info);
    assert_eq!(c.module_prefix.as_deref(), Some("app"));
    assert!(matches!(c.timestamp_format, Some(TimestampFormat::Rfc3339)));
    assert_eq!(c.message_location, MessageLocation::NewLine);
}

#[test]
fn module_prefix_last_call_wins() {
    let c = Config::new(Severity::Debug)
        .module_prefix("app::net")
        .module_prefix("app::ui");
    assert_eq!(c.module_prefix.as_deref(), Some("app::ui"));
}

#[test]
fn no_prefix_enables_every_path() {
    let c = Config::new(Severity::Debug);
    assert!(is_enabled("", &c));
    assert!(is_enabled("app::net", &c));
    assert!(is_enabled("anything::at::all", &c));
}

#[test]
fn prefix_gates_paths() {
    let c = Config::new(Severity::Debug).module_prefix("app::net");
    // Exact match.
    assert!(is_enabled("app::net", &c));
    // Proper-prefix match.
    assert!(is_enabled("app::net::tcp", &c));
    // Overlap that is not a prefix.
    assert!(!is_enabled("net::app", &c));
    assert!(!is_enabled("app::ne", &c));
    // Empty path.
    assert!(!is_enabled("", &c));
    // Empty prefix admits everything.
    let open = Config::new(Severity::Debug).module_prefix("");
    assert!(is_enabled("", &open));
    assert!(is_enabled("x", &open));
}

#[test]
fn severity_order() {
    assert!(Severity::Trace.passes(Severity::Trace));
    assert!(!Severity::Trace.passes(Severity::Debug));
    assert!(Severity::Warn.passes(Severity::Info));
    assert!(Severity::Error.passes(Severity::Warn));
    assert!(!Severity::Info.passes(Severity::Warn));
}

#[test]
fn channel_mapping() {
    assert_eq!(channel_of(Severity::Trace), Channel::Debug);
    assert_eq!(channel_of(Severity::Debug), Channel::Log);
    assert_eq!(channel_of(Severity::Info), Channel::Info);
    assert_eq!(channel_of(Severity::Warn), Channel::Warn);
    assert_eq!(channel_of(Severity::Error), Channel::Error);
}

#[test]
fn style_table_values() {
    let st = Style::new();
    assert_eq!(st.lvl_trace, "color: white; padding: 0 3px; background: gray;");
    assert_eq!(st.lvl_debug, "color: white; padding: 0 3px; background: blue;");
    assert_eq!(st.lvl_info, "color: white; padding: 0 3px; background: green;");
    assert_eq!(st.lvl_warn, "color: white; padding: 0 3px; background: orange;");
    assert_eq!(st.lvl_error, "color: white; padding: 0 3px; background: darkred;");
    assert_eq!(st.tgt, "font-weight: bold; color: inherit");
    assert_eq!(st.args, "background: inherit; color: inherit");
}

#[test]
fn always_three_style_slots() {
    let st = Style::new();
    let timestamps = [None, Some(TimestampFormat::Rfc3339)];
    let files = [None, Some("net.rs".to_string())];
    let lines = [None, Some(7u32)];
    for ts in timestamps {
        for file in &files {
            for line in &lines {
                let mut c = Config::new(Severity::Trace);
                if let Some(f) = &ts {
                    c = c.timestamp_format(f.clone());
                }
                let r = Record {
                    level: Severity::Info,
                    target: "app".to_string(),
                    file: file.clone(),
                    line: *line,
                    message: "m".to_string(),
                };
                let out = format_record(&r, &c, &st, 0);
                assert_eq!(out.styles.len(), 3);
                assert_eq!(out.styles[0], st.lvl_info);
                assert_eq!(out.styles[1], st.tgt);
                assert_eq!(out.styles[2], st.args);
            }
        }
    }
}

#[test]
fn separator_is_byte_exact() {
    let st = Style::new();
    let r = sample_record(Severity::Info);
    let same = format_record(&r, &Config::new(Severity::Trace), &st, 0);
    assert_eq!(same.text, "%cINFO net.rs:42 %cconn lost%c");
    let newline = format_record(
        &r,
        &Config::new(Severity::Trace).message_on_new_line(),
        &st,
        0,
    );
    assert_eq!(newline.text, "%cINFO net.rs:42\n%cconn lost%c");
}

#[test]
fn location_fallbacks() {
    let st = Style::new();
    let c = Config::new(Severity::Trace);
    let mut r = sample_record(Severity::Info);
    r.file = None;
    let out = format_record(&r, &c, &st, 0);
    assert_eq!(out.text, "%cINFO app::net:42 %cconn lost%c");
    let mut r = sample_record(Severity::Info);
    r.line = None;
    let out = format_record(&r, &c, &st, 0);
    assert_eq!(out.text, "%cINFO net.rs:[Unknown] %cconn lost%c");
}

#[test]
fn line_number_rendering() {
    assert_eq!(u32_to_string(0), "0");
    assert_eq!(u32_to_string(7), "7");
    assert_eq!(u32_to_string(42), "42");
    assert_eq!(u32_to_string(1000), "1000");
    assert_eq!(u32_to_string(u32::MAX), "4294967295");
}

#[test]
fn rfc3339_round_trip() {
    let ms: i64 = 1234567890123;
    let s = render_timestamp(&TimestampFormat::Rfc3339, ms).unwrap();
    assert_eq!(s, "2009-02-13T23:31:30.123+00:00");
    let parsed = chrono::DateTime::parse_from_rfc3339(&s).unwrap();
    assert_eq!(parsed.timestamp_millis(), ms);
}

#[test]
fn rfc2822_round_trip() {
    let ms: i64 = 1234567890000;
    let s = render_timestamp(&TimestampFormat::Rfc2822, ms).unwrap();
    assert_eq!(s, "Fri, 13 Feb 2009 23:31:30 +0000");
    let parsed = chrono::DateTime::parse_from_rfc2822(&s).unwrap();
    assert_eq!(parsed.timestamp_millis(), ms);
}

#[test]
fn custom_timestamp() {
    let ms: i64 = 1234567890123;
    let s = render_timestamp(&TimestampFormat::Custom("%Y-%m-%d %H:%M:%S".to_string()), ms);
    assert_eq!(s.as_deref(), Some("2009-02-13 23:31:30"));
}

#[test]
fn timestamp_failures_render_empty() {
    // Out-of-range instant.
    assert_eq!(render_timestamp(&TimestampFormat::Rfc3339, i64::MAX), None);
    assert_eq!(timestamp_field(&Some(TimestampFormat::Rfc3339), i64::MAX), "");
    // A year RFC 2822 cannot carry.
    assert_eq!(render_timestamp(&TimestampFormat::Rfc2822, 253402300800000), None);
    // A malformed custom pattern.
    assert_eq!(render_timestamp(&TimestampFormat::Custom("%".to_string()), 0), None);
    assert_eq!(timestamp_field(&Some(TimestampFormat::Custom("%".to_string())), 0), "");
}

#[test]
fn timestamp_field_has_trailing_space() {
    let ms: i64 = 1234567890123;
    assert_eq!(
        timestamp_field(&Some(TimestampFormat::Rfc3339), ms),
        "2009-02-13T23:31:30.123+00:00 "
    );
    assert_eq!(timestamp_field(&None, ms), "");
}

#[test]
fn formatted_line_with_timestamp() {
    let st = Style::new();
    let c = Config::new(Severity::Trace).timestamp_format(TimestampFormat::Rfc3339);
    let r = sample_record(Severity::Warn);
    let out = format_record(&r, &c, &st, 1234567890123);
    assert_eq!(
        out.text,
        "%cWARN 2009-02-13T23:31:30.123+00:00 net.rs:42 %cconn lost%c"
    );
}

#[test]
fn emitted_on_warn_channel() {
    // Config{level=Info, no prefix, no timestamp, SameLine},
    // Record{level=Warn, target="app::net", file=net.rs, line=42, "conn lost"}.
    let st = Style::new();
    let c = Config::new(Severity::Info);
    let r = sample_record(Severity::Warn);
    let e = handle_record(&r, &c, &st, 0).unwrap();
    assert_eq!(e.channel, Channel::Warn);
    assert_eq!(e.output.text, "%cWARN net.rs:42 %cconn lost%c");
    assert_eq!(e.output.styles.len(), 3);
    assert_eq!(e.output.styles[0], st.lvl_warn);
    assert_eq!(e.output.styles[1], st.tgt);
    assert_eq!(e.output.styles[2], st.args);
}

#[test]
fn below_threshold_not_emitted() {
    let st = Style::new();
    let c = Config::new(Severity::Info);
    let r = sample_record(Severity::Debug);
    assert!(handle_record(&r, &c, &st, 0).is_none());
}

#[test]
fn prefix_mismatch_not_emitted() {
    let st = Style::new();
    let c = Config::new(Severity::Trace).module_prefix("app::net");
    let mut r = sample_record(Severity::Error);
    r.target = "app::ui".to_string();
    assert!(!is_enabled("app::ui", &c));
    assert!(handle_record(&r, &c, &st, 0).is_none());
}

#[test]
fn newline_stands_alone_after_location() {
    let st = Style::new();
    let c = Config::new(Severity::Trace).message_on_new_line();
    let r = sample_record(Severity::Info);
    let out = format_record(&r, &c, &st, 0);
    let newline_count = out.text.chars().filter(|ch| *ch == '\n').count();
    assert_eq!(newline_count, 1);
    // Immediately after the location field, before the location-style marker.
    assert_eq!(out.text.find('\n'), Some("%cINFO net.rs:42".len()));
    assert!(out.text["%cINFO net.rs:42".len() + 1..].starts_with("%c"));
}
