use vstd::prelude::*;
use vstd::string::StringExecFns;
use crate::config::{Config, MessageLocation, TimestampFormat};
use crate::record::Record;
use crate::severity::Severity;
use crate::style::{spec_level_style, Style};
use crate::text::{
    lemma_concat_not_contains, lemma_digits_no_newline, lemma_singleton_not_contains, spec_digits,
    u32_to_string,
};
use crate::timestamp::{spec_timestamp_field, timestamp_field};

verus! {

/// The line field of the location: the decimal line number when one was
/// captured, else the literal text `[Unknown]`.
pub open spec fn spec_line_text(line: Option<u32>) -> Seq<char> {
    match line {
        Some(n) => spec_digits(n as nat),
        None => "[Unknown]"@,
    }
}

/// The source-location field: the record's file when present, else its
/// module path; then a colon; then the line field.
pub open spec fn spec_location(r: Record) -> Seq<char> {
    (match r.file {
        Some(f) => f@,
        None => r.target@,
    }) + seq![':'] + spec_line_text(r.line)
}

/// The separator between the location and the message: one space when the
/// message shares the line, one newline when it stands on its own line.
pub open spec fn spec_separator(loc: MessageLocation) -> Seq<char> {
    match loc {
        MessageLocation::SameLine => seq![' '],
        MessageLocation::NewLine => seq!['\n'],
    }
}

/// Everything before the message separator: the level marker and level
/// text, a space, the timestamp field, and the location.
pub open spec fn spec_head(r: Record, c: Config, ms: i64) -> Seq<char> {
    "%c"@ + r.level.spec_text() + seq![' '] + spec_timestamp_field(c.timestamp_format, ms)
        + spec_location(r)
}

/// Everything after the message separator: the location-style marker, the
/// message, and the message-style marker.
pub open spec fn spec_tail(r: Record) -> Seq<char> {
    "%c"@ + r.message@ + "%c"@
}

/// The full rendered line.
pub open spec fn spec_format_text(r: Record, c: Config, ms: i64) -> Seq<char> {
    spec_head(r, c, ms) + spec_separator(c.message_location) + spec_tail(r)
}

/// A rendered record: the line of text, and the style strings that the
/// console consumes positionally, one per `%c` marker, left to right.
pub struct Formatted {
    /// The rendered line; it holds exactly three `%c` style markers.
    pub text: String,
    /// The three style slots, in marker order:
    /// severity style, location style, message style.
    pub styles: Vec<String>,
}

/// Render a record under a configuration, a style table and the current
/// wall-clock time, given as milliseconds since the Unix epoch. Rendering
/// never fails: absent fields have fixed fallbacks, and a failed timestamp
/// conversion yields an empty timestamp field. There are always exactly
/// three style slots, whatever optional fields are present. With the
/// message on its own line, the line holds exactly one newline — the
/// separator, right after the location — unless a newline is smuggled in by
/// the record's own text fields or by a custom timestamp pattern.
pub fn format_record(record: &Record, config: &Config, style: &Style, now_ms: i64) -> (r: Formatted)
    ensures
        r.text@ == spec_format_text(*record, *config, now_ms),
        r.styles@.len() == 3,
        r.styles@[0]@ == spec_level_style(*style, record.level),
        r.styles@[1]@ == style.tgt@,
        r.styles@[2]@ == style.args@,
        ({
            &&& config.message_location is NewLine
            &&& !(config.timestamp_format matches Some(TimestampFormat::Custom(_)))
            &&& !record.target@.contains('\n')
            &&& (record.file matches Some(f) ==> !f@.contains('\n'))
            &&& !record.message@.contains('\n')
        }) ==> ({
            &&& r.text@ == spec_head(*record, *config, now_ms) + seq!['\n'] + spec_tail(*record)
            &&& !spec_head(*record, *config, now_ms).contains('\n')
            &&& !spec_tail(*record).contains('\n')
        }),
{
    let mut text = String::new();
    text.append("%c");
    text.append(record.level.as_str());
    text.append(" ");
    let ts = timestamp_field(&config.timestamp_format, now_ms);
    text.append(ts.as_str());
    match &record.file {
        Some(f) => text.append(f.as_str()),
        None => text.append(record.target.as_str()),
    }
    text.append(":");
    match record.line {
        Some(n) => {
            let digits = u32_to_string(n);
            text.append(digits.as_str());
        },
        None => text.append("[Unknown]"),
    }
    match config.message_location {
        MessageLocation::SameLine => text.append(" "),
        MessageLocation::NewLine => text.append("\n"),
    }
    text.append("%c");
    text.append(record.message.as_str());
    text.append("%c");
    proof {
        reveal_strlit(" ");
        reveal_strlit(":");
        reveal_strlit("\n");
        assert(" "@ =~= seq![' ']);
        assert(":"@ =~= seq![':']);
        assert("\n"@ =~= seq!['\n']);
        assert(text@ =~= spec_format_text(*record, *config, now_ms));
        if config.message_location is NewLine && !(config.timestamp_format matches Some(
            TimestampFormat::Custom(_),
        )) && !record.target@.contains('\n') && (&record.file matches Some(f)
            ==> !f@.contains('\n')) && !record.message@.contains('\n') {
            lemma_split_no_newline(*record, *config, now_ms);
        }
    }
    let mut styles: Vec<String> = Vec::new();
    styles.push(style.level_style(record.level).clone());
    styles.push(style.tgt.clone());
    styles.push(style.args.clone());
    Formatted { text, styles }
}

/// The rendered line splits at the message separator: after the level,
/// timestamp and location fields stands exactly the separator the
/// configuration chose — a newline character for `NewLine`, a single space
/// for `SameLine` — and then the styled message.
pub proof fn lemma_message_separator(r: Record, c: Config, ms: i64)
    ensures
        c.message_location is NewLine ==> spec_format_text(r, c, ms) == spec_head(r, c, ms)
            + seq!['\n'] + spec_tail(r),
        c.message_location is SameLine ==> spec_format_text(r, c, ms) == spec_head(r, c, ms)
            + seq![' '] + spec_tail(r),
{
}

/// The location falls back field by field: without a file it names the
/// module path, and without a line it ends in the literal `[Unknown]`.
pub proof fn lemma_location_fallbacks(r: Record)
    ensures
        r.file is None ==> spec_location(r) == r.target@ + seq![':'] + spec_line_text(r.line),
        r.file matches Some(f) ==> spec_location(r) == f@ + seq![':'] + spec_line_text(r.line),
        r.line is None ==> spec_line_text(r.line) == "[Unknown]"@,
        r.line matches Some(n) ==> spec_line_text(r.line) == spec_digits(n as nat),
{
}

/// The upper-case level text never holds a newline.
proof fn lemma_level_text_no_newline(sev: Severity)
    ensures
        !sev.spec_text().contains('\n'),
{
    reveal_strlit("TRACE");
    reveal_strlit("DEBUG");
    reveal_strlit("INFO");
    reveal_strlit("WARN");
    reveal_strlit("ERROR");
}

/// The literal line-number fallback never holds a newline.
proof fn lemma_unknown_no_newline()
    ensures
        !("[Unknown]"@).contains('\n'),
{
    reveal_strlit("[Unknown]");
}

/// The style-marker text never holds a newline.
proof fn lemma_marker_no_newline()
    ensures
        !("%c"@).contains('\n'),
{
    reveal_strlit("%c");
}

/// With the message on its own line, a record whose module path, file and
/// message hold no newline, rendered with a timestamp field that holds no
/// newline, yields a line with exactly one newline character: it stands
/// immediately after the location field, before the location-style marker.
proof fn lemma_split_no_newline(r: Record, c: Config, ms: i64)
    requires
        c.message_location is NewLine,
        !spec_timestamp_field(c.timestamp_format, ms).contains('\n'),
        !r.target@.contains('\n'),
        r.file matches Some(f) ==> !f@.contains('\n'),
        !r.message@.contains('\n'),
    ensures
        spec_format_text(r, c, ms) == spec_head(r, c, ms) + seq!['\n'] + spec_tail(r),
        !spec_head(r, c, ms).contains('\n'),
        !spec_tail(r).contains('\n'),
{
    lemma_marker_no_newline();
    lemma_level_text_no_newline(r.level);
    lemma_singleton_not_contains(' ', '\n');
    lemma_singleton_not_contains(':', '\n');
    // The location field.
    match r.line {
        Some(n) => lemma_digits_no_newline(n as nat),
        None => lemma_unknown_no_newline(),
    }
    let loc_name = match r.file {
        Some(f) => f@,
        None => r.target@,
    };
    lemma_concat_not_contains(loc_name, seq![':'], '\n');
    lemma_concat_not_contains(loc_name + seq![':'], spec_line_text(r.line), '\n');
    // The head: marker, level text, space, timestamp field, location.
    lemma_concat_not_contains("%c"@, r.level.spec_text(), '\n');
    lemma_concat_not_contains("%c"@ + r.level.spec_text(), seq![' '], '\n');
    lemma_concat_not_contains(
        "%c"@ + r.level.spec_text() + seq![' '],
        spec_timestamp_field(c.timestamp_format, ms),
        '\n',
    );
    lemma_concat_not_contains(
        "%c"@ + r.level.spec_text() + seq![' '] + spec_timestamp_field(c.timestamp_format, ms),
        spec_location(r),
        '\n',
    );
    // The tail: marker, message, marker.
    lemma_concat_not_contains("%c"@, r.message@, '\n');
    lemma_concat_not_contains("%c"@ + r.message@, "%c"@, '\n');
}

/// With the message on its own line and no timestamp configured, a record
/// whose module path, file and message hold no newline renders to a line
/// with exactly one newline character: it stands immediately after the
/// location field, before the location-style marker.
pub proof fn lemma_single_newline(r: Record, c: Config, ms: i64)
    requires
        c.message_location is NewLine,
        c.timestamp_format is None,
        !r.target@.contains('\n'),
        r.file matches Some(f) ==> !f@.contains('\n'),
        !r.message@.contains('\n'),
    ensures
        spec_format_text(r, c, ms) == spec_head(r, c, ms) + seq!['\n'] + spec_tail(r),
        !spec_head(r, c, ms).contains('\n'),
        !spec_tail(r).contains('\n'),
{
    assert(spec_timestamp_field(c.timestamp_format, ms) == Seq::<char>::empty());
    lemma_split_no_newline(r, c, ms);
}

} // verus!
