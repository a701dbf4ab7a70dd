use vstd::prelude::*;
use vstd::string::StringExecFns;
use core::fmt::Write;
use crate::config::TimestampFormat;
use crate::text::{lemma_concat_not_contains, lemma_singleton_not_contains};

verus! {

/// The RFC 2822 rendering of the UTC instant `ms` milliseconds after the
/// Unix epoch, or nothing when the instant is out of range for the calendar
/// or for the RFC 2822 year field.
pub uninterp spec fn rfc2822_of(ms: i64) -> Option<Seq<char>>;

/// The RFC 3339 rendering of the UTC instant `ms` milliseconds after the
/// Unix epoch, or nothing when the instant is out of range for the calendar.
pub uninterp spec fn rfc3339_of(ms: i64) -> Option<Seq<char>>;

/// The rendering of the UTC instant `ms` milliseconds after the Unix epoch
/// under the strftime-style `pattern`, or nothing when the instant is out of
/// range or the pattern is malformed.
pub uninterp spec fn custom_of(ms: i64, pattern: Seq<char>) -> Option<Seq<char>>;

/// The characters of an optional string.
pub open spec fn opt_chars(r: Option<String>) -> Option<Seq<char>> {
    match r {
        Some(s) => Some(s@),
        None => None,
    }
}

/// What a timestamp format renders a UTC instant to, when it renders at all.
pub open spec fn spec_render(f: TimestampFormat, ms: i64) -> Option<Seq<char>> {
    match f {
        TimestampFormat::Rfc2822 => rfc2822_of(ms),
        TimestampFormat::Rfc3339 => rfc3339_of(ms),
        TimestampFormat::Custom(p) => custom_of(ms, p@),
    }
}

/// The timestamp field of a rendered line: empty when no format is
/// configured or the conversion fails, else the rendered instant followed
/// by one space. Rendering a timestamp never fails the caller.
pub open spec fn spec_timestamp_field(tf: Option<TimestampFormat>, ms: i64) -> Seq<char> {
    match tf {
        None => Seq::empty(),
        Some(f) => match spec_render(f, ms) {
            Some(t) => t + seq![' '],
            None => Seq::empty(),
        },
    }
}

/// Relies on chrono's `DateTime::<Utc>::from_timestamp_millis` (which
/// returns `None` on an out-of-range number of milliseconds) and on
/// `DateTime::to_rfc3339`: the text depends on the instant alone, and the
/// RFC 3339 writer emits digits, letters and punctuation only, never a
/// newline.
#[verifier::external_body]
fn chrono_rfc3339(ms: i64) -> (r: Option<String>)
    ensures
        opt_chars(r) == rfc3339_of(ms),
        r matches Some(s) ==> !s@.contains('\n'),
{
    match chrono::DateTime::<chrono::Utc>::from_timestamp_millis(ms) {
        Some(dt) => Some(dt.to_rfc3339()),
        None => None,
    }
}

/// Relies on chrono's `DateTime::<Utc>::from_timestamp_millis` and on its
/// RFC 2822 formatting item: formatting reports years outside 0..=9999 as a
/// formatting error rather than panicking, the text depends on the instant
/// alone, and the RFC 2822 writer emits digits, letters, spaces and
/// punctuation only, never a newline.
#[verifier::external_body]
fn chrono_rfc2822(ms: i64) -> (r: Option<String>)
    ensures
        opt_chars(r) == rfc2822_of(ms),
        r matches Some(s) ==> !s@.contains('\n'),
{
    let dt = match chrono::DateTime::<chrono::Utc>::from_timestamp_millis(ms) {
        Some(dt) => dt,
        None => return None,
    };
    let items = [chrono::format::Item::Fixed(chrono::format::Fixed::RFC2822)];
    let mut s = String::new();
    match write!(s, "{}", dt.format_with_items(items.iter())) {
        Ok(()) => Some(s),
        Err(_) => None,
    }
}

/// Relies on chrono's `DateTime::<Utc>::from_timestamp_millis` and on
/// `DateTime::format`: a malformed pattern makes the formatter report an
/// error, and the text depends on the instant and the pattern alone.
#[verifier::external_body]
fn chrono_custom(ms: i64, pattern: &str) -> (r: Option<String>)
    ensures
        opt_chars(r) == custom_of(ms, pattern@),
{
    let dt = match chrono::DateTime::<chrono::Utc>::from_timestamp_millis(ms) {
        Some(dt) => dt,
        None => return None,
    };
    let mut s = String::new();
    match write!(s, "{}", dt.format(pattern)) {
        Ok(()) => Some(s),
        Err(_) => None,
    }
}

/// Render a UTC instant under a chosen timestamp format, when it can be
/// rendered at all. The two RFC forms never hold a newline.
pub fn render_timestamp(f: &TimestampFormat, ms: i64) -> (r: Option<String>)
    ensures
        opt_chars(r) == spec_render(*f, ms),
        !(*f is Custom) ==> (r matches Some(s) ==> !s@.contains('\n')),
{
    match f {
        TimestampFormat::Rfc2822 => chrono_rfc2822(ms),
        TimestampFormat::Rfc3339 => chrono_rfc3339(ms),
        TimestampFormat::Custom(pattern) => chrono_custom(ms, pattern.as_str()),
    }
}

/// The timestamp field of a rendered line, trailing space included; empty
/// when no format is configured or the conversion fails. Unless a custom
/// pattern asks for one, the field never holds a newline.
pub fn timestamp_field(tf: &Option<TimestampFormat>, ms: i64) -> (r: String)
    ensures
        r@ == spec_timestamp_field(*tf, ms),
        (match *tf {
            Some(f) => !(f is Custom),
            None => true,
        }) ==> !r@.contains('\n'),
{
    match tf {
        None => String::new(),
        Some(f) => match render_timestamp(f, ms) {
            None => String::new(),
            Some(mut s) => {
                let ghost s0 = s@;
                s.append(" ");
                proof {
                    reveal_strlit(" ");
                    assert(" "@ =~= seq![' ']);
                    if !(*f is Custom) {
                        lemma_singleton_not_contains(' ', '\n');
                        lemma_concat_not_contains(s0, seq![' '], '\n');
                    }
                }
                s
            },
        },
    }
}

} // verus!
