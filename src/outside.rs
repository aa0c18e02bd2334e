use vstd::prelude::*;
use chrono::{DateTime, Local, SecondsFormat};
use colored::Colorize;

verus! {

use crate::text::{painted, rfc3339_millis_layout, Tone};

/// Lets a decoded `serde_json::Value` stand in a `LogRecord`; Verus sees
/// nothing inside it.
#[verifier::external_type_specification]
#[verifier::external_body]
pub struct ExValue(serde_json::Value);

/// Whether chrono's RFC 3339 parser accepts the text: a date-time with an
/// offset, whose date and time may also be parted by a lowercase `t` or a space.
pub uninterp spec fn rfc3339_valid(s: Seq<char>) -> bool;

/// Relies on chrono's DateTime::parse_from_rfc3339, which succeeds exactly on
/// RFC 3339 text (a property of the text alone), and on
/// DateTime::to_rfc3339_opts after the instant is moved into the host's local
/// zone. The digits depend on that zone; the layout written by chrono's
/// write_rfc3339 does not: year, `-MM-DDTHH:MM:SS.mmm`, then `Z` or `+HH:MM`.
#[verifier::external_body]
pub(crate) fn local_rfc3339_millis(s: &str) -> (r: Option<String>)
    ensures
        r.is_some() == rfc3339_valid(s@),
        r.is_some() ==> rfc3339_millis_layout(r.unwrap()@),
{
    DateTime::parse_from_rfc3339(s)
        .ok()
        .map(|t| t.with_timezone(&Local).to_rfc3339_opts(SecondsFormat::Millis, true))
}

/// Relies on serde_json::to_string: compact JSON text of the value. Writing a
/// Value cannot fail (its map keys are strings), the text is never empty, and
/// compact output escapes every newline inside strings.
#[verifier::external_body]
pub(crate) fn json_compact(v: &serde_json::Value) -> (r: Option<String>)
    ensures
        r.is_some(),
        r.unwrap()@.len() > 0,
        !r.unwrap()@.contains('\n'),
{
    serde_json::to_string(v).ok()
}

/// Relies on colored's Colorize::color and the Display of ColoredString: the
/// text comes back unchanged where colouring is switched off; otherwise it is
/// `ESC[<code>m`, the text with that sequence written again after each inner
/// reset, and the reset `ESC[0m`.
#[verifier::external_body]
pub(crate) fn paint(s: &str, tone: Tone) -> (r: String)
    ensures
        painted(r@, s@, tone),
{
    let c = match tone {
        Tone::Green => colored::Color::Green,
        Tone::Yellow => colored::Color::Yellow,
        Tone::Red => colored::Color::Red,
        Tone::Cyan => colored::Color::Cyan,
        Tone::Magenta => colored::Color::Magenta,
        Tone::Blue => colored::Color::Blue,
    };
    s.color(c).to_string()
}

} // verus!
