//! Instants on the clock, and the text that shows one in a listing.

use std::fmt::Write;
use vstd::prelude::*;
use vstd::string::*;

verus! {

/// The strftime pattern of a modification time: `YYYY-MM-DD HH:MM:SS`.
pub const TIMESTAMP_PATTERN: &'static str = "%Y-%m-%d %H:%M:%S";

/// What a listing shows where a modification time cannot be had.
pub const UNKNOWN_TIME: &'static str = "unknown";

/// Nanoseconds in a second.
pub const NANOS_PER_SEC: u32 = 1_000_000_000;

/// An instant: whole seconds since 1970-01-01 00:00:00 UTC, negative before
/// it, and the nanoseconds that follow that second.
#[derive(Clone, Copy, Debug, PartialEq, Eq, Structural)]
pub struct Timestamp {
    pub secs: i64,
    pub nanos: u32,
}

impl Timestamp {
    /// The nanoseconds are less than a second.
    pub open spec fn wf(self) -> bool {
        self.nanos < NANOS_PER_SEC
    }

    /// The instant as one number: nanoseconds since the epoch.
    pub open spec fn since_epoch(self) -> int {
        self.secs * NANOS_PER_SEC + self.nanos
    }

    /// The instant `secs` seconds and `nanos` nanoseconds after the epoch, if
    /// `nanos` is less than a second and the seconds fit.
    pub fn after_epoch(secs: u64, nanos: u32) -> (at: Option<Timestamp>)
        ensures
            at is Some <==> nanos < NANOS_PER_SEC && secs <= i64::MAX,
            at matches Some(t) ==> t.wf() && t.since_epoch() == secs * NANOS_PER_SEC + nanos,
    {
        if nanos >= NANOS_PER_SEC || secs > 0x7fff_ffff_ffff_ffff {
            return None;
        }
        Some(Timestamp { secs: secs as i64, nanos })
    }

    /// The instant `secs` seconds and `nanos` nanoseconds before the epoch, if
    /// `nanos` is less than a second and the seconds fit.
    pub fn before_epoch(secs: u64, nanos: u32) -> (at: Option<Timestamp>)
        ensures
            at is Some <==> nanos < NANOS_PER_SEC && -(secs * NANOS_PER_SEC + nanos) >= i64::MIN
                * NANOS_PER_SEC,
            at matches Some(t) ==> t.wf() && t.since_epoch() == -(secs * NANOS_PER_SEC + nanos),
    {
        if nanos >= NANOS_PER_SEC {
            return None;
        }
        if nanos == 0 {
            if secs > 0x8000_0000_0000_0000 {
                return None;
            }
            let whole: i64 = if secs == 0x8000_0000_0000_0000 {
                i64::MIN
            } else {
                -(secs as i64)
            };
            Some(Timestamp { secs: whole, nanos: 0 })
        } else {
            if secs > 0x7fff_ffff_ffff_ffff {
                return None;
            }
            Some(Timestamp { secs: -(secs as i64) - 1, nanos: NANOS_PER_SEC - nanos })
        }
    }
}

/// The character a timestamp must hold at place `i`, where it is a separator.
pub open spec fn separator_at(i: int) -> Option<char> {
    if i == 4 || i == 7 {
        Some('-')
    } else if i == 10 {
        Some(' ')
    } else if i == 13 || i == 16 {
        Some(':')
    } else {
        None
    }
}

/// `c` may stand at place `i` of a timestamp: the separator there, or a digit.
pub open spec fn fits_place(i: int, c: char) -> bool {
    match separator_at(i) {
        Some(sep) => c == sep,
        None => '0' <= c <= '9',
    }
}

/// The number that the two digits at `i` and `i + 1` write.
pub open spec fn two_digits(s: Seq<char>, i: int) -> int {
    (s[i] as u32 - '0' as u32) * 10 + (s[i + 1] as u32 - '0' as u32)
}

/// `s` has the shape `YYYY-MM-DD HH:MM:SS`, with a month from 01 to 12, a day
/// from 01 to 31, an hour up to 23, and a minute and a second up to 59.
pub open spec fn is_timestamp_text(s: Seq<char>) -> bool {
    &&& s.len() == 19
    &&& forall|i: int| 0 <= i < 19 ==> fits_place(i, #[trigger] s[i])
    &&& 1 <= two_digits(s, 5) <= 12
    &&& 1 <= two_digits(s, 8) <= 31
    &&& two_digits(s, 11) <= 23
    &&& two_digits(s, 14) <= 59
    &&& two_digits(s, 17) <= 59
}

/// `s` is what a record may show as its modification time: a timestamp, or
/// the word for an unknown one.
pub open spec fn is_modified_text(s: Seq<char>) -> bool {
    is_timestamp_text(s) || s == UNKNOWN_TIME@
}

/// A modification time as a record shows it is never empty: it has the
/// nineteen characters of a timestamp, or the seven of the word for an
/// unknown time.
pub proof fn lemma_modified_text_len(s: Seq<char>)
    requires
        is_modified_text(s),
    ensures
        s.len() == 19 || s.len() == 7,
{
    reveal_strlit("unknown");
}

fn place_holds(i: usize, c: char) -> (ok: bool)
    ensures
        ok == fits_place(i as int, c),
{
    if i == 4 || i == 7 {
        c == '-'
    } else if i == 10 {
        c == ' '
    } else if i == 13 || i == 16 {
        c == ':'
    } else {
        '0' <= c && c <= '9'
    }
}

fn read_two_digits(text: &str, i: usize) -> (n: u32)
    requires
        text@.len() == 19,
        i < 18,
        '0' <= text@[i as int] <= '9',
        '0' <= text@[i + 1] <= '9',
    ensures
        n == two_digits(text@, i as int),
{
    let tens: u32 = text.get_char(i) as u32 - '0' as u32;
    let ones: u32 = text.get_char(i + 1) as u32 - '0' as u32;
    tens * 10 + ones
}

/// Tells whether `text` is a well-formed timestamp.
pub fn is_timestamp(text: &str) -> (ok: bool)
    ensures
        ok == is_timestamp_text(text@),
{
    if text.unicode_len() != 19 {
        return false;
    }
    let mut i: usize = 0;
    while i < 19
        invariant
            i <= 19,
            text@.len() == 19,
            forall|j: int| 0 <= j < i ==> fits_place(j, #[trigger] text@[j]),
        decreases 19 - i,
    {
        if !place_holds(i, text.get_char(i)) {
            return false;
        }
        i += 1;
    }
    assert(fits_place(5, text@[5]) && fits_place(6, text@[6]));
    assert(fits_place(8, text@[8]) && fits_place(9, text@[9]));
    assert(fits_place(11, text@[11]) && fits_place(12, text@[12]));
    assert(fits_place(14, text@[14]) && fits_place(15, text@[15]));
    assert(fits_place(17, text@[17]) && fits_place(18, text@[18]));
    let month = read_two_digits(text, 5);
    let day = read_two_digits(text, 8);
    let hour = read_two_digits(text, 11);
    let minute = read_two_digits(text, 14);
    let second = read_two_digits(text, 17);
    1 <= month && month <= 12 && 1 <= day && day <= 31 && hour <= 23 && minute <= 59 && second
        <= 59
}

/// The view of a text that may be missing.
pub open spec fn text_view(text: Option<String>) -> Option<Seq<char>> {
    match text {
        Some(t) => Some(t@),
        None => None,
    }
}

/// What `chrono` writes for the instant `secs` seconds and `nanos` nanoseconds
/// after the epoch, on a clock `offset` seconds east of UTC, under the
/// strftime `pattern`; `None` where it writes nothing.
pub uninterp spec fn clock_text(secs: i64, nanos: u32, offset: i32, pattern: Seq<char>) -> Option<
    Seq<char>,
>;

/// Calls `chrono::DateTime::format` on the instant that
/// `chrono::DateTime::from_timestamp` makes of `secs` and `nanos`, moved by
/// `DateTime::with_timezone` to the `chrono::FixedOffset` of `offset` seconds
/// east. Not proved: that the text depends on these four values alone. It is
/// `None` where chrono refuses the offset, the instant or the pattern.
#[verifier::external_body]
fn format_at_offset(secs: i64, nanos: u32, offset: i32, pattern: &str) -> (text: Option<String>)
    ensures
        text_view(text) == clock_text(secs, nanos, offset, pattern@),
{
    let zone = chrono::FixedOffset::east_opt(offset)?;
    let at = chrono::DateTime::from_timestamp(secs, nanos)?.with_timezone(&zone);
    let mut text = String::new();
    write!(text, "{}", at.format(pattern)).ok()?;
    Some(text)
}

/// An offset from UTC that a clock can have: less than a day, either way.
pub open spec fn is_offset(east: i32) -> bool {
    -86_400 < east < 86_400
}

/// Asks `chrono::Local`, through `DateTime::with_timezone`, how many seconds
/// east of UTC this machine's clock stands at the given instant. The answer
/// depends on the machine's time zone. Not proved: that it is less than a
/// day, either way, as every `chrono::FixedOffset` is. It is `None` where
/// `chrono::DateTime::from_timestamp` refuses the instant. chrono gives no
/// answer at all, and stops the program, where the machine's zone data names
/// an offset of a day or more.
#[verifier::external_body]
fn local_offset_at(secs: i64, nanos: u32) -> (offset: Option<i32>)
    ensures
        offset matches Some(east) ==> is_offset(east),
{
    let utc = chrono::DateTime::from_timestamp(secs, nanos)?;
    Some(utc.with_timezone(&chrono::Local).offset().local_minus_utc())
}

/// Writes `at` as `YYYY-MM-DD HH:MM:SS` on a clock `offset` seconds east of
/// UTC.
pub fn format_timestamp(at: Timestamp, offset: i32) -> (text: Option<String>)
    ensures
        text_view(text) == clock_text(at.secs, at.nanos, offset, TIMESTAMP_PATTERN@),
{
    format_at_offset(at.secs, at.nanos, offset, TIMESTAMP_PATTERN)
}

/// What a record shows for a formatted time: the text itself where it is a
/// well-formed timestamp, else the word for an unknown time.
pub open spec fn accepted_text(formatted: Option<Seq<char>>) -> Seq<char> {
    match formatted {
        Some(s) if is_timestamp_text(s) => s,
        _ => UNKNOWN_TIME@,
    }
}

/// Keeps a formatted time that is a well-formed timestamp, and replaces any
/// other, or a missing one, by the word for an unknown time.
pub fn accept_timestamp(formatted: Option<String>) -> (text: String)
    ensures
        text@ == accepted_text(text_view(formatted)),
        is_modified_text(text@),
{
    match formatted {
        Some(t) => {
            if is_timestamp(t.as_str()) {
                t
            } else {
                String::from_str(UNKNOWN_TIME)
            }
        },
        None => String::from_str(UNKNOWN_TIME),
    }
}

/// The modification time that a record shows on a clock `east` seconds east
/// of UTC: the instant as chrono writes it there, where the system gave one
/// and what chrono writes is a well-formed timestamp, else the word for an
/// unknown time.
pub open spec fn modified_with(modified: Option<Timestamp>, east: i32) -> Seq<char> {
    match modified {
        Some(at) => accepted_text(clock_text(at.secs, at.nanos, east, TIMESTAMP_PATTERN@)),
        None => UNKNOWN_TIME@,
    }
}

/// The text of a modification time on a clock `east` seconds east of UTC.
pub fn modified_text_at(modified: Option<Timestamp>, east: i32) -> (text: String)
    ensures
        text@ == modified_with(modified, east),
        is_modified_text(text@),
{
    match modified {
        Some(at) => accept_timestamp(format_timestamp(at, east)),
        None => String::from_str(UNKNOWN_TIME),
    }
}

/// How many seconds east of UTC this machine's clock stands at a
/// modification time. Where there is no time, or chrono cannot hold the
/// instant, the answer is zero: no text depends on it there.
pub fn local_east(modified: Option<Timestamp>) -> (east: i32)
    ensures
        is_offset(east),
        modified is None ==> east == 0,
{
    match modified {
        Some(at) => match local_offset_at(at.secs, at.nanos) {
            Some(east) => east,
            None => 0,
        },
        None => 0,
    }
}

/// The text of a modification time on this machine's clock. Which offset the
/// clock has is the machine's affair; the text is what that offset gives. So
/// a time that the system gave is shown as chrono writes it at some offset,
/// or, where that is no well-formed timestamp, as unknown.
pub fn modified_text(modified: Option<Timestamp>) -> (text: String)
    ensures
        exists|east: i32| is_offset(east) && text@ == #[trigger] modified_with(modified, east),
        modified matches Some(at) ==> exists|east: i32|
            is_offset(east) && text@ == accepted_text(
                #[trigger] clock_text(at.secs, at.nanos, east, TIMESTAMP_PATTERN@),
            ),
        modified is None ==> text@ == UNKNOWN_TIME@,
        is_modified_text(text@),
{
    let east = local_east(modified);
    let text = modified_text_at(modified, east);
    assert(text@ == modified_with(modified, east));
    text
}

} // verus!
