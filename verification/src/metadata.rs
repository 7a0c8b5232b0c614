//! The line of text that tells an entry's size and age.

use vstd::prelude::*;
use crate::text::text_of;

verus! {

/// The character that stands for the digit `d`.
pub open spec fn digit_char(d: nat) -> char
    recommends
        d < 10,
{
    if d == 0 {
        '0'
    } else if d == 1 {
        '1'
    } else if d == 2 {
        '2'
    } else if d == 3 {
        '3'
    } else if d == 4 {
        '4'
    } else if d == 5 {
        '5'
    } else if d == 6 {
        '6'
    } else if d == 7 {
        '7'
    } else if d == 8 {
        '8'
    } else {
        '9'
    }
}

/// The number `n` written in decimal, without sign or leading zeros.
pub open spec fn decimal_text(n: nat) -> Seq<char>
    decreases n,
{
    if n < 10 {
        seq![digit_char(n)]
    } else {
        decimal_text(n / 10).push(digit_char(n % 10))
    }
}

/// The line that tells a size and a time of modification.
pub open spec fn metadata_text(size: nat, stamp: Seq<char>) -> Seq<char> {
    decimal_text(size) + " bytes, modified: "@ + stamp
}

/// What `chrono` writes for the instant `seconds` after the Unix epoch, on
/// the UTC calendar, as year, month and day, then hour, minute and second;
/// `None` for an instant that lies outside the years `chrono` can hold.
pub uninterp spec fn utc_calendar_text(seconds: int) -> Option<Seq<char>>;

/// Runs `chrono::DateTime::<Utc>::from_timestamp(seconds, 0)` and, where
/// that gives an instant, `DateTime::format` with the pattern
/// `%Y-%m-%d %H:%M:%S` on it. The contract claims only that the outcome is a
/// function of `seconds`; which text it is was not proved here.
#[verifier::external_body]
fn utc_calendar(seconds: i64) -> (text: Option<String>)
    ensures
        text_of(text) == utc_calendar_text(seconds as int),
{
    match chrono::DateTime::<chrono::Utc>::from_timestamp(seconds, 0) {
        Some(instant) => Some(instant.format("%Y-%m-%d %H:%M:%S").to_string()),
        None => None,
    }
}

fn digit_str(d: u64) -> (s: &'static str)
    requires
        d < 10,
    ensures
        s@ == seq![digit_char(d as nat)],
{
    proof {
        reveal_strlit("0");
        reveal_strlit("1");
        reveal_strlit("2");
        reveal_strlit("3");
        reveal_strlit("4");
        reveal_strlit("5");
        reveal_strlit("6");
        reveal_strlit("7");
        reveal_strlit("8");
        reveal_strlit("9");
    }
    let s = if d == 0 {
        "0"
    } else if d == 1 {
        "1"
    } else if d == 2 {
        "2"
    } else if d == 3 {
        "3"
    } else if d == 4 {
        "4"
    } else if d == 5 {
        "5"
    } else if d == 6 {
        "6"
    } else if d == 7 {
        "7"
    } else if d == 8 {
        "8"
    } else {
        "9"
    };
    assert(s@ =~= seq![digit_char(d as nat)]);
    s
}

/// Writes `n` in decimal.
pub fn decimal(n: u64) -> (text: String)
    ensures
        text@ == decimal_text(n as nat),
    decreases n,
{
    if n < 10 {
        String::from_str(digit_str(n))
    } else {
        let mut text = decimal(n / 10);
        text.append(digit_str(n % 10));
        assert(text@ =~= decimal_text(n as nat / 10).push(digit_char(n as nat % 10)));
        text
    }
}

/// Writes the line that tells a size in bytes and, in `stamp`, a time of
/// modification.
pub fn metadata_line(size: u64, stamp: &str) -> (line: String)
    ensures
        line@ == metadata_text(size as nat, stamp@),
{
    let mut line = decimal(size);
    line.append(" bytes, modified: ");
    line.append(stamp);
    line
}

/// The whole seconds since the Unix epoch, counted toward the past, of the
/// instant that lies `seconds` whole seconds and `nanoseconds` more after
/// the epoch, or before it where `before_epoch` says so.
pub open spec fn epoch_seconds(before_epoch: bool, seconds: u64, nanoseconds: u32) -> int {
    if !before_epoch {
        seconds as int
    } else if nanoseconds == 0 {
        -(seconds as int)
    } else {
        -(seconds as int) - 1
    }
}

/// Works out the whole seconds since the Unix epoch of an instant given by
/// its distance from the epoch, or `None` where they do not fit.
pub fn seconds_since_epoch(before_epoch: bool, seconds: u64, nanoseconds: u32) -> (stamp: Option<
    i64,
>)
    ensures
        stamp == if i64::MIN <= epoch_seconds(before_epoch, seconds, nanoseconds) <= i64::MAX {
            Some(epoch_seconds(before_epoch, seconds, nanoseconds) as i64)
        } else {
            None
        },
{
    let limit: u64 = 0x7fff_ffff_ffff_ffff;
    if !before_epoch {
        if seconds <= limit {
            Some(seconds as i64)
        } else {
            None
        }
    } else if nanoseconds == 0 {
        if seconds <= limit {
            Some(-(seconds as i64))
        } else if seconds == limit + 1 {
            Some(i64::MIN)
        } else {
            None
        }
    } else {
        if seconds <= limit {
            Some(-(seconds as i64) - 1)
        } else {
            None
        }
    }
}

/// The line for an entry of `size` bytes last modified at `modified_at`,
/// in whole seconds since the Unix epoch: the Unix epoch itself where the
/// time is unknown, and no line where the time lies outside the calendar.
pub open spec fn dated_metadata_text(size: u64, modified_at: Option<i64>) -> Option<Seq<char>> {
    let seconds: i64 = match modified_at {
        Some(seconds) => seconds,
        None => 0,
    };
    match utc_calendar_text(seconds as int) {
        Some(stamp) => Some(metadata_text(size as nat, stamp)),
        None => None,
    }
}

/// Writes the line for an entry of `size` bytes last modified at
/// `modified_at`.
pub fn dated_metadata_line(size: u64, modified_at: Option<i64>) -> (line: Option<String>)
    ensures
        text_of(line) == dated_metadata_text(size, modified_at),
{
    let seconds: i64 = match modified_at {
        Some(seconds) => seconds,
        None => 0,
    };
    match utc_calendar(seconds) {
        Some(stamp) => Some(metadata_line(size, stamp.as_str())),
        None => None,
    }
}

} // verus!
