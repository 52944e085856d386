//! Durations and wall-clock instants, as the widgets read them.
//!
//! `Duration` and `SystemTime` stay opaque; what the widgets need of them is
//! read through the small trusted items below, each naming one std function.
use std::time::{Duration, SystemTime};
use vstd::prelude::*;

verus! {

#[verifier::external_type_specification]
#[verifier::external_body]
pub struct ExSystemTime(SystemTime);

/// Trusted: `SystemTime::clone`. `SystemTime` is `Copy`; its clone is the
/// same instant.
pub assume_specification[ <SystemTime as Clone>::clone ](t: &SystemTime) -> (r: SystemTime)
    ensures
        r == *t,
;

/// Whole seconds of a duration (`Duration::as_secs`).
pub uninterp spec fn duration_secs(d: Duration) -> u64;

/// Fractional part of a duration in nanoseconds (`Duration::subsec_nanos`).
pub uninterp spec fn duration_subsec_nanos(d: Duration) -> u32;

/// Whether a duration is zero: no seconds and no nanoseconds.
pub open spec fn zero_length(d: Duration) -> bool {
    duration_secs(d) == 0 && duration_subsec_nanos(d) == 0
}

/// Trusted: `Duration::as_secs`, the whole seconds of `d`.
#[verifier::external_body]
pub fn secs_of(d: &Duration) -> (s: u64)
    ensures
        s == duration_secs(*d),
{
    d.as_secs()
}

/// Trusted: `Duration::subsec_nanos`; std documents the value as the
/// fractional part of a second, below one billion.
#[verifier::external_body]
pub fn subsec_nanos_of(d: &Duration) -> (n: u32)
    ensures
        n == duration_subsec_nanos(*d),
        n < 1_000_000_000,
{
    d.subsec_nanos()
}

/// The total number of whole milliseconds of a duration, as
/// `Duration::as_millis` gives them: the seconds times a thousand plus the
/// whole milliseconds of the fractional part.
pub fn millis_of(d: &Duration) -> (m: u128)
    ensures
        m == duration_secs(*d) * 1000 + duration_subsec_nanos(*d) / 1_000_000,
{
    let secs = secs_of(d);
    let nanos = subsec_nanos_of(d);
    (secs as u128) * 1000 + (nanos / 1_000_000) as u128
}

/// Trusted: `Duration::ZERO`, a duration of no seconds and no nanoseconds.
#[verifier::external_body]
pub fn zero_duration() -> (d: Duration)
    ensures
        duration_secs(d) == 0,
        duration_subsec_nanos(d) == 0,
{
    Duration::ZERO
}

/// Trusted: `SystemTime::now`. Nothing is stated of the instant it returns:
/// it is the machine's clock.
#[verifier::external_body]
pub fn system_now() -> SystemTime {
    SystemTime::now()
}

/// The offset of an instant from the Unix epoch, as
/// `SystemTime::duration_since(UNIX_EPOCH)` gives it (`None` for an instant
/// before the epoch). It depends on the instant alone.
pub uninterp spec fn epoch_offset(t: SystemTime) -> Option<Duration>;

/// Trusted: `SystemTime::duration_since(UNIX_EPOCH)`, with its error mapped to
/// `None` (an instant before the epoch). The offset is named by
/// `epoch_offset`; what it is for a given instant is left unsaid, as it reads
/// the instant's platform representation.
#[verifier::external_body]
pub fn since_epoch(t: &SystemTime) -> (r: Option<Duration>)
    ensures
        r == epoch_offset(*t),
{
    t.duration_since(std::time::UNIX_EPOCH).ok()
}

/// The character of a decimal digit.
pub open spec fn digit_char(d: int) -> char {
    (48 + d) as char
}

/// Decimal digits of `v`, left-padded with zeros to at least `width` digits
/// (the `{:0width$}` format of a non-negative integer).
pub open spec fn padded_decimal(v: nat, width: nat) -> Seq<char>
    decreases width, v,
{
    if v < 10 && width <= 1 {
        seq![digit_char(v as int)]
    } else {
        padded_decimal(v / 10, if width > 0 { (width - 1) as nat } else { 0 }).push(
            digit_char((v % 10) as int),
        )
    }
}

/// `HH:MM:SS.mmm` of an offset from the epoch, the clock time in UTC with
/// milliseconds.
pub open spec fn clock_text(secs: u64, nanos: u32) -> Seq<char> {
    padded_decimal(((secs / 3600) % 24) as nat, 2) + seq![':'] + padded_decimal(
        ((secs / 60) % 60) as nat,
        2,
    ) + seq![':'] + padded_decimal((secs % 60) as nat, 2) + seq!['.'] + padded_decimal(
        (nanos / 1_000_000) as nat,
        3,
    )
}

fn push_digit(out: &mut Vec<char>, d: u64)
    requires
        d < 10,
    ensures
        final(out)@ == old(out)@.push(digit_char(d as int)),
{
    let c: char = ((48u8 + d as u8) as char);
    assert(c == digit_char(d as int));
    out.push(c);
}

proof fn lemma_two_digits(v: nat)
    requires
        v < 100,
    ensures
        padded_decimal(v, 2) == seq![digit_char((v / 10) as int), digit_char((v % 10) as int)],
{
    reveal_with_fuel(padded_decimal, 3);
    assert(padded_decimal(v / 10, 1) == seq![digit_char((v / 10) as int)]);
}

proof fn lemma_three_digits(v: nat)
    requires
        v < 1000,
    ensures
        padded_decimal(v, 3) == seq![
            digit_char((v / 100) as int),
            digit_char(((v / 10) % 10) as int),
            digit_char((v % 10) as int),
        ],
{
    reveal_with_fuel(padded_decimal, 4);
    lemma_two_digits(v / 10);
    assert((v / 10) / 10 == v / 100);
}

fn push_two(out: &mut Vec<char>, v: u64)
    requires
        v < 100,
    ensures
        final(out)@ == old(out)@ + padded_decimal(v as nat, 2),
{
    proof {
        lemma_two_digits(v as nat);
    }
    push_digit(out, v / 10);
    push_digit(out, v % 10);
}

/// Format an offset from the epoch as `HH:MM:SS.mmm`.
pub fn format_clock(secs: u64, nanos: u32) -> (s: String)
    requires
        nanos < 1_000_000_000,
    ensures
        s@ == clock_text(secs, nanos),
{
    let mut out: Vec<char> = Vec::new();
    push_two(&mut out, (secs / 3600) % 24);
    out.push(':');
    push_two(&mut out, (secs / 60) % 60);
    out.push(':');
    push_two(&mut out, secs % 60);
    out.push('.');
    let ms: u64 = (nanos / 1_000_000) as u64;
    proof {
        lemma_three_digits(ms as nat);
    }
    push_digit(&mut out, ms / 100);
    push_digit(&mut out, (ms / 10) % 10);
    push_digit(&mut out, ms % 10);
    crate::text::string_from_chars(&out)
}

/// The clock text of an offset from the epoch; no offset (an instant before
/// the epoch) reads as midnight.
pub open spec fn offset_text(offset: Option<Duration>) -> Seq<char> {
    match offset {
        Some(d) => clock_text(duration_secs(d), duration_subsec_nanos(d)),
        None => clock_text(0, 0),
    }
}

/// The clock time of an instant: its offset from the epoch as `HH:MM:SS.mmm`.
pub open spec fn timestamp_text(t: SystemTime) -> Seq<char> {
    offset_text(epoch_offset(t))
}

/// Format an offset from the epoch as `HH:MM:SS.mmm`, or `00:00:00.000`
/// where there is none.
pub fn format_offset(offset: &Option<Duration>) -> (s: String)
    ensures
        s@ == offset_text(*offset),
{
    match offset {
        Some(d) => format_clock(secs_of(d), subsec_nanos_of(d)),
        None => format_clock(0, 0),
    }
}

/// Format the clock time of an instant as `HH:MM:SS.mmm` (UTC).
pub fn format_instant(t: &SystemTime) -> (s: String)
    ensures
        s@ == timestamp_text(*t),
{
    let offset = since_epoch(t);
    format_offset(&offset)
}

} // verus!
