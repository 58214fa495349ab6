//! Wall-clock readings, their display text, and the monotonic clock that
//! paces refreshes.
use vstd::prelude::*;
use crate::text::{decimal, push_char, push_decimal, push_two_digits, two_digits};
use std::time::Instant;

verus! {

#[verifier::external_type_specification]
#[verifier::external_body]
pub struct ExInstant(Instant);

/// Milliseconds that must pass between two refreshes.
pub const REFRESH_INTERVAL_MS: u128 = 1000;

/// A local calendar date and time of day, to the second.
#[derive(Clone, Copy, Debug, PartialEq, Eq)]
pub struct ClockReading {
    pub year: i32,
    pub month: u32,
    pub day: u32,
    pub hour: u32,
    pub minute: u32,
    pub second: u32,
}

impl ClockReading {
    /// Each field lies in its calendar range.
    pub open spec fn wf(self) -> bool {
        &&& 1 <= self.month <= 12
        &&& 1 <= self.day <= 31
        &&& self.hour < 24
        &&& self.minute < 60
        &&& self.second < 60
    }
}

/// A number zero-padded to at least four digits.
pub open spec fn four_digits(n: nat) -> Seq<char> {
    if n < 10000 {
        two_digits(n / 100) + two_digits(n % 100)
    } else {
        decimal(n)
    }
}

/// The year as four digits, with a sign in front when it lies outside
/// `0..=9999`.
pub open spec fn year_text(y: int) -> Seq<char> {
    if 0 <= y <= 9999 {
        four_digits(y as nat)
    } else if y < 0 {
        seq!['-'] + four_digits((-y) as nat)
    } else {
        seq!['+'] + four_digits(y as nat)
    }
}

/// The display text of a reading: `HH:MM:SS DD/MM/YYYY`.
pub open spec fn clock_text_spec(c: ClockReading) -> Seq<char> {
    two_digits(c.hour as nat) + seq![':'] + two_digits(c.minute as nat) + seq![':'] + two_digits(
        c.second as nat,
    ) + seq![' '] + two_digits(c.day as nat) + seq!['/'] + two_digits(c.month as nat) + seq!['/']
        + year_text(c.year as int)
}

/// `s` is the display text of some valid reading.
pub open spec fn is_clock_text(s: Seq<char>) -> bool {
    exists|c: ClockReading| c.wf() && s == #[trigger] clock_text_spec(c)
}

fn push_four_digits(s: &mut String, n: u64)
    ensures
        final(s)@ == old(s)@ + four_digits(n as nat),
{
    if n < 10000 {
        push_two_digits(s, n / 100);
        push_two_digits(s, n % 100);
        assert(final(s)@ =~= old(s)@ + four_digits(n as nat));
    } else {
        push_decimal(s, n);
    }
}

/// The display text of `c`, as `HH:MM:SS DD/MM/YYYY`.
pub fn clock_text(c: &ClockReading) -> (r: String)
    ensures
        r@ == clock_text_spec(*c),
{
    let mut s = String::new();
    push_two_digits(&mut s, c.hour as u64);
    push_char(&mut s, ':');
    push_two_digits(&mut s, c.minute as u64);
    push_char(&mut s, ':');
    push_two_digits(&mut s, c.second as u64);
    push_char(&mut s, ' ');
    push_two_digits(&mut s, c.day as u64);
    push_char(&mut s, '/');
    push_two_digits(&mut s, c.month as u64);
    push_char(&mut s, '/');
    let ghost before = s@;
    let y = c.year as i64;
    if 0 <= y && y <= 9999 {
        push_four_digits(&mut s, y as u64);
    } else if y < 0 {
        push_char(&mut s, '-');
        push_four_digits(&mut s, (-y) as u64);
    } else {
        push_char(&mut s, '+');
        push_four_digits(&mut s, y as u64);
    }
    assert(s@ =~= before + year_text(c.year as int));
    assert(s@ =~= clock_text_spec(*c));
    s
}

/// Relies on `chrono::Local::now` and the `Datelike` / `Timelike` accessors
/// of its result: the local date and time, each field in its calendar range
/// (the second is below 60, a leap second being kept in the nanoseconds).
#[verifier::external_body]
pub(crate) fn local_now() -> (r: ClockReading)
    ensures
        r.wf(),
{
    let now = chrono::Local::now();
    ClockReading {
        year: chrono::Datelike::year(&now),
        month: chrono::Datelike::month(&now),
        day: chrono::Datelike::day(&now),
        hour: chrono::Timelike::hour(&now),
        minute: chrono::Timelike::minute(&now),
        second: chrono::Timelike::second(&now),
    }
}

/// Relies on `std::time::Instant::now`: a reading of the monotonic clock.
#[verifier::external_body]
pub(crate) fn instant_now() -> (r: Instant) {
    Instant::now()
}

/// Relies on `Instant::elapsed` and `Duration::as_millis`: whole milliseconds
/// since `since` (zero when `since` lies ahead).
#[verifier::external_body]
pub(crate) fn elapsed_millis(since: &Instant) -> (r: u128) {
    since.elapsed().as_millis()
}

/// Whether a refresh is due after `elapsed_ms` milliseconds.
pub fn refresh_due(elapsed_ms: u128) -> (r: bool)
    ensures
        r == (elapsed_ms >= REFRESH_INTERVAL_MS),
{
    elapsed_ms >= REFRESH_INTERVAL_MS
}

} // verus!
