//! Wall-clock and monotonic time, as plain integers.
//!
//! Every reading of a clock goes through one of the small trusted wrappers
//! below; nothing is promised of the values they return beyond the range
//! that std documents.  The arithmetic that turns a reading into
//! milliseconds or a timestamp string is verified here.
use vstd::prelude::*;
use std::time::{Instant, SystemTime};
use crate::text::{decimal_digits, zero_padded_decimal, spec_decimal, spec_zero_padded};

verus! {

#[verifier::external_type_specification]
#[verifier::external_body]
pub struct ExSystemTime(SystemTime);

#[verifier::external_type_specification]
#[verifier::external_body]
pub struct ExInstant(Instant);

/// `Instant` is `Copy`: cloning gives the same instant.
pub assume_specification[ <Instant as Clone>::clone ](i: &Instant) -> (r: Instant)
    ensures
        r == *i,
;

/// Reads `std::time::SystemTime::now`.  Nothing is claimed of the reading.
#[verifier::external_body]
fn wall_clock_now() -> (t: SystemTime) {
    SystemTime::now()
}

/// Calls `SystemTime::duration_since(UNIX_EPOCH)` on `t`.  An error (a clock
/// set before 1970) becomes `None`; otherwise the duration is returned as
/// whole seconds and the sub-second nanoseconds, which std documents to be
/// below one billion.
#[verifier::external_body]
fn elapsed_since_unix_epoch(t: &SystemTime) -> (r: Option<(u64, u32)>)
    ensures
        r matches Some(p) ==> p.1 < 1_000_000_000,
{
    t.duration_since(std::time::UNIX_EPOCH).ok().map(|d| (d.as_secs(), d.subsec_nanos()))
}

/// Reads `std::time::Instant::now`.  Nothing is claimed of the reading.
#[verifier::external_body]
pub(crate) fn monotonic_now() -> (t: Instant) {
    Instant::now()
}

/// Calls `Instant::elapsed` on `since` and returns the duration in whole
/// nanoseconds.  The value depends on the time of the call, so nothing is
/// claimed of it.
#[verifier::external_body]
pub(crate) fn nanos_elapsed(since: &Instant) -> (n: u128) {
    since.elapsed().as_nanos()
}

/// The current time since the Unix epoch as (seconds, sub-second nanoseconds);
/// a clock that reads before the epoch counts as zero.
pub fn unix_time_now() -> (t: (u64, u32))
    ensures
        t.1 < 1_000_000_000,
{
    let now = wall_clock_now();
    match elapsed_since_unix_epoch(&now) {
        Some(p) => p,
        None => (0, 0),
    }
}

/// Whole milliseconds of a (seconds, nanoseconds) reading, wrapped to 64 bits.
pub open spec fn spec_millis_u64(secs: u64, nanos: u32) -> int {
    (secs * 1000 + nanos / 1_000_000) % 0x1_0000_0000_0000_0000
}

/// Converts a reading into whole milliseconds, keeping the low 64 bits.
pub fn millis_from_reading(secs: u64, nanos: u32) -> (ms: u64)
    requires
        nanos < 1_000_000_000,
    ensures
        ms as int == spec_millis_u64(secs, nanos),
{
    let a = secs.wrapping_mul(1000);
    let m: u64 = (nanos / 1_000_000) as u64;
    let r = a.wrapping_add(m);
    proof {
        let big: int = 0x1_0000_0000_0000_0000;
        let p: int = secs as int * 1000;
        assert(a as int == p % big);
        vstd::arithmetic::div_mod::lemma_add_mod_noop(p, m as int, big);
        vstd::arithmetic::div_mod::lemma_mod_twice(m as int, big);
        vstd::arithmetic::div_mod::lemma_small_mod(m as nat, big as nat);
        if a as int + m as int > u64::MAX {
            vstd::arithmetic::div_mod::lemma_mod_sub_multiples_vanish(a as int + m as int, big);
            assert((a as int + m as int - big) % big == (a as int + m as int) % big) by {
                vstd::arithmetic::div_mod::lemma_mod_sub_multiples_vanish(a as int + m as int, big);
            }
            vstd::arithmetic::div_mod::lemma_small_mod((a as int + m as int - big) as nat, big as nat);
        } else {
            vstd::arithmetic::div_mod::lemma_small_mod((a as int + m as int) as nat, big as nat);
        }
    }
    r
}

/// Current Unix time in milliseconds: the milliseconds of some clock
/// reading (which one depends on when it is called).
pub fn current_timestamp_ms() -> (ms: u64)
    ensures
        exists|secs: u64, nanos: u32| nanos < 1_000_000_000 && ms == spec_millis_u64(secs, nanos),
{
    let (secs, nanos) = unix_time_now();
    let ms = millis_from_reading(secs, nanos);
    assert(nanos < 1_000_000_000 && ms == spec_millis_u64(secs, nanos));
    ms
}

/// The timestamp text of a reading: the decimal seconds, a dot, and the
/// nanoseconds padded with zeros to nine digits.
pub open spec fn spec_timestamp_text(secs: u64, nanos: u32) -> Seq<char> {
    spec_decimal(secs as nat) + seq!['.'] + spec_zero_padded(nanos as nat, 9)
}

/// Formats a reading as `"{secs}.{nanos:09}"`.
pub fn timestamp_text(secs: u64, nanos: u32) -> (s: String)
    ensures
        s@ == spec_timestamp_text(secs, nanos),
{
    let mut s = decimal_digits(secs as u128);
    s.append(".");
    let tail = zero_padded_decimal(nanos as u128, 9);
    s.append(tail.as_str());
    proof {
        reveal_strlit(".");
    }
    s
}

/// The current time as a `"{secs}.{nanos:09}"` timestamp string: the text
/// of some clock reading.
pub fn chrono_timestamp() -> (s: String)
    ensures
        exists|secs: u64, nanos: u32| nanos < 1_000_000_000 && s@ == spec_timestamp_text(secs, nanos),
{
    let (secs, nanos) = unix_time_now();
    let s = timestamp_text(secs, nanos);
    assert(nanos < 1_000_000_000 && s@ == spec_timestamp_text(secs, nanos));
    s
}

} // verus!
