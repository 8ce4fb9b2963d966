//! Wall-clock time and fresh identifiers.

use vstd::prelude::*;
use vstd::arithmetic::power2::pow2;

verus! {

/// Reads the current time through `chrono::Utc::now()` and returns it as
/// milliseconds since the Unix epoch (`DateTime::timestamp_millis`), the form a
/// message's timestamp takes. Nothing is promised of the value: it is whatever
/// the system clock says.
#[verifier::external_body]
pub(crate) fn current_timestamp_millis() -> (now: i64) {
    chrono::Utc::now().timestamp_millis()
}

/// Reads the current time through `chrono::Utc::now()` and returns it as the
/// whole seconds since the Unix epoch (`DateTime::timestamp`) and the
/// nanoseconds past that second (`DateTime::timestamp_subsec_nanos`). Nothing
/// is promised of the values: they are whatever the system clock says.
#[verifier::external_body]
pub(crate) fn current_time_parts() -> (parts: (i64, u32)) {
    let t = chrono::Utc::now();
    (t.timestamp(), t.timestamp_subsec_nanos())
}

/// Nanoseconds in a second.
pub const NANOS_PER_SECOND: i128 = 1_000_000_000;

/// The instant, in nanoseconds since the Unix epoch, that lies `nanos`
/// nanoseconds past second `secs`.
pub fn instant_from_parts(secs: i64, nanos: u32) -> (t: i128)
    ensures
        t == secs * NANOS_PER_SECOND + nanos,
{
    assert(secs * NANOS_PER_SECOND <= i64::MAX * 1_000_000_000) by (nonlinear_arith)
        requires
            secs <= i64::MAX,
            NANOS_PER_SECOND == 1_000_000_000,
    ;
    assert(secs * NANOS_PER_SECOND >= i64::MIN * 1_000_000_000) by (nonlinear_arith)
        requires
            secs >= i64::MIN,
            NANOS_PER_SECOND == 1_000_000_000,
    ;
    secs as i128 * NANOS_PER_SECOND + nanos as i128
}

/// An instant, in nanoseconds since the Unix epoch, split into whole seconds
/// and the nanoseconds past that second; none where the seconds do not fit an
/// `i64`.
pub fn instant_parts(t: i128) -> (r: Option<(i64, u32)>)
    ensures
        match r {
            Some((secs, nanos)) => secs * NANOS_PER_SECOND + nanos == t && nanos < NANOS_PER_SECOND,
            None => t / NANOS_PER_SECOND > i64::MAX || t / NANOS_PER_SECOND < i64::MIN,
        },
{
    proof {
        lemma_instant_division(t);
    }
    let secs = match t.checked_div_euclid(NANOS_PER_SECOND) {
        Some(q) => q,
        None => {
            return None;
        },
    };
    if secs > i64::MAX as i128 || secs < i64::MIN as i128 {
        return None;
    }
    let nanos = t - secs * NANOS_PER_SECOND;
    Some((secs as i64, nanos as u32))
}

/// Whole seconds and the rest of an instant: the rest lies within a second, and
/// the seconds fit wherever the instant does.
proof fn lemma_instant_division(t: i128)
    ensures
        t / NANOS_PER_SECOND * NANOS_PER_SECOND <= t,
        t - t / NANOS_PER_SECOND * NANOS_PER_SECOND < NANOS_PER_SECOND,
        i128::MIN <= t / NANOS_PER_SECOND <= i128::MAX,
{
    let d = NANOS_PER_SECOND as int;
    let ti = t as int;
    assert(ti / d * d <= ti && ti - ti / d * d < d) by (nonlinear_arith)
        requires
            d == 1_000_000_000,
    ;
    assert(i128::MIN <= ti / d <= i128::MAX) by (nonlinear_arith)
        requires
            d == 1_000_000_000,
            i128::MIN <= ti <= i128::MAX,
    ;
}

/// The current time, in nanoseconds since the Unix epoch. Nothing is promised
/// of the value: it is whatever the system clock says.
pub fn current_time_nanos() -> (now: i128) {
    let (secs, nanos) = current_time_parts();
    instant_from_parts(secs, nanos)
}

/// Whether more than `limit` has passed from `then` to `now`, in one unit.
pub fn elapsed_exceeds(now: i128, then: i128, limit: i128) -> (b: bool)
    ensures
        b == (now - then > limit),
{
    match now.checked_sub(then) {
        Some(d) => d > limit,
        None => now > then,
    }
}

/// Whether `id` carries the marks of a random (version 4) UUID: version digit
/// 4 and variant bits `10`.
pub open spec fn is_random_uuid(id: u128) -> bool {
    id & 0xF000_C000_0000_0000_0000u128 == 0x4000_8000_0000_0000_0000u128
}

/// Draws a fresh random identifier through `uuid::Uuid::new_v4()` and returns
/// its 128-bit value (`Uuid::as_u128`). The value is random; the contract
/// claims only what `new_v4` sets: the version digit is 4 and the variant bits
/// are `10`.
#[verifier::external_body]
pub(crate) fn generate_client_id() -> (id: u128)
    ensures
        is_random_uuid(id),
{
    uuid::Uuid::new_v4().as_u128()
}

/// The lower-case hexadecimal digit of a value below sixteen.
pub open spec fn hex_digit(n: int) -> char {
    if n < 10 {
        (n + 48) as char
    } else {
        (n + 87) as char
    }
}

/// The `i`-th hexadecimal digit of `id`, counted from the most significant
/// of its 32 digits.
pub open spec fn nibble(id: u128, i: int) -> int {
    (id as int / pow2((4 * (31 - i)) as nat) as int) % 16
}

/// The `len` hexadecimal digits of `id` from its `from`-th digit on.
pub open spec fn hex_run(id: u128, from: int, len: nat) -> Seq<char> {
    Seq::new(len, |k: int| hex_digit(nibble(id, from + k)))
}

/// The hyphenated form of the UUID whose 128-bit value is `id`: its 32
/// lower-case hexadecimal digits, most significant first, in groups of 8, 4,
/// 4, 4 and 12 joined by hyphens.
pub open spec fn uuid_text(id: u128) -> Seq<char> {
    hex_run(id, 0, 8) + seq!['-'] + hex_run(id, 8, 4) + seq!['-'] + hex_run(id, 12, 4) + seq!['-']
        + hex_run(id, 16, 4) + seq!['-'] + hex_run(id, 20, 12)
}

/// Formats a client id as `uuid::Uuid::from_u128(id).to_string()` does. The
/// contract claims that the result is the hyphenated lower-case form
/// [`uuid_text`], which `Uuid`'s `Display` writes (`from_u128` takes the value's
/// bytes most significant first).
#[verifier::external_body]
pub(crate) fn uuid_to_string(id: u128) -> (s: String)
    ensures
        s@ == uuid_text(id),
{
    uuid::Uuid::from_u128(id).to_string()
}

/// The largest whole number of seconds that `chrono::Duration` holds
/// (`i64::MAX / 1000`, the seconds part of `TimeDelta::MAX`).
pub const CHRONO_MAX_SECONDS: u64 = 9223372036854775;

/// Converts a whole number of seconds into a `chrono::Duration` through
/// `chrono::Duration::from_std(std::time::Duration::from_secs(secs))` and reads
/// it back with `num_milliseconds`. The contract claims what chrono's source
/// shows: `from_std` fails exactly when the seconds exceed the seconds part of
/// `TimeDelta::MAX`, and otherwise the duration is `secs * 1000` milliseconds.
#[verifier::external_body]
pub(crate) fn seconds_as_chrono_millis(secs: u64) -> (r: Option<i64>)
    ensures
        r == (if secs <= CHRONO_MAX_SECONDS {
            Some((secs * 1000) as i64)
        } else {
            None::<i64>
        }),
{
    match chrono::Duration::from_std(std::time::Duration::from_secs(secs)) {
        Ok(d) => Some(d.num_milliseconds()),
        Err(_) => None,
    }
}

} // verus!
