//! Small computations of the sample guest modules.
use vstd::prelude::*;
use vstd::math::abs;
use std::time::{SystemTime, UNIX_EPOCH};

verus! {

/// Adds one to a signed 32-bit integer.
pub fn add_one(n: i32) -> (r: i32)
    requires
        n < i32::MAX,
    ensures
        r == n + 1,
{
    n + 1
}

/// Division that rounds toward zero, as Rust's `/` on integers does.
pub open spec fn trunc_div(a: int, b: int) -> int {
    let q: int = abs(a) as int / abs(b) as int;
    if (a < 0) == (b < 0) {
        q
    } else {
        -q
    }
}

/// Divides `a` by `b`, rounding toward zero.
pub fn div(a: i32, b: i32) -> (r: i32)
    requires
        b != 0,
        !(a == i32::MIN && b == -1),
    ensures
        r == trunc_div(a as int, b as int),
{
    let x = a as i64;
    let y = b as i64;
    let ax: u64 = if x < 0 { (-x) as u64 } else { x as u64 };
    let ay: u64 = if y < 0 { (-y) as u64 } else { y as u64 };
    let q: u64 = ax / ay;
    assert(ax as int == abs(a as int) && ay as int == abs(b as int));
    assert(q <= ax && (ay == 1 ==> q == ax) && (ay >= 2 ==> 2 * q <= ax)) by (nonlinear_arith)
        requires
            ay >= 1,
            q == ax / ay,
    ;
    if (a < 0) == (b < 0) {
        q as i32
    } else {
        -(q as i64) as i32
    }
}

/// Seconds from the Unix epoch to 2000-01-01T00:00:00Z.
pub const MILLENNIUM_SECS: u64 = 946684800;

/// A time, in seconds since the Unix epoch, falls after the start of 2000.
pub fn after_millennium(secs: u64) -> (r: bool)
    ensures
        r == (secs > MILLENNIUM_SECS),
{
    secs > MILLENNIUM_SECS
}

/// Relies on `SystemTime::now` and `duration_since(UNIX_EPOCH)`: whole seconds
/// since the epoch, or nothing where the clock reads earlier than the epoch.
#[verifier::external_body]
fn unix_seconds() -> Option<u64> {
    SystemTime::now().duration_since(UNIX_EPOCH).ok().map(|d| d.as_secs())
}

/// The current time falls after 2000-01-01. A clock that reads earlier than
/// the Unix epoch gives `false`.
pub fn wen_millennium() -> bool {
    match unix_seconds() {
        Some(secs) => after_millennium(secs),
        None => false,
    }
}

} // verus!
