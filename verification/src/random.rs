//! The random source: thin trusted wrappers over `bracket_lib`'s
//! `RandomNumberGenerator`, stating only the ranges that its source
//! documents. Nothing is assumed about which value comes back.
use vstd::prelude::*;

verus! {

/// Declares `bracket_lib`'s `RandomNumberGenerator` so that it can stand
/// in signatures; its value is opaque here.
#[verifier::external_type_specification]
#[verifier::external_body]
pub struct ExRandomNumberGenerator(bracket_lib::random::RandomNumberGenerator);

/// Relies on `RandomNumberGenerator::new`: builds a generator from a fresh
/// entropy seed. Nothing is promised of the values it will draw.
#[verifier::external_body]
pub fn rng_new() -> bracket_lib::random::RandomNumberGenerator {
    bracket_lib::random::RandomNumberGenerator::new()
}

/// Relies on `RandomNumberGenerator::range`: a uniform draw that is
/// inclusive of `min` and exclusive of `max`; it panics on an empty range,
/// which the precondition rules out.
#[verifier::external_body]
pub fn rng_range(rng: &mut bracket_lib::random::RandomNumberGenerator, min: i32, max: i32) -> (r:
    i32)
    requires
        min < max,
    ensures
        min <= r < max,
{
    rng.range(min, max)
}

/// Relies on `RandomNumberGenerator::roll_dice`: the sum of `n` draws, each
/// inclusive of 1 and of `die_type`. It draws from `1..die_type + 1`, so it
/// panics when `die_type < 1` (an empty range) and when `die_type` is the
/// largest `i32` (the `+ 1` overflows); the preconditions rule both out,
/// and the bound on `n * die_type` keeps the sum within `i32`.
#[verifier::external_body]
pub fn rng_roll_dice(
    rng: &mut bracket_lib::random::RandomNumberGenerator,
    n: i32,
    die_type: i32,
) -> (r: i32)
    requires
        1 <= n,
        1 <= die_type < i32::MAX,
        n * die_type <= i32::MAX,
    ensures
        n <= r <= n * die_type,
{
    rng.roll_dice(n, die_type)
}

} // verus!
