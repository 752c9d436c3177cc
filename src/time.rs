//! Wall-clock values of std, carried through the library as opaque values.

use vstd::prelude::*;

verus! {

#[verifier::external_type_specification]
#[verifier::external_body]
pub struct ExInstant(std::time::Instant);

/// Relies on `std::time::Instant::now`: the current instant. Nothing is
/// promised of the value, which depends on the clock.
#[verifier::external_body]
pub(crate) fn instant_now() -> (r: std::time::Instant) {
    std::time::Instant::now()
}

/// Relies on `std::time::Instant::elapsed`: the time that passed since `i`.
/// Nothing is promised of the value, which depends on the clock.
#[verifier::external_body]
pub(crate) fn elapsed_since(i: &std::time::Instant) -> (r: std::time::Duration) {
    i.elapsed()
}

/// Relies on `std::time::Duration::as_millis`: the whole milliseconds in `d`.
/// A duration is opaque here, so nothing is promised of the value.
#[verifier::external_body]
pub(crate) fn whole_millis(d: &std::time::Duration) -> (r: u128) {
    d.as_millis()
}

} // verus!
