//! Default concurrency computation: the number of simultaneous migrations
//! defaults to a quarter of the available execution units, clamped so that
//! scheduling can always make progress.

use vstd::prelude::*;

verus! {

/// Relies on num_cpus::get: returns the number of available execution
/// units, which is at least 1 on every platform.
#[verifier::external_body]
pub fn available_execution_units() -> (n: usize)
    ensures
        n >= 1,
{
    num_cpus::get()
}

/// The divisor applied to the available execution units when computing the
/// default concurrency.
pub const DEFAULT_DIVISOR: usize = 4;

/// Clamps a computed concurrency to at least 1: a bound of 0 would let no
/// job ever start.
pub fn effective_concurrency(units: usize) -> (c: usize)
    ensures
        c == if units / DEFAULT_DIVISOR == 0 { 1usize } else { units / DEFAULT_DIVISOR },
        c >= 1,
{
    let raw: usize = units / DEFAULT_DIVISOR;
    if raw == 0 {
        1
    } else {
        raw
    }
}

/// The default concurrency bound: available execution units divided by
/// `DEFAULT_DIVISOR`, clamped to at least 1.
pub fn default_concurrency() -> (c: usize)
    ensures
        c >= 1,
{
    let units = available_execution_units();
    effective_concurrency(units)
}

} // verus!
