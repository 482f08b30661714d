//! How many workers serve the exchanges.

use vstd::prelude::*;

verus! {

/// Calls `num_cpus::get`, the number of processing units available to this
/// process. Trusted: it is at least 1, as the crate's documentation says;
/// which number it is depends on the machine.
#[verifier::external_body]
fn available_units() -> (n: usize)
    ensures
        n >= 1,
{
    num_cpus::get()
}

/// The number of workers for a caller who asked for `jobs` of them on a
/// machine with `available` processing units: what was asked for, else one
/// worker for each unit.
pub open spec fn chosen_workers(jobs: Option<usize>, available: usize) -> usize {
    match jobs {
        Some(n) => n,
        None => available,
    }
}

/// The number of workers for a caller who asked for `jobs` of them on a
/// machine with `available` processing units.
pub fn choose_workers(jobs: Option<usize>, available: usize) -> (n: usize)
    ensures
        n == chosen_workers(jobs, available),
{
    match jobs {
        Some(n) => n,
        None => available,
    }
}

/// The number of workers for a caller who asked for `jobs` of them on this
/// machine. The machine is asked for its processing units only where the
/// caller named no number.
pub fn worker_count(jobs: Option<usize>) -> (n: usize)
    ensures
        jobs matches Some(asked) ==> n == asked,
        jobs is None ==> n >= 1,
{
    match jobs {
        Some(n) => n,
        None => choose_workers(None, available_units()),
    }
}

} // verus!
