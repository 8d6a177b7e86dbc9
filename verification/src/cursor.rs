//! The claim cursor: the one counter that the workers share. A worker draws
//! a number from it and takes the task of that index, or stops where the
//! number is beyond the last task.

use std::sync::atomic::AtomicUsize;
use std::sync::atomic::Ordering;
use vstd::prelude::*;

verus! {

/// The index that a worker takes after drawing `drawn`, with `total` tasks:
/// `drawn` itself where there is such a task, none where there is not.
pub open spec fn claim_of(drawn: usize, total: usize) -> Option<usize> {
    if drawn < total {
        Some(drawn)
    } else {
        None
    }
}

/// Decides what a worker does with the number `drawn`: it takes the task of
/// that index, or stops (`None`) where the tasks are used up.
pub fn decide_claim(drawn: usize, total: usize) -> (claim: Option<usize>)
    ensures
        claim == claim_of(drawn, total),
{
    if drawn < total {
        Some(drawn)
    } else {
        None
    }
}

/// Draws the next number from the shared cursor: reads it and moves it on by
/// one, in one atomic step. What is drawn depends on the other workers, so
/// nothing is said of it here.
pub(crate) fn draw(cursor: &AtomicUsize) -> (drawn: usize) {
    cursor.fetch_add(1, Ordering::Acquire)
}

} // verus!
