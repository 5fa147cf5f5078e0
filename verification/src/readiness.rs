//! The readiness a unit of work reports before a request is submitted.

use vstd::prelude::*;

verus! {

/// What a readiness probe reports: the unit can accept one request now
/// (`Ready`), the caller must wait until capacity frees (`Pending`), or the
/// unit has entered a terminal broken state it can never leave (`Failed`).
pub enum Readiness<E> {
    Ready,
    Pending,
    Failed(E),
}

} // verus!
