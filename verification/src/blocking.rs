//! Handing the result of a blocking function, run on another thread, back
//! to the future that waits for it.
use vstd::prelude::*;
use simple_futures::value_future::ValueFutureHandle;
use crate::outside::assign_value;

verus! {

/// Whether an assignment went as it should, given what the handle
/// reported: a dropped future (`None`) or a taken value (`Some(Ok)`) is
/// fine; `Some(Err)`, a future that already held a value, is not.
pub fn assignment_ok<T>(reported: &Option<Result<(), T>>) -> (r: bool)
    ensures
        r <==> !(reported matches Some(Err(_))),
{
    match reported {
        Some(Err(_)) => false,
        _ => true,
    }
}

/// Hands `value`, the result of the blocking function, to the future behind
/// `handle`. Returns `false` when the future already held a value, which
/// the caller treats as a failure.
pub fn deliver_blocking_result<T>(handle: &ValueFutureHandle<T>, value: T) -> (r: bool) {
    let reported = assign_value(handle, value);
    assignment_ok(&reported)
}

} // verus!
