//! Collections the bridge hands over one element at a time: the element count
//! it reports, the index it takes, and the handle it returns for each index.

use vstd::prelude::*;

use crate::error::AVPlayerError;
use crate::text::{decimal, decimal_spec, decimal_unsigned, nat_digits};

verus! {

/// Checks an element count that the bridge reported: a negative count is an
/// `OperationFailed` error `"invalid <what> count: <count>"`; otherwise the
/// count, as a `usize`.
pub fn checked_count(count: i32, what: &str) -> (r: Result<usize, AVPlayerError>)
    ensures
        count >= 0 ==> r == Ok::<usize, AVPlayerError>(count as usize),
        count < 0 ==> (match r {
            Err(e) => e is OperationFailed && e.message_of() == "invalid "@ + what@ + " count: "@
                + decimal_spec(count as int),
            Ok(_) => false,
        }),
{
    if count < 0 {
        let message = "invalid ".to_owned().concat(what).concat(" count: ").concat(
            decimal(count as i64).as_str(),
        );
        Err(AVPlayerError::OperationFailed(message))
    } else {
        Ok(count as usize)
    }
}

/// The index to hand the bridge for element `index`: the bridge takes an
/// `i32`, and an index beyond `i32::MAX` is passed as `i32::MAX`.
pub fn bridge_index(index: usize) -> (r: i32)
    ensures
        index <= i32::MAX ==> r == index as i32,
        index > i32::MAX ==> r == i32::MAX,
{
    if index <= 0x7fff_ffffusize {
        index as i32
    } else {
        i32::MAX
    }
}

/// The handle the bridge returned for element `index` of a collection of
/// `what`: a null handle is the `OperationFailed` error
/// `"bridge returned null <what> at index <index>"`.
pub fn require_element(handle: u64, what: &str, index: usize) -> (r: Result<u64, AVPlayerError>)
    ensures
        handle != 0 ==> r == Ok::<u64, AVPlayerError>(handle),
        handle == 0 ==> (match r {
            Err(e) => e is OperationFailed && e.message_of() == "bridge returned null "@ + what@
                + " at index "@ + nat_digits(index as nat),
            Ok(_) => false,
        }),
{
    if handle == 0 {
        let message = "bridge returned null ".to_owned().concat(what).concat(" at index ").concat(
            decimal_unsigned(index as u64).as_str(),
        );
        Err(AVPlayerError::OperationFailed(message))
    } else {
        Ok(handle)
    }
}

/// Checks the item count a queue player reported: a negative count is the
/// `OperationFailed` error `"queue item count unexpectedly negative: <count>"`.
pub fn checked_queue_item_count(count: i32) -> (r: Result<usize, AVPlayerError>)
    ensures
        count >= 0 ==> r == Ok::<usize, AVPlayerError>(count as usize),
        count < 0 ==> (match r {
            Err(e) => e is OperationFailed && e.message_of() == "queue item count unexpectedly negative: "@
                + decimal_spec(count as int),
            Ok(_) => false,
        }),
{
    if count < 0 {
        Err(AVPlayerError::OperationFailed(
            "queue item count unexpectedly negative: ".to_owned().concat(decimal(count as i64).as_str()),
        ))
    } else {
        Ok(count as usize)
    }
}

/// The bridge index of queue item `index`: an index beyond `i32::MAX` is the
/// `OperationFailed` error `"queue item index exceeds bridge range: out of range
/// integral type conversion attempted"`.
pub fn queue_item_index(index: usize) -> (r: Result<i32, AVPlayerError>)
    ensures
        index <= i32::MAX ==> r == Ok::<i32, AVPlayerError>(index as i32),
        index > i32::MAX ==> (match r {
            Err(e) => e is OperationFailed && e.message_of()
                == "queue item index exceeds bridge range: out of range integral type conversion attempted"@,
            Ok(_) => false,
        }),
{
    if index <= 0x7fff_ffffusize {
        Ok(index as i32)
    } else {
        Err(AVPlayerError::OperationFailed(
            "queue item index exceeds bridge range: out of range integral type conversion attempted".to_owned(),
        ))
    }
}

/// The indices to ask the bridge for, in order, for a collection whose count
/// it reported: a negative count is the error [`checked_count`] reports;
/// otherwise `0, 1, ..., count - 1`.
pub fn bridge_indices(count: i32, what: &str) -> (r: Result<Vec<i32>, AVPlayerError>)
    ensures
        count >= 0 ==> r is Ok && r->Ok_0@.len() == count && forall|i: int|
            0 <= i < count ==> #[trigger] r->Ok_0@[i] == i,
        count < 0 ==> (match r {
            Err(e) => e is OperationFailed && e.message_of() == "invalid "@ + what@ + " count: "@
                + decimal_spec(count as int),
            Ok(_) => false,
        }),
{
    let n = checked_count(count, what)?;
    let mut out: Vec<i32> = Vec::new();
    let mut i: i32 = 0;
    while i < count
        invariant
            0 <= i <= count,
            n == count,
            out@.len() == i,
            forall|k: int| 0 <= k < i ==> #[trigger] out@[k] == k,
        decreases count - i,
    {
        out.push(i);
        i = i + 1;
    }
    Ok(out)
}

} // verus!
