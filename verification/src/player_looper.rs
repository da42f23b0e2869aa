//! Player-looper values: statuses, item ordering, the raw loop range handed to
//! the bridge, and the check of the looping-item count it reports.

use vstd::prelude::*;

use crate::error::AVPlayerError;
use crate::text::{decimal, decimal_spec};
use crate::time::TimeRange;

verus! {

/// Status of a player looper.
#[derive(Debug, Clone, Copy, PartialEq, Eq, Hash, Structural)]
#[non_exhaustive]
pub enum PlayerLooperStatus {
    /// Unknown.
    Unknown,
    /// Ready.
    Ready,
    /// Failed.
    Failed,
    /// Cancelled.
    Cancelled,
}

impl PlayerLooperStatus {
    /// The value a raw bridge number stands for.
    pub open spec fn spec_from_raw(raw: i32) -> Self {
        if raw == 1 {
            PlayerLooperStatus::Ready
        } else if raw == 2 {
            PlayerLooperStatus::Failed
        } else if raw == 3 {
            PlayerLooperStatus::Cancelled
        } else {
            PlayerLooperStatus::Unknown
        }
    }

    /// Decodes a raw bridge number.
    pub fn from_raw(raw: i32) -> (r: Self)
        ensures
            r == Self::spec_from_raw(raw),
    {
        match raw {
            1 => PlayerLooperStatus::Ready,
            2 => PlayerLooperStatus::Failed,
            3 => PlayerLooperStatus::Cancelled,
            _ => PlayerLooperStatus::Unknown,
        }
    }
}

/// The looper status follows `AVPlayerLooperStatus` numbering: 1 is ready,
/// 2 failed and 3 cancelled; every other number is unknown, so two numbers
/// that decode to the same known status are the same number.
pub proof fn lemma_looper_status_numbering(raw: i32, other: i32)
    ensures
        PlayerLooperStatus::spec_from_raw(1) == PlayerLooperStatus::Ready,
        PlayerLooperStatus::spec_from_raw(2) == PlayerLooperStatus::Failed,
        PlayerLooperStatus::spec_from_raw(3) == PlayerLooperStatus::Cancelled,
        (raw < 1 || raw > 3) <==> PlayerLooperStatus::spec_from_raw(raw) == PlayerLooperStatus::Unknown,
        PlayerLooperStatus::spec_from_raw(raw) == PlayerLooperStatus::spec_from_raw(other)
            && PlayerLooperStatus::spec_from_raw(raw) != PlayerLooperStatus::Unknown ==> raw == other,
{
}

/// Where a looper puts its items in the queue.
#[derive(Debug, Clone, Copy, PartialEq, Eq, Hash, Structural)]
#[non_exhaustive]
pub enum PlayerLooperItemOrdering {
    /// Before the existing items.
    LoopingItemsPrecedeExistingItems,
    /// After the existing items.
    LoopingItemsFollowExistingItems,
}

impl PlayerLooperItemOrdering {

    /// The raw bridge number of the value.
    pub open spec fn raw_value(self) -> i32 {
        match self {
            PlayerLooperItemOrdering::LoopingItemsPrecedeExistingItems => 0,
            PlayerLooperItemOrdering::LoopingItemsFollowExistingItems => 1,
        }
    }

    /// The raw bridge number of the value.
    pub fn as_raw(self) -> (r: i32)
        ensures
            r == self.raw_value(),
    {
        match self {
            PlayerLooperItemOrdering::LoopingItemsPrecedeExistingItems => 0,
            PlayerLooperItemOrdering::LoopingItemsFollowExistingItems => 1,
        }
    }
}

/// The loop range in the bridge's raw form: whether there is one, then the
/// start and duration as value, timescale and kind. Without a range the time
/// fields are zero with kind 1.
pub fn loop_range_to_raw(loop_range: Option<TimeRange>) -> (r: (bool, i64, i32, i32, i64, i32, i32))
    ensures
        match loop_range {
            Some(range) => r == (
                true,
                range.start.value,
                range.start.timescale,
                range.start.kind,
                range.duration.value,
                range.duration.timescale,
                range.duration.kind,
            ),
            None => r == (false, 0i64, 0i32, 1i32, 0i64, 0i32, 1i32),
        },
{
    match loop_range {
        Some(range) => {
            let (start_value, start_timescale, start_kind) = range.start.to_raw();
            let (duration_value, duration_timescale, duration_kind) = range.duration.to_raw();
            (true, start_value, start_timescale, start_kind, duration_value, duration_timescale, duration_kind)
        },
        None => (false, 0, 0, 1, 0, 0, 1),
    }
}

/// Checks the looping-item count the bridge reported: a negative count is the
/// error `"looping item count unexpectedly negative: <count>"`, a count beyond
/// `usize` the error `"looping item count exceeds addressable size: ..."`.
pub fn checked_looping_item_count(count: i64) -> (r: Result<usize, AVPlayerError>)
    ensures
        0 <= count <= usize::MAX ==> r == Ok::<usize, AVPlayerError>(count as usize),
        count < 0 ==> (match r {
            Err(e) => e is OperationFailed && e.message_of() == "looping item count unexpectedly negative: "@
                + decimal_spec(count as int),
            Ok(_) => false,
        }),
        count > usize::MAX ==> (match r {
            Err(e) => e is OperationFailed && e.message_of()
                == "looping item count exceeds addressable size: out of range integral type conversion attempted"@,
            Ok(_) => false,
        }),
{
    if count < 0 {
        return Err(
            AVPlayerError::OperationFailed(
                "looping item count unexpectedly negative: ".to_owned().concat(decimal(count).as_str()),
            ),
        );
    }
    if count as u64 > usize::MAX as u64 {
        return Err(
            AVPlayerError::OperationFailed(
                "looping item count exceeds addressable size: out of range integral type conversion attempted".to_owned(),
            ),
        );
    }
    Ok(count as usize)
}

} // verus!
