//! Status codes returned by the Swift bridge.

use vstd::prelude::*;

verus! {

/// The call succeeded.
pub const OK: i32 = 0;
/// Invalid caller input.
pub const INVALID_ARGUMENT: i32 = -1;
/// Asset or URL-asset construction failed.
pub const ASSET_CREATE_FAILED: i32 = -2;
/// Player or player-item creation failed.
pub const PLAYER_CREATE_FAILED: i32 = -3;
/// Asset-reader construction failed.
pub const READER_CREATE_FAILED: i32 = -4;
/// An operation on an existing object failed.
pub const OPERATION_FAILED: i32 = -5;
/// Observer registration failed.
pub const OBSERVER_FAILED: i32 = -6;
/// Asynchronous key loading failed or timed out.
pub const LOAD_FAILED: i32 = -7;

} // verus!
