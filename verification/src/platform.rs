//! Numbers of the Win32 API that the decisions of this library depend on.
//!
//! They are fixed by the Windows ABI and carry the values that Windows
//! headers give them.

use vstd::prelude::*;

verus! {

/// The first message number that Windows leaves to an application for its
/// own messages (`WM_APP`).
pub const WM_APP: u32 = 0x8000;

/// The AppBar state bit that makes the taskbar hide itself automatically
/// (`ABS_AUTOHIDE`).
pub const ABS_AUTOHIDE: u32 = 0x1;

/// The `ShowWindow` command that hides a window (`SW_HIDE`).
pub const SW_HIDE: i32 = 0;

/// The `ShowWindow` command that shows a window in its current size and
/// position (`SW_SHOW`).
pub const SW_SHOW: i32 = 5;

/// The error that `CreateMutexW` leaves behind when the named mutex existed
/// before the call (`ERROR_ALREADY_EXISTS`).
pub const ERROR_ALREADY_EXISTS: u32 = 183;

/// The status of a Win32 call that succeeded (`ERROR_SUCCESS`).
pub const ERROR_SUCCESS: u32 = 0;

/// The error of a registry call on a value that does not exist
/// (`ERROR_FILE_NOT_FOUND`).
pub const ERROR_FILE_NOT_FOUND: u32 = 2;

} // verus!
