//! Status policy of the query surface.
//!
//! Every native call reports a status.  The component's rule: success means
//! proceed; anything else is a fatal internal-consistency error, with two
//! deliberate exceptions.  A table that does not exist is an absence value,
//! not an error, and a failed rendering-mode recommendation is silently
//! replaced by a fixed fallback mode so that callers always receive a usable
//! value.  The functions here are the decision points an unverified driver
//! of the real engine feeds native replies into; the verified face protocols
//! use the same functions.

use vstd::prelude::*;

verus! {

/// The status value the native layer reports on success.
pub const STATUS_SUCCESS: i32 = 0;

/// Rendering mode the native layer uses when the caller states no choice.
pub const RENDERING_MODE_DEFAULT: u32 = 0;

/// The fixed fallback rendering mode (natural, symmetric antialiasing)
/// substituted whenever the recommendation call fails.
pub const RENDERING_MODE_NATURAL_SYMMETRIC: u32 = 5;

/// A fatal internal-consistency error: a native call that cannot fail for a
/// live handle and well-formed arguments reported a non-success status, or
/// the two halves of the file enumeration disagreed.  Not recoverable and
/// never retried.
#[derive(Clone, Copy, PartialEq, Eq, Structural, Debug)]
pub enum FatalError {
    /// A native call documented as infallible reported this status.
    NativeCallFailed { status: i32 },
    /// The factory's face-creation entry reported this status.
    FaceCreationFailed { status: i32 },
    /// File enumeration's fill call produced a different number of handles
    /// than its count call reported.
    FileCountMismatch { reported: u32, filled: usize },
}

/// Decide the rendering-mode recommendation: the native-reported mode on
/// success, the fixed fallback on any failure.  This query never faults.
pub fn rendering_mode_outcome(status: i32, reported_mode: u32) -> (r: u32)
    ensures
        status == STATUS_SUCCESS ==> r == reported_mode,
        status != STATUS_SUCCESS ==> r == RENDERING_MODE_NATURAL_SYMMETRIC,
{
    if status != STATUS_SUCCESS {
        RENDERING_MODE_NATURAL_SYMMETRIC
    } else {
        reported_mode
    }
}

/// Decide a table-lookup reply: a failed call is fatal; a successful call
/// yields the absence value when the table does not exist and the table's
/// bytes, exactly as reported, when it does.
pub fn table_outcome(status: i32, exists: bool, bytes: Vec<u8>) -> (r: Result<
    Option<Vec<u8>>,
    FatalError,
>)
    ensures
        status != STATUS_SUCCESS ==> r == Err::<Option<Vec<u8>>, FatalError>(
            FatalError::NativeCallFailed { status },
        ),
        status == STATUS_SUCCESS && !exists ==> r == Ok::<Option<Vec<u8>>, FatalError>(None),
        status == STATUS_SUCCESS && exists ==> {
            &&& r is Ok
            &&& r->Ok_0 == Some(bytes)
        },
{
    if status != STATUS_SUCCESS {
        Err(FatalError::NativeCallFailed { status })
    } else if exists {
        Ok(Some(bytes))
    } else {
        Ok(None)
    }
}

/// Decide the two-call file enumeration: the fill call must produce exactly
/// as many handles as the count call reported; a disagreement is fatal, not
/// silently truncated or extended.
pub fn files_count_outcome(reported: u32, filled: usize) -> (r: Result<(), FatalError>)
    ensures
        (reported as usize == filled) <==> r is Ok,
        r is Err ==> r->Err_0 == (FatalError::FileCountMismatch { reported, filled }),
{
    if reported as usize == filled {
        Ok(())
    } else {
        Err(FatalError::FileCountMismatch { reported, filled })
    }
}

/// Decide a status on the calls with no permissive exception: success
/// proceeds, anything else is the fatal internal-consistency error.
pub fn status_outcome(status: i32) -> (r: Result<(), FatalError>)
    ensures
        (status == STATUS_SUCCESS) <==> r is Ok,
        r is Err ==> r->Err_0 == (FatalError::NativeCallFailed { status }),
{
    if status == STATUS_SUCCESS {
        Ok(())
    } else {
        Err(FatalError::NativeCallFailed { status })
    }
}

} // verus!
