//! Error kinds and the classification of native write status codes.

use vstd::prelude::*;

verus! {

/// Status returned by a write when the processor family is not supported.
pub const ADJ_ERR_FAM_UNSUPPORTED: i32 = -1;

/// Status returned by a write when the system management unit timed out.
pub const ADJ_ERR_SMU_TIMEOUT: i32 = -2;

/// Status returned by a write when the system management unit does not support the command.
pub const ADJ_ERR_SMU_UNSUPPORTED: i32 = -3;

/// Status returned by a write when the system management unit rejected the command.
pub const ADJ_ERR_SMU_REJECTED: i32 = -4;

/// Status returned by a write when memory access failed.
pub const ADJ_ERR_MEMORY_ACCESS: i32 = -5;

/// Enumerates the possible errors returned from ryzenadj.
#[derive(Debug, Clone, Copy, PartialEq, Eq, Structural)]
pub enum RyzenAdjError {
    /// Acquiring the native session failed; carries the OS error number seen at that moment.
    InitError { errno: i32 },
    /// The telemetry table could not be (re)initialized; reads are blocked, writes may still work.
    InitTableError(i32),
    /// A reading came back as NaN: the value is not supported on this hardware.
    GetNaN,
    /// The processor family identifier is not one this crate knows.
    UnknowFamily(i32),
    /// The processor family is not supported by the native library.
    AdjFamilyNotSupported,
    /// The native library hit a memory access error.
    AdjMemoryAccessError,
    /// The system management unit rejected the value.
    AdjSmuRejected,
    /// The system management unit timed out.
    AdjSmuTimeout,
    /// The system management unit does not support setting this value.
    AdjSmuUnsupported,
    /// A write failed with a status code that has no name; carries the code.
    AdjUnknowError(i32),
    /// A curve-optimizer offset lies outside the accepted window.
    AdjValueOutOfRange,
}

/// Result type returned by all operations of this crate.
pub type RyzenAdjResult<T> = Result<T, RyzenAdjError>;

/// The outcome of a write whose native call returned `code`.
pub open spec fn write_outcome(code: i32) -> RyzenAdjResult<()> {
    if code == 0 {
        Ok(())
    } else if code == ADJ_ERR_FAM_UNSUPPORTED {
        Err(RyzenAdjError::AdjFamilyNotSupported)
    } else if code == ADJ_ERR_MEMORY_ACCESS {
        Err(RyzenAdjError::AdjMemoryAccessError)
    } else if code == ADJ_ERR_SMU_REJECTED {
        Err(RyzenAdjError::AdjSmuRejected)
    } else if code == ADJ_ERR_SMU_TIMEOUT {
        Err(RyzenAdjError::AdjSmuTimeout)
    } else if code == ADJ_ERR_SMU_UNSUPPORTED {
        Err(RyzenAdjError::AdjSmuUnsupported)
    } else {
        Err(RyzenAdjError::AdjUnknowError(code))
    }
}

/// Whether `code` is one of the five named write failure statuses.
pub open spec fn is_named_status(code: i32) -> bool {
    ||| code == ADJ_ERR_FAM_UNSUPPORTED
    ||| code == ADJ_ERR_MEMORY_ACCESS
    ||| code == ADJ_ERR_SMU_REJECTED
    ||| code == ADJ_ERR_SMU_TIMEOUT
    ||| code == ADJ_ERR_SMU_UNSUPPORTED
}

/// Classifies the status code of a native write.
///
/// Zero is success, each named status maps to its own error kind, and any
/// other code is reported unchanged as `AdjUnknowError`.
pub fn adj_code(code: i32) -> (r: RyzenAdjResult<()>)
    ensures
        r == write_outcome(code),
        r is Ok <==> code == 0,
        code == ADJ_ERR_FAM_UNSUPPORTED ==> r == Err::<(), _>(RyzenAdjError::AdjFamilyNotSupported),
        code == ADJ_ERR_MEMORY_ACCESS ==> r == Err::<(), _>(RyzenAdjError::AdjMemoryAccessError),
        code == ADJ_ERR_SMU_REJECTED ==> r == Err::<(), _>(RyzenAdjError::AdjSmuRejected),
        code == ADJ_ERR_SMU_TIMEOUT ==> r == Err::<(), _>(RyzenAdjError::AdjSmuTimeout),
        code == ADJ_ERR_SMU_UNSUPPORTED ==> r == Err::<(), _>(RyzenAdjError::AdjSmuUnsupported),
        code != 0 && !is_named_status(code) ==> r == Err::<(), _>(
            RyzenAdjError::AdjUnknowError(code),
        ),
{
    if code == 0 {
        Ok(())
    } else if code == ADJ_ERR_FAM_UNSUPPORTED {
        Err(RyzenAdjError::AdjFamilyNotSupported)
    } else if code == ADJ_ERR_MEMORY_ACCESS {
        Err(RyzenAdjError::AdjMemoryAccessError)
    } else if code == ADJ_ERR_SMU_REJECTED {
        Err(RyzenAdjError::AdjSmuRejected)
    } else if code == ADJ_ERR_SMU_TIMEOUT {
        Err(RyzenAdjError::AdjSmuTimeout)
    } else if code == ADJ_ERR_SMU_UNSUPPORTED {
        Err(RyzenAdjError::AdjSmuUnsupported)
    } else {
        Err(RyzenAdjError::AdjUnknowError(code))
    }
}

} // verus!
