//! Failure taxonomy of the boundary layer and its translation into the
//! engine's integer status vocabulary.
//!
//! Every boundary dispatch converts a capability-level failure into one of
//! these integer codes; no failure may cross the callback boundary any other
//! way. The numeric values are fixed by the engine's C interface: a primary
//! result code occupies the low byte and an I/O sub-code sits in the second
//! byte (for example, the short-read sub-code is the primary I/O failure
//! code `10` extended with `2 << 8`).

use vstd::prelude::*;

verus! {

/// The engine's "everything went fine" status.
pub const STATUS_OK: i32 = 0;

/// The engine's generic failure status.
pub const STATUS_ERROR: i32 = 1;

/// The file could not be opened.
pub const STATUS_CANTOPEN: i32 = 14;

/// A read failed outright.
pub const STATUS_IOERR_READ: i32 = 266;

/// A read returned fewer bytes than requested because fewer bytes exist;
/// distinct from [`STATUS_IOERR_READ`], which signals a failure.
pub const STATUS_IOERR_SHORT_READ: i32 = 522;

/// A write failed.
pub const STATUS_IOERR_WRITE: i32 = 778;

/// A durability sync failed.
pub const STATUS_IOERR_FSYNC: i32 = 1034;

/// A truncation failed.
pub const STATUS_IOERR_TRUNCATE: i32 = 1546;

/// A size query failed.
pub const STATUS_IOERR_FSTAT: i32 = 1802;

/// An unlock failed.
pub const STATUS_IOERR_UNLOCK: i32 = 2058;

/// A file deletion failed.
pub const STATUS_IOERR_DELETE: i32 = 2570;

/// An access check failed.
pub const STATUS_IOERR_ACCESS: i32 = 3338;

/// A reserved-lock probe failed.
pub const STATUS_IOERR_CHECKRESERVEDLOCK: i32 = 3594;

/// A lock operation failed.
pub const STATUS_IOERR_LOCK: i32 = 3850;

/// A close failed.
pub const STATUS_IOERR_CLOSE: i32 = 4106;

/// Everything that can go wrong at the capability boundary.
///
/// Each variant is one failure kind of the boundary taxonomy; the adapter
/// maps each to its own engine sub-code (see [`status_of`]), so a backend's
/// classification of its own failure survives the translation.
#[derive(Clone, Copy, Debug, PartialEq, Eq, Structural)]
pub enum VfsError {
    /// Reading from an open file failed.
    Read,
    /// Writing to an open file failed.
    Write,
    /// Flushing to durable storage failed.
    Sync,
    /// Setting the file length failed.
    Truncate,
    /// Querying the file length failed.
    Size,
    /// Opening a file failed.
    Open,
    /// Closing a file failed.
    Close,
    /// Deleting a file failed.
    Delete,
    /// Taking or upgrading a lock failed.
    Lock,
    /// Releasing a lock failed.
    Unlock,
    /// Probing for a reserved lock failed.
    CheckReservedLock,
    /// An access check could not be answered.
    Access,
    /// The access-check request used a mode code the interface does not know.
    UnknownAccessMode,
    /// A path arriving from the engine was not valid text.
    PathDecode,
    /// A resolved path does not fit the engine-declared buffer capacity.
    PathTooLong,
    /// Registering the backend with the engine failed; carries the engine's
    /// status code.
    Registration(i32),
}

/// The engine status code that [`status_of`] assigns to each failure kind.
pub open spec fn spec_status_of(e: VfsError) -> i32 {
    match e {
        VfsError::Read => STATUS_IOERR_READ,
        VfsError::Write => STATUS_IOERR_WRITE,
        VfsError::Sync => STATUS_IOERR_FSYNC,
        VfsError::Truncate => STATUS_IOERR_TRUNCATE,
        VfsError::Size => STATUS_IOERR_FSTAT,
        VfsError::Open => STATUS_CANTOPEN,
        VfsError::Close => STATUS_IOERR_CLOSE,
        VfsError::Delete => STATUS_IOERR_DELETE,
        VfsError::Lock => STATUS_IOERR_LOCK,
        VfsError::Unlock => STATUS_IOERR_UNLOCK,
        VfsError::CheckReservedLock => STATUS_IOERR_CHECKRESERVEDLOCK,
        VfsError::Access => STATUS_IOERR_ACCESS,
        VfsError::UnknownAccessMode => STATUS_ERROR,
        VfsError::PathDecode => STATUS_ERROR,
        VfsError::PathTooLong => STATUS_CANTOPEN,
        VfsError::Registration(rc) => rc,
    }
}

/// Translates a boundary failure into the engine's status vocabulary.
pub fn status_of(e: &VfsError) -> (rc: i32)
    ensures
        rc == spec_status_of(*e),
{
    match e {
        VfsError::Read => STATUS_IOERR_READ,
        VfsError::Write => STATUS_IOERR_WRITE,
        VfsError::Sync => STATUS_IOERR_FSYNC,
        VfsError::Truncate => STATUS_IOERR_TRUNCATE,
        VfsError::Size => STATUS_IOERR_FSTAT,
        VfsError::Open => STATUS_CANTOPEN,
        VfsError::Close => STATUS_IOERR_CLOSE,
        VfsError::Delete => STATUS_IOERR_DELETE,
        VfsError::Lock => STATUS_IOERR_LOCK,
        VfsError::Unlock => STATUS_IOERR_UNLOCK,
        VfsError::CheckReservedLock => STATUS_IOERR_CHECKRESERVEDLOCK,
        VfsError::Access => STATUS_IOERR_ACCESS,
        VfsError::UnknownAccessMode => STATUS_ERROR,
        VfsError::PathDecode => STATUS_ERROR,
        VfsError::PathTooLong => STATUS_CANTOPEN,
        VfsError::Registration(rc) => *rc,
    }
}

/// Turns the engine's answer to a registration request into a host-level
/// result: the zero status is success, anything else is wrapped as a
/// [`VfsError::Registration`] carrying the engine's code.
pub fn registration_result(rc: i32) -> (r: Result<(), VfsError>)
    ensures
        r is Ok <==> rc == STATUS_OK,
        rc != STATUS_OK ==> r == Err::<(), VfsError>(VfsError::Registration(rc)),
{
    if rc == STATUS_OK {
        Ok(())
    } else {
        Err(VfsError::Registration(rc))
    }
}

} // verus!
