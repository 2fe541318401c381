//! The flag vocabulary the engine uses when it calls into the boundary:
//! open-intent bits, durability-sync bits, and the access-check mode.
//!
//! Open and sync flags are bit-sets and are carried through without
//! rejecting unknown combinations; the access mode is a closed enumeration,
//! and an unrecognized code is an error rather than a silent `false`.

use vstd::prelude::*;

verus! {

/// Open intent: the file may only be read.
pub const OPEN_READONLY: i32 = 1;

/// Open intent: the file may be read and written.
pub const OPEN_READWRITE: i32 = 2;

/// Open intent: create the file when it does not exist.
pub const OPEN_CREATE: i32 = 4;

/// Open intent: delete the file once it is closed.
pub const OPEN_DELETEONCLOSE: i32 = 8;

/// Open intent: fail when the file already exists.
pub const OPEN_EXCLUSIVE: i32 = 16;

/// File-class hint: the main database file.
pub const OPEN_MAIN_DB: i32 = 256;

/// File-class hint: a temporary database file.
pub const OPEN_TEMP_DB: i32 = 512;

/// File-class hint: the rollback journal of the main database.
pub const OPEN_MAIN_JOURNAL: i32 = 2048;

/// File-class hint: a journal of a temporary database.
pub const OPEN_TEMP_JOURNAL: i32 = 4096;

/// File-class hint: a statement sub-journal.
pub const OPEN_SUBJOURNAL: i32 = 8192;

/// File-class hint: the write-ahead log.
pub const OPEN_WAL: i32 = 524288;

/// Sync granularity: an ordinary durability barrier.
pub const SYNC_NORMAL: i32 = 2;

/// Sync granularity: a full barrier that also flushes device caches.
pub const SYNC_FULL: i32 = 3;

/// Sync granularity bit: only the file data, not its metadata, needs to
/// reach durable storage.
pub const SYNC_DATAONLY: i32 = 16;

/// Whether every bit of `flag` is set in `bits`.
pub open spec fn spec_has_flag(bits: i32, flag: i32) -> bool {
    bits & flag == flag
}

/// The open-intent bit-set the engine hands to `open`.
///
/// It describes what the engine wants (create, read-only, read-write,
/// exclusive, delete-on-close) together with file-class hints; the backend
/// decides how to honor it. Unknown bits are preserved, never rejected.
#[derive(Clone, Copy, Debug, PartialEq, Eq, Structural)]
pub struct OpenFlags {
    bits: i32,
}

impl OpenFlags {
    /// The raw bit-set, as the engine passed it.
    pub closed spec fn spec_bits(&self) -> i32 {
        self.bits
    }

    /// Wraps the engine's raw bit-field. Every bit is kept.
    pub fn from_bits(bits: i32) -> (f: OpenFlags)
        ensures
            f.spec_bits() == bits,
    {
        OpenFlags { bits }
    }

    /// The raw bit-set, for handing back to the engine unchanged.
    pub fn bits(&self) -> (b: i32)
        ensures
            b == self.spec_bits(),
    {
        self.bits
    }

    /// Whether every bit of `flag` is set.
    pub fn contains(&self, flag: i32) -> (r: bool)
        ensures
            r == spec_has_flag(self.spec_bits(), flag),
    {
        self.bits & flag == flag
    }

    /// Whether the engine asked for the file to be created when absent.
    pub fn has_create(&self) -> (r: bool)
        ensures
            r == spec_has_flag(self.spec_bits(), OPEN_CREATE),
    {
        self.contains(OPEN_CREATE)
    }

    /// Whether the engine asked for read-only access.
    pub fn has_readonly(&self) -> (r: bool)
        ensures
            r == spec_has_flag(self.spec_bits(), OPEN_READONLY),
    {
        self.contains(OPEN_READONLY)
    }
}

/// The durability-granularity bit-set handed to `sync`.
///
/// The values pass through to the backend opaque; any combination decodes.
/// The two barrier strengths share bits (a full barrier is the normal
/// barrier's bits plus one), so the strength is read from the low nibble
/// while the data-only hint is an independent bit.
#[derive(Clone, Copy, Debug, PartialEq, Eq, Structural)]
pub struct SyncFlags {
    bits: i32,
}

impl SyncFlags {
    /// The raw bit-set, as the engine passed it.
    pub closed spec fn spec_bits(&self) -> i32 {
        self.bits
    }

    /// Wraps the engine's raw bit-field. Every bit is kept, no combination
    /// is rejected.
    pub fn from_bits(bits: i32) -> (f: SyncFlags)
        ensures
            f.spec_bits() == bits,
    {
        SyncFlags { bits }
    }

    /// The raw bit-set, unchanged.
    pub fn bits(&self) -> (b: i32)
        ensures
            b == self.spec_bits(),
    {
        self.bits
    }

    /// Whether the engine asked for the full barrier strength.
    pub fn is_full(&self) -> (r: bool)
        ensures
            r == (self.spec_bits() & 15 == SYNC_FULL),
    {
        self.bits & 15 == SYNC_FULL
    }

    /// Whether only the file data, not its metadata, needs to be durable.
    pub fn is_data_only(&self) -> (r: bool)
        ensures
            r == (self.spec_bits() & SYNC_DATAONLY == SYNC_DATAONLY),
    {
        self.bits & SYNC_DATAONLY == SYNC_DATAONLY
    }
}

/// What an access check is asked to answer.
#[derive(Clone, Copy, Debug, PartialEq, Eq, Structural)]
pub enum AccessMode {
    /// Does the file exist?
    Exists,
    /// Does the file have read and write permission?
    ReadWrite,
    /// Is the file readable? Reserved by the engine and never sent, but it
    /// must decode.
    Read,
}

/// The engine's wire code for an access check.
pub const ACCESS_EXISTS: i32 = 0;

/// The engine's wire code for a read-write permission check.
pub const ACCESS_READWRITE: i32 = 1;

/// The engine's wire code for a read permission check.
pub const ACCESS_READ: i32 = 2;

/// The decoding [`AccessMode::from_code`] performs.
pub open spec fn spec_access_mode_of(code: i32) -> Option<AccessMode> {
    if code == ACCESS_EXISTS {
        Some(AccessMode::Exists)
    } else if code == ACCESS_READWRITE {
        Some(AccessMode::ReadWrite)
    } else if code == ACCESS_READ {
        Some(AccessMode::Read)
    } else {
        None
    }
}

impl AccessMode {
    /// Decodes the engine's wire code; any other value is unrecognized and
    /// yields `None`, which the adapter reports as an error.
    pub fn from_code(code: i32) -> (r: Option<AccessMode>)
        ensures
            r == spec_access_mode_of(code),
    {
        if code == ACCESS_EXISTS {
            Some(AccessMode::Exists)
        } else if code == ACCESS_READWRITE {
            Some(AccessMode::ReadWrite)
        } else if code == ACCESS_READ {
            Some(AccessMode::Read)
        } else {
            None
        }
    }

    /// The wire code of this mode; inverse of [`AccessMode::from_code`].
    pub fn code(&self) -> (c: i32)
        ensures
            spec_access_mode_of(c) == Some(*self),
    {
        match self {
            AccessMode::Exists => ACCESS_EXISTS,
            AccessMode::ReadWrite => ACCESS_READWRITE,
            AccessMode::Read => ACCESS_READ,
        }
    }
}

} // verus!
