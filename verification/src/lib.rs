//! A pluggable storage backend ("VFS") layer for an embedded SQL engine.
//!
//! The engine talks to its storage through a fixed table of callbacks. This
//! crate provides the verified core of such a bridge:
//!
//! * the capability interface a backend implements ([`VFS`] for the
//!   filesystem, [`VFSFile`] for one open file), with contracts over a
//!   mathematical view of the file contents and of the store;
//! * the vocabulary the boundary speaks: open/sync/access flag decoding
//!   ([`flags`]) and the engine's integer status codes ([`error`]);
//! * the dispatch decisions of the boundary adapter ([`adapter`]): how each
//!   callback outcome is classified and translated, including the short-read
//!   condition and the bounded full-path marshaling;
//! * an in-memory reference backend ([`memfile`], [`memfs`]) that implements
//!   both capabilities and proves the interface laws: write/read round trip,
//!   the short-read rule, truncate/size consistency, idempotent removal, and
//!   durability of contents across close and reopen.
//!
//! The raw C glue (pointer recovery, callback-table installation, the
//! process-global registry call) is unverifiable by nature and lives outside
//! this library; it hands plain values in and takes plain values back.

pub mod adapter;
pub mod bytes;
pub mod error;
pub mod flags;
pub mod memfile;
pub mod memfs;
pub mod model;
pub mod traits;

pub use error::VfsError;
pub use flags::AccessMode;
pub use flags::OpenFlags;
pub use flags::SyncFlags;
pub use memfile::MemFile;
pub use memfs::MemFs;
pub use traits::VFS;
pub use traits::VFSFile;
