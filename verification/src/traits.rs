//! The two capability contracts a storage backend implements: [`VFS`] for
//! the filesystem and [`VFSFile`] for one open file.
//!
//! Between open and close the engine may call in any order and from any
//! thread. The contracts express mutation through exclusive references, so
//! a backend that is reached from several threads guards each handle with
//! a lock held for the duration of one call; the in-memory backend is
//! driven by one caller at a time through its exclusive handle. The
//! contracts are stated over two mathematical views: a file is a byte
//! sequence ([`VFSFile::contents`]) and a store is a map from path to byte
//! sequence ([`VFS::fs`]). Operations that can fail report a
//! [`VfsError`]; the boundary adapter translates each into the engine's
//! status vocabulary.

use crate::error::VfsError;
use crate::flags::AccessMode;
use crate::flags::OpenFlags;
use crate::flags::SyncFlags;
use crate::model::read_span;
use crate::model::truncate_span;
use crate::model::write_span;
use vstd::prelude::*;

verus! {

/// One open file, from a successful [`VFS::open`] until [`VFSFile::close`].
///
/// Reads clamp at end-of-file and a short read is an answer, not an error;
/// writes may land past end-of-file and extend the file sparsely; truncation
/// may shrink or grow. Locking and the device queries have engine-friendly
/// defaults: no real locking, 512-byte sectors, no special guarantees.
pub trait VFSFile: Sized {
    /// Well-formedness of the handle's internal state.
    spec fn inv(&self) -> bool;

    /// The bytes the file holds.
    spec fn contents(&self) -> Seq<u8>;

    /// The path the file was opened under.
    fn filepath(&self) -> (p: Vec<u8>)
        requires
            self.inv(),
    ;

    /// Closes the handle. This is the terminal operation: it consumes the
    /// handle, and no call is defined after it.
    fn close(self) -> (r: Result<(), VfsError>)
        requires
            self.inv(),
    ;

    /// Reads up to `n` bytes at byte offset `off`. Success returns exactly
    /// the bytes that exist there, clamped at end-of-file; fewer than `n`
    /// bytes come back exactly when fewer exist.
    fn read(&self, n: usize, off: usize) -> (r: Result<Vec<u8>, VfsError>)
        requires
            self.inv(),
        ensures
            r matches Ok(b) ==> b@ == read_span(self.contents(), off as int, n as int),
    ;

    /// Writes all of `buf` at byte offset `off`; an offset beyond
    /// end-of-file zero-fills the gap. Success reports the full length
    /// written.
    fn write(&mut self, buf: &Vec<u8>, off: usize) -> (r: Result<usize, VfsError>)
        requires
            old(self).inv(),
            off + buf@.len() <= usize::MAX,
        ensures
            final(self).inv(),
            r matches Ok(n) ==> n == buf@.len() && final(self).contents() == write_span(
                old(self).contents(),
                buf@,
                off as int,
            ),
    ;

    /// Makes previously written data durable, at the requested granularity.
    /// The contents are not changed by a successful sync.
    fn sync(&mut self, flags: SyncFlags) -> (r: Result<(), VfsError>)
        requires
            old(self).inv(),
        ensures
            final(self).inv(),
            r is Ok ==> final(self).contents() == old(self).contents(),
    ;

    /// Sets the file length: a shrink keeps the prefix, a growth zero-fills
    /// the new region.
    fn truncate(&mut self, new_size: usize) -> (r: Result<(), VfsError>)
        requires
            old(self).inv(),
        ensures
            final(self).inv(),
            r is Ok ==> final(self).contents() == truncate_span(
                old(self).contents(),
                new_size as int,
            ),
    ;

    /// The current length of the file in bytes.
    fn size(&self) -> (r: Result<usize, VfsError>)
        requires
            self.inv(),
        ensures
            r matches Ok(s) ==> s == self.contents().len(),
    ;

    /// Takes or upgrades a lock. The default is a no-op: no real locking.
    fn lock(&self, _flags: i32) -> (r: Result<(), VfsError>)
        requires
            self.inv(),
        default_ensures
            r is Ok,
    {
        Ok(())
    }

    /// Releases a lock. The default is a no-op.
    fn unlock(&self, _flags: i32) -> (r: Result<(), VfsError>)
        requires
            self.inv(),
        default_ensures
            r is Ok,
    {
        Ok(())
    }

    /// The backend's natural write granularity; 512 bytes by default.
    fn sector_size(&self) -> (s: i32)
        requires
            self.inv(),
        default_ensures
            s == 512,
    {
        512
    }

    /// Whether some handle holds a reserved lock; never, by default.
    fn check_reserved_lock(&self) -> (r: Result<i32, VfsError>)
        requires
            self.inv(),
        default_ensures
            r == Ok::<i32, VfsError>(0),
    {
        Ok(0)
    }

    /// Device property bits the backend guarantees; none, by default.
    fn device_characteristics(&self) -> (c: i32)
        requires
            self.inv(),
        default_ensures
            c == 0,
    {
        0
    }
}

/// A filesystem backend: opens, removes and answers questions about files.
///
/// The store view [`VFS::fs`] maps each existing path to its contents.
/// Removal is idempotent: deleting a path that does not exist succeeds and
/// leaves the store unchanged.
pub trait VFS: Sized {
    /// The handle type a successful open yields.
    type File: VFSFile;

    /// Well-formedness of the backend's internal state.
    spec fn inv(&self) -> bool;

    /// The store: which paths exist, and with what contents.
    spec fn fs(&self) -> Map<Seq<u8>, Seq<u8>>;

    /// The registry key of this backend; never empty.
    fn name(&self) -> (n: Vec<u8>)
        requires
            self.inv(),
        ensures
            n@.len() > 0,
    ;

    /// Opens `path` with the engine's open intent. When the path exists,
    /// the handle starts with exactly the stored contents. A failure has no
    /// side effect on the store.
    fn open(&mut self, path: &Vec<u8>, flags: OpenFlags) -> (r: Result<Self::File, VfsError>)
        requires
            old(self).inv(),
        ensures
            final(self).inv(),
            r matches Ok(f) ==> f.inv() && (old(self).fs().contains_key(path@) ==> f.contents()
                == old(self).fs()[path@]),
            r is Err ==> final(self).fs() == old(self).fs(),
    ;

    /// Deletes `path`. Deleting a path that does not exist is not an error,
    /// and leaves the store as it was. `dir_sync` asks that the removal be
    /// durable against a crash before returning.
    fn remove(&mut self, path: &Vec<u8>, dir_sync: bool) -> (r: Result<(), VfsError>)
        requires
            old(self).inv(),
        ensures
            final(self).inv(),
            r is Ok ==> final(self).fs() =~= old(self).fs().remove(path@),
            !old(self).fs().contains_key(path@) ==> r is Ok && final(self).fs() =~= old(
                self,
            ).fs(),
    ;

    /// Answers an access question. An existence check that succeeds answers
    /// exactly whether the path is in the store.
    fn access(&self, path: &Vec<u8>, mode: AccessMode) -> (r: Result<bool, VfsError>)
        requires
            self.inv(),
        ensures
            mode == AccessMode::Exists ==> (r matches Ok(b) ==> b == self.fs().contains_key(
                path@,
            )),
    ;

    /// Resolves `path` to an absolute form. The engine derives companion
    /// file names by appending to the result, so it must be deterministic
    /// and suffix-friendly.
    fn fullpath(&self, path: &Vec<u8>) -> (r: Result<Vec<u8>, VfsError>)
        requires
            self.inv(),
    ;
}

} // verus!
