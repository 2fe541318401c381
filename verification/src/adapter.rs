//! The decisions of the boundary adapter: how each engine callback outcome
//! is classified and translated into the engine's status vocabulary.
//!
//! The engine reaches a backend through C function pointers; the pointer
//! glue itself cannot be verified and lives outside this library. Every
//! decision that glue has to make is here, verified: the short-read
//! condition, the per-operation failure sub-codes, the guarded copy of a
//! resolved path into the engine's fixed-capacity buffer, and the decoding
//! of the engine's wire values.
//!
//! Each failure is translated keyed off the operation that failed, so every
//! failure kind keeps its own sub-code instead of collapsing onto a generic
//! one.

use crate::bytes::bytes_clone;
use crate::error::STATUS_CANTOPEN;
use crate::error::STATUS_ERROR;
use crate::error::STATUS_IOERR_ACCESS;
use crate::error::STATUS_IOERR_CLOSE;
use crate::error::STATUS_IOERR_DELETE;
use crate::error::STATUS_IOERR_FSTAT;
use crate::error::STATUS_IOERR_FSYNC;
use crate::error::STATUS_IOERR_READ;
use crate::error::STATUS_IOERR_SHORT_READ;
use crate::error::STATUS_IOERR_TRUNCATE;
use crate::error::STATUS_IOERR_WRITE;
use crate::error::STATUS_OK;
use crate::error::VfsError;
use crate::flags::spec_access_mode_of;
use crate::flags::AccessMode;
use crate::flags::OpenFlags;
use crate::flags::SyncFlags;
use crate::flags::ACCESS_EXISTS;
use crate::model::read_span;
use crate::model::truncate_span;
use crate::model::write_span;
use crate::traits::VFSFile;
use crate::traits::VFS;
use vstd::math::max;
use vstd::prelude::*;

verus! {

/// Copies a resolved path into a buffer of the engine-declared capacity
/// `cap`, appending the terminating zero byte. A path that does not fit is
/// refused instead of overflowing the buffer.
pub fn fill_path_buffer(path: &Vec<u8>, cap: usize) -> (r: Result<Vec<u8>, VfsError>)
    ensures
        path@.len() + 1 <= cap ==> (r matches Ok(out) && out@ == path@.push(0u8)),
        path@.len() + 1 > cap ==> r == Err::<Vec<u8>, VfsError>(VfsError::PathTooLong),
{
    if path.len() < cap {
        let mut out = bytes_clone(path);
        out.push(0u8);
        Ok(out)
    } else {
        Err(VfsError::PathTooLong)
    }
}

/// The cached file size after a write of `count` bytes at offset `off`:
/// the old size, or the end of the write, whichever is larger.
pub fn cached_size_after_write(size: usize, off: usize, count: usize) -> (n: usize)
    requires
        off + count <= usize::MAX,
    ensures
        n == max(size as int, off + count),
{
    if off + count > size {
        off + count
    } else {
        size
    }
}

/// Classifies a read outcome on plain values, for glue that holds only
/// the byte count: a count that covers the request is the success status,
/// a smaller count is the distinct short-read status, and a failure is
/// the read sub-code.
pub fn read_status(r: &Result<usize, VfsError>, requested: usize) -> (rc: i32)
    ensures
        r matches Ok(n) ==> (n >= requested ==> rc == STATUS_OK) && (n < requested
            ==> rc == STATUS_IOERR_SHORT_READ),
        r is Err ==> rc == STATUS_IOERR_READ,
{
    match r {
        Ok(n) => {
            if *n < requested {
                STATUS_IOERR_SHORT_READ
            } else {
                STATUS_OK
            }
        },
        Err(_) => STATUS_IOERR_READ,
    }
}

/// Read dispatch: asks the file for `n` bytes at `off` and classifies the
/// outcome. A full read is the success status; fewer bytes than requested
/// is the distinct short-read status with the bytes that do exist; a
/// failure is the read sub-code with no bytes.
pub fn dispatch_read<F: VFSFile>(f: &F, n: usize, off: usize) -> (r: (i32, Vec<u8>))
    requires
        f.inv(),
    ensures
        r.0 == STATUS_OK || r.0 == STATUS_IOERR_SHORT_READ || r.0 == STATUS_IOERR_READ,
        r.0 == STATUS_OK ==> r.1@ == read_span(f.contents(), off as int, n as int)
            && r.1@.len() == n,
        r.0 == STATUS_IOERR_SHORT_READ ==> r.1@ == read_span(f.contents(), off as int, n as int)
            && r.1@.len() < n,
        r.0 == STATUS_IOERR_READ ==> r.1@.len() == 0,
{
    match f.read(n, off) {
        Ok(data) => {
            if data.len() < n {
                (STATUS_IOERR_SHORT_READ, data)
            } else {
                (STATUS_OK, data)
            }
        },
        Err(_) => (STATUS_IOERR_READ, Vec::new()),
    }
}

/// Write dispatch: hands `buf` to the file at offset `off`. Success is the
/// engine's zero status and lands the bytes exactly as the contents model
/// says; a failure is the write sub-code and is reported as such rather
/// than as a read failure.
pub fn dispatch_write<F: VFSFile>(f: &mut F, buf: &Vec<u8>, off: usize) -> (rc: i32)
    requires
        old(f).inv(),
        off + buf@.len() <= usize::MAX,
    ensures
        final(f).inv(),
        rc == STATUS_OK || rc == STATUS_IOERR_WRITE,
        rc == STATUS_OK ==> final(f).contents() == write_span(
            old(f).contents(),
            buf@,
            off as int,
        ),
{
    match f.write(buf, off) {
        Ok(_) => STATUS_OK,
        Err(_) => STATUS_IOERR_WRITE,
    }
}

/// Sync dispatch: decodes the engine's durability bit-field without
/// rejecting any combination and asks the file to flush. A successful sync
/// leaves the contents as they were.
pub fn dispatch_sync<F: VFSFile>(f: &mut F, flag_bits: i32) -> (rc: i32)
    requires
        old(f).inv(),
    ensures
        final(f).inv(),
        rc == STATUS_OK || rc == STATUS_IOERR_FSYNC,
        rc == STATUS_OK ==> final(f).contents() == old(f).contents(),
{
    let flags = SyncFlags::from_bits(flag_bits);
    match f.sync(flags) {
        Ok(_) => STATUS_OK,
        Err(_) => STATUS_IOERR_FSYNC,
    }
}

/// Truncate dispatch: sets the file length and reports a failure under the
/// truncate sub-code.
pub fn dispatch_truncate<F: VFSFile>(f: &mut F, new_size: usize) -> (rc: i32)
    requires
        old(f).inv(),
    ensures
        final(f).inv(),
        rc == STATUS_OK || rc == STATUS_IOERR_TRUNCATE,
        rc == STATUS_OK ==> final(f).contents() == truncate_span(
            old(f).contents(),
            new_size as int,
        ),
{
    match f.truncate(new_size) {
        Ok(_) => STATUS_OK,
        Err(_) => STATUS_IOERR_TRUNCATE,
    }
}

/// Size dispatch: asks for the byte length. Success reports exactly the
/// length of the contents; a failure is the size-query sub-code and
/// reports zero.
pub fn dispatch_file_size<F: VFSFile>(f: &F) -> (r: (i32, usize))
    requires
        f.inv(),
    ensures
        r.0 == STATUS_OK || r.0 == STATUS_IOERR_FSTAT,
        r.0 == STATUS_OK ==> r.1 == f.contents().len(),
        r.0 != STATUS_OK ==> r.1 == 0,
{
    match f.size() {
        Ok(s) => (STATUS_OK, s),
        Err(_) => (STATUS_IOERR_FSTAT, 0),
    }
}

/// Close dispatch: the terminal operation. The handle is consumed either
/// way; a failure is the close sub-code.
pub fn dispatch_close<F: VFSFile>(f: F) -> (rc: i32)
    requires
        f.inv(),
    ensures
        rc == STATUS_OK || rc == STATUS_IOERR_CLOSE,
{
    match f.close() {
        Ok(_) => STATUS_OK,
        Err(_) => STATUS_IOERR_CLOSE,
    }
}

/// Open dispatch: asks the backend for a handle. Success pairs the zero
/// status with the handle, which holds the stored contents when the path
/// already existed; a failure is the cannot-open status, yields no handle,
/// and has no side effect on the store.
pub fn dispatch_open<V: VFS>(v: &mut V, path: &Vec<u8>, flags: OpenFlags) -> (r: (
    i32,
    Option<V::File>,
))
    requires
        old(v).inv(),
    ensures
        final(v).inv(),
        r.0 == STATUS_OK <==> r.1 is Some,
        r.0 == STATUS_OK || r.0 == STATUS_CANTOPEN,
        r.1 matches Some(f) ==> f.inv() && (old(v).fs().contains_key(path@) ==> f.contents()
            == old(v).fs()[path@]),
        r.0 != STATUS_OK ==> final(v).fs() == old(v).fs(),
{
    match v.open(path, flags) {
        Ok(f) => (STATUS_OK, Some(f)),
        Err(_) => (STATUS_CANTOPEN, None),
    }
}

/// Delete dispatch: decodes the engine's directory-sync flag (any positive
/// value asks for durability) and removes the path. Removing a path that
/// does not exist succeeds and leaves the store unchanged; a failure is
/// the delete sub-code.
pub fn dispatch_delete<V: VFS>(v: &mut V, path: &Vec<u8>, dir_sync_flag: i32) -> (rc: i32)
    requires
        old(v).inv(),
    ensures
        final(v).inv(),
        rc == STATUS_OK || rc == STATUS_IOERR_DELETE,
        rc == STATUS_OK ==> final(v).fs() =~= old(v).fs().remove(path@),
        !old(v).fs().contains_key(path@) ==> rc == STATUS_OK && final(v).fs() =~= old(v).fs(),
{
    let dir_sync = dir_sync_flag > 0;
    match v.remove(path, dir_sync) {
        Ok(_) => STATUS_OK,
        Err(_) => STATUS_IOERR_DELETE,
    }
}

/// Access dispatch: decodes the engine's wire mode. An unrecognized mode is
/// an error, never a silent `false`; a recognized mode is answered by the
/// backend, with a successful existence check reporting exactly whether the
/// path is stored; a backend failure is the access sub-code.
pub fn dispatch_access<V: VFS>(v: &V, path: &Vec<u8>, mode_code: i32) -> (r: (i32, i32))
    requires
        v.inv(),
    ensures
        r.0 == STATUS_OK || r.0 == STATUS_ERROR || r.0 == STATUS_IOERR_ACCESS,
        spec_access_mode_of(mode_code) is None <==> r.0 == STATUS_ERROR,
        r.1 == 0 || r.1 == 1,
        r.0 != STATUS_OK ==> r.1 == 0,
        mode_code == ACCESS_EXISTS && r.0 == STATUS_OK ==> (r.1 == 1 <==> v.fs().contains_key(
            path@,
        )),
{
    match AccessMode::from_code(mode_code) {
        None => (STATUS_ERROR, 0),
        Some(mode) => match v.access(path, mode) {
            Ok(answer) => (
                STATUS_OK,
                if answer {
                    1
                } else {
                    0
                },
            ),
            Err(_) => (STATUS_IOERR_ACCESS, 0),
        },
    }
}

/// Full-path dispatch: resolves the path and copies it, zero-terminated,
/// into the engine-declared capacity. Success yields at most `cap` bytes
/// ending in the terminator; a path that cannot be resolved or does not
/// fit is the cannot-open status with no bytes, never a buffer overflow.
pub fn dispatch_full_pathname<V: VFS>(v: &V, path: &Vec<u8>, cap: usize) -> (r: (i32, Vec<u8>))
    requires
        v.inv(),
    ensures
        r.0 == STATUS_OK || r.0 == STATUS_CANTOPEN,
        r.0 == STATUS_OK ==> 1 <= r.1@.len() <= cap && r.1@[r.1@.len() - 1] == 0,
        r.0 != STATUS_OK ==> r.1@.len() == 0,
{
    match v.fullpath(path) {
        Ok(resolved) => match fill_path_buffer(&resolved, cap) {
            Ok(out) => (STATUS_OK, out),
            Err(_) => (STATUS_CANTOPEN, Vec::new()),
        },
        Err(_) => (STATUS_CANTOPEN, Vec::new()),
    }
}

} // verus!
