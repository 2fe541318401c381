//! The in-memory file handle: the reference implementation of
//! [`VFSFile`], verified against the contents model.
//!
//! Every operation succeeds, and each is proved to transform the byte
//! sequence exactly as [`crate::model`] says. The handle owns its bytes;
//! [`crate::memfs::MemFs`] hands them out on open and takes them back on
//! close.

use crate::bytes::bytes_clone;
use crate::error::VfsError;
use crate::flags::SyncFlags;
use crate::model::read_span;
use crate::model::truncate_span;
use crate::model::write_span;
use crate::model::zero_bytes;
use crate::traits::VFSFile;
use vstd::prelude::*;

verus! {

/// One open in-memory file: its path and its bytes.
pub struct MemFile {
    path: Vec<u8>,
    data: Vec<u8>,
}

impl MemFile {
    /// The path the handle was opened under.
    pub closed spec fn path_spec(&self) -> Seq<u8> {
        self.path@
    }

    /// A handle holding exactly `data`, opened under `path`.
    pub fn new(path: Vec<u8>, data: Vec<u8>) -> (f: MemFile)
        ensures
            f.inv(),
            f.contents() == data@,
            f.path_spec() == path@,
    {
        MemFile { path, data }
    }

    /// Takes the handle apart into its path and its bytes.
    pub fn into_parts(self) -> (r: (Vec<u8>, Vec<u8>))
        ensures
            r.0@ == self.path_spec(),
            r.1@ == self.contents(),
    {
        let MemFile { path, data } = self;
        (path, data)
    }
}

impl VFSFile for MemFile {
    /// The handle needs no internal invariant: any path with any bytes is a
    /// well-formed in-memory file.
    open spec fn inv(&self) -> bool {
        true
    }

    closed spec fn contents(&self) -> Seq<u8> {
        self.data@
    }

    fn filepath(&self) -> (p: Vec<u8>)
        ensures
            p@ == self.path_spec(),
    {
        bytes_clone(&self.path)
    }

    fn close(self) -> (r: Result<(), VfsError>)
        ensures
            r is Ok,
    {
        Ok(())
    }

    fn read(&self, n: usize, off: usize) -> (r: Result<Vec<u8>, VfsError>)
        ensures
            r is Ok,
    {
        let len = self.data.len();
        if off >= len {
            let out: Vec<u8> = Vec::new();
            proof {
                assert(out@ =~= read_span(self.contents(), off as int, n as int));
            }
            return Ok(out);
        }
        let avail = len - off;
        let take = if n < avail {
            n
        } else {
            avail
        };
        let mut out: Vec<u8> = Vec::new();
        let mut i: usize = 0;
        while i < take
            invariant
                i <= take,
                off + take <= usize::MAX,
                off + take <= self.data@.len(),
                out@.len() == i,
                forall|j: int| 0 <= j < i ==> out@[j] == self.data@[off + j],
            decreases take - i,
        {
            out.push(self.data[off + i]);
            i += 1;
        }
        proof {
            assert(out@ =~= read_span(self.contents(), off as int, n as int));
        }
        Ok(out)
    }

    fn write(&mut self, buf: &Vec<u8>, off: usize) -> (r: Result<usize, VfsError>)
        ensures
            r is Ok,
            final(self).path_spec() == old(self).path_spec(),
    {
        let ghost w = write_span(old(self).contents(), buf@, off as int);
        let old_len = self.data.len();
        let end = off + buf.len();
        let new_len = if old_len > end {
            old_len
        } else {
            end
        };
        proof {
            assert(w.len() == new_len);
        }
        let mut out: Vec<u8> = Vec::new();
        let mut i: usize = 0;
        while i < new_len
            invariant
                self == old(self),
                i <= new_len,
                new_len == w.len(),
                old_len == self.data@.len(),
                end == off + buf@.len(),
                w == write_span(self.data@, buf@, off as int),
                out@.len() == i,
                forall|j: int| 0 <= j < i ==> out@[j] == w[j],
            decreases new_len - i,
        {
            let b: u8 = if off <= i && i < end {
                buf[i - off]
            } else if i < old_len {
                self.data[i]
            } else {
                0u8
            };
            out.push(b);
            i += 1;
        }
        proof {
            assert(out@ =~= w);
        }
        self.data = out;
        Ok(buf.len())
    }

    fn sync(&mut self, _flags: SyncFlags) -> (r: Result<(), VfsError>)
        ensures
            r is Ok,
            *final(self) == *old(self),
    {
        Ok(())
    }

    fn truncate(&mut self, new_size: usize) -> (r: Result<(), VfsError>)
        ensures
            r is Ok,
            final(self).path_spec() == old(self).path_spec(),
    {
        if new_size <= self.data.len() {
            self.data.truncate(new_size);
            proof {
                assert(self.data@ =~= truncate_span(old(self).contents(), new_size as int));
            }
        } else {
            proof {
                assert(self.data@ =~= old(self).data@ + zero_bytes(0));
            }
            while self.data.len() < new_size
                invariant
                    self.path@ == old(self).path@,
                    old(self).data@.len() <= self.data@.len() <= new_size,
                    self.data@ == old(self).data@ + zero_bytes(
                        (self.data@.len() - old(self).data@.len()) as nat,
                    ),
                decreases new_size - self.data@.len(),
            {
                self.data.push(0u8);
                proof {
                    assert(self.data@ =~= old(self).data@ + zero_bytes(
                        (self.data@.len() - old(self).data@.len()) as nat,
                    ));
                }
            }
            proof {
                assert(self.data@ =~= truncate_span(old(self).contents(), new_size as int));
            }
        }
        Ok(())
    }

    fn size(&self) -> (r: Result<usize, VfsError>)
        ensures
            r is Ok,
    {
        Ok(self.data.len())
    }
}

} // verus!
