//! The in-memory filesystem backend: the reference implementation of
//! [`VFS`], verified against the store model.
//!
//! The store is a list of `(path, contents)` entries with pairwise distinct
//! paths, viewed as a map from path to contents. Opening an existing path
//! checks its entry out into a [`MemFile`] handle; closing through
//! [`MemFs::close_file`] writes the handle's bytes back, so contents
//! survive a close and a later reopen. Removal is idempotent: deleting an
//! absent path succeeds and leaves the store untouched.

use crate::bytes::bytes_clone;
use crate::bytes::bytes_eq;
use crate::error::VfsError;
use crate::flags::spec_has_flag;
use crate::flags::AccessMode;
use crate::flags::OpenFlags;
use crate::flags::OPEN_CREATE;
use crate::memfile::MemFile;
use crate::traits::VFSFile;
use crate::traits::VFS;
use vstd::prelude::*;

verus! {

/// The store an entry list denotes: each entry puts its path in the map;
/// among equal paths the later entry would win, though a well-formed store
/// never holds two.
pub open spec fn map_of(entries: Seq<(Vec<u8>, Vec<u8>)>) -> Map<Seq<u8>, Seq<u8>>
    decreases entries.len(),
{
    if entries.len() == 0 {
        Map::empty()
    } else {
        map_of(entries.drop_last()).insert(entries.last().0@, entries.last().1@)
    }
}

/// Pairwise distinct paths.
pub open spec fn keys_unique(entries: Seq<(Vec<u8>, Vec<u8>)>) -> bool {
    forall|i: int, j: int|
        0 <= i < j < entries.len() ==> (#[trigger] entries[i]).0@ != (#[trigger] entries[j]).0@
}

/// A path is in the store view exactly when some entry carries it.
proof fn lemma_map_of_contains(entries: Seq<(Vec<u8>, Vec<u8>)>, k: Seq<u8>)
    ensures
        map_of(entries).contains_key(k) <==> exists|i: int|
            0 <= i < entries.len() && (#[trigger] entries[i]).0@ == k,
    decreases entries.len(),
{
    if entries.len() == 0 {
    } else {
        let dl = entries.drop_last();
        lemma_map_of_contains(dl, k);
        assert(forall|i: int| 0 <= i < dl.len() ==> #[trigger] dl[i] == entries[i]);
        if map_of(entries).contains_key(k) {
            if entries.last().0@ == k {
                assert((entries[entries.len() - 1]).0@ == k);
            } else {
                let i = choose|i: int| 0 <= i < dl.len() && (#[trigger] dl[i]).0@ == k;
                assert((entries[i]).0@ == k);
            }
        }
        if exists|i: int| 0 <= i < entries.len() && (#[trigger] entries[i]).0@ == k {
            let i = choose|i: int| 0 <= i < entries.len() && (#[trigger] entries[i]).0@ == k;
            if i < entries.len() - 1 {
                assert(dl[i].0@ == k);
            } else {
                assert(entries.last().0@ == k);
            }
        }
    }
}

/// Distinct paths survive dropping the last entry.
proof fn lemma_keys_unique_drop_last(entries: Seq<(Vec<u8>, Vec<u8>)>)
    requires
        keys_unique(entries),
        entries.len() > 0,
    ensures
        keys_unique(entries.drop_last()),
{
    let dl = entries.drop_last();
    assert forall|i: int, j: int| 0 <= i < j < dl.len() implies (#[trigger] dl[i]).0@ != (
    #[trigger] dl[j]).0@ by {
        assert(dl[i] == entries[i]);
        assert(dl[j] == entries[j]);
    }
}

/// In a well-formed store, the entry at `i` is in the view with exactly
/// its contents.
proof fn lemma_map_of_index(entries: Seq<(Vec<u8>, Vec<u8>)>, i: int)
    requires
        keys_unique(entries),
        0 <= i < entries.len(),
    ensures
        map_of(entries).contains_key(entries[i].0@),
        map_of(entries)[entries[i].0@] == entries[i].1@,
    decreases entries.len(),
{
    let dl = entries.drop_last();
    if i == entries.len() - 1 {
        assert(entries.last() == entries[i]);
    } else {
        assert(entries[i].0@ != (entries[entries.len() - 1]).0@);
        lemma_keys_unique_drop_last(entries);
        assert(dl[i] == entries[i]);
        lemma_map_of_index(dl, i);
    }
}

/// Removing the entry at `i` from a well-formed store removes exactly its
/// path from the view.
proof fn lemma_map_of_remove(entries: Seq<(Vec<u8>, Vec<u8>)>, i: int)
    requires
        keys_unique(entries),
        0 <= i < entries.len(),
    ensures
        map_of(entries.remove(i)) =~= map_of(entries).remove(entries[i].0@),
    decreases entries.len(),
{
    let dl = entries.drop_last();
    lemma_keys_unique_drop_last(entries);
    if i == entries.len() - 1 {
        assert(entries.remove(i) =~= dl);
        lemma_map_of_contains(dl, entries.last().0@);
        assert forall|a: int| 0 <= a < dl.len() implies (#[trigger] dl[a]).0@
            != entries.last().0@ by {
            assert(dl[a] == entries[a]);
            assert((entries[entries.len() - 1]).0@ == entries.last().0@);
        }
        assert(!map_of(dl).contains_key(entries.last().0@));
        assert(map_of(entries).remove(entries.last().0@) =~= map_of(dl));
    } else {
        let r = entries.remove(i);
        assert(r.last() == entries.last());
        assert(r.drop_last() =~= dl.remove(i));
        assert(dl[i] == entries[i]);
        lemma_map_of_remove(dl, i);
        assert(entries[i].0@ != entries.last().0@);
        assert(map_of(r) == map_of(dl.remove(i)).insert(entries.last().0@, entries.last().1@));
        assert(map_of(dl).remove(entries[i].0@).insert(entries.last().0@, entries.last().1@)
            =~= map_of(dl).insert(entries.last().0@, entries.last().1@).remove(entries[i].0@));
    }
}

/// Distinct paths survive removing an entry.
proof fn lemma_keys_unique_remove(entries: Seq<(Vec<u8>, Vec<u8>)>, i: int)
    requires
        keys_unique(entries),
        0 <= i < entries.len(),
    ensures
        keys_unique(entries.remove(i)),
{
    let r = entries.remove(i);
    assert forall|a: int, b: int| 0 <= a < b < r.len() implies (#[trigger] r[a]).0@ != (
    #[trigger] r[b]).0@ by {
        let a0 = if a < i {
            a
        } else {
            a + 1
        };
        let b0 = if b < i {
            b
        } else {
            b + 1
        };
        assert(r[a] == entries[a0]);
        assert(r[b] == entries[b0]);
    }
}

/// Appending an entry adds exactly its path to the view.
proof fn lemma_map_of_push(entries: Seq<(Vec<u8>, Vec<u8>)>, p: Vec<u8>, d: Vec<u8>)
    ensures
        map_of(entries.push((p, d))) == map_of(entries).insert(p@, d@),
{
    let s = entries.push((p, d));
    assert(s.drop_last() =~= entries);
    assert(s.last() == (p, d));
}

/// Durability across connections: closing a handle stores its bytes under
/// its path, and any later open of that path yields exactly those bytes.
/// Stated over the store view that [`MemFs::close_file`] and [`VFS::open`]
/// promise in their contracts.
pub proof fn lemma_close_then_open_reads_back(
    store: Map<Seq<u8>, Seq<u8>>,
    path: Seq<u8>,
    data: Seq<u8>,
)
    ensures
        store.insert(path, data).contains_key(path),
        store.insert(path, data)[path] == data,
{
}

/// The registry key of the in-memory backend: the bytes of "memfs".
pub open spec fn spec_memfs_name() -> Seq<u8> {
    seq![109u8, 101u8, 109u8, 102u8, 115u8]
}

/// An in-memory filesystem: a process-local store, useful as the example
/// backend and as the verified subject of the interface laws.
pub struct MemFs {
    entries: Vec<(Vec<u8>, Vec<u8>)>,
}

impl MemFs {
    /// An empty store.
    pub fn new() -> (fs: MemFs)
        ensures
            fs.inv(),
            fs.fs() =~= Map::<Seq<u8>, Seq<u8>>::empty(),
    {
        MemFs { entries: Vec::new() }
    }

    /// The index of the entry carrying `path`, when one exists.
    fn find_index(&self, path: &Vec<u8>) -> (r: Option<usize>)
        ensures
            r matches Some(i) ==> i < self.entries@.len() && (self.entries@[i as int]).0@
                == path@,
            r is None ==> forall|i: int|
                0 <= i < self.entries@.len() ==> (#[trigger] self.entries@[i]).0@ != path@,
    {
        let mut i: usize = 0;
        while i < self.entries.len()
            invariant
                i <= self.entries@.len(),
                forall|j: int| 0 <= j < i ==> (#[trigger] self.entries@[j]).0@ != path@,
            decreases self.entries@.len() - i,
        {
            if bytes_eq(&self.entries[i].0, path) {
                return Some(i);
            }
            i += 1;
        }
        None
    }

    /// Whether `path` is stored.
    pub fn contains_path(&self, path: &Vec<u8>) -> (b: bool)
        requires
            self.inv(),
        ensures
            b == self.fs().contains_key(path@),
    {
        proof {
            lemma_map_of_contains(self.entries@, path@);
        }
        match self.find_index(path) {
            Some(i) => {
                proof {
                    assert((self.entries@[i as int]).0@ == path@);
                }
                true
            },
            None => false,
        }
    }

    /// Hands a closed handle's bytes back to the store: after the call the
    /// handle's path holds exactly the handle's contents. This is how data
    /// written through a [`MemFile`] becomes visible to a later open.
    pub fn close_file(&mut self, file: MemFile) -> (r: Result<(), VfsError>)
        requires
            old(self).inv(),
        ensures
            final(self).inv(),
            r is Ok,
            final(self).fs() =~= old(self).fs().insert(file.path_spec(), file.contents()),
    {
        let ghost entries0 = self.entries@;
        let (path, data) = file.into_parts();
        match self.find_index(&path) {
            Some(i) => {
                proof {
                    lemma_map_of_remove(entries0, i as int);
                    lemma_keys_unique_remove(entries0, i as int);
                }
                let _removed = self.entries.remove(i);
                proof {
                    assert forall|a: int|
                        0 <= a < self.entries@.len() implies (#[trigger] self.entries@[a]).0@
                        != path@ by {
                        let a0 = if a < i {
                            a
                        } else {
                            a + 1
                        };
                        assert(self.entries@[a] == entries0[a0]);
                        assert((entries0[i as int]).0@ == path@);
                    }
                }
            },
            None => {},
        }
        let ghost pruned = self.entries@;
        proof {
            lemma_map_of_push(pruned, path, data);
        }
        self.entries.push((path, data));
        proof {
            assert forall|a: int, b: int|
                0 <= a < b < self.entries@.len() implies (#[trigger] self.entries@[a]).0@ != (
            #[trigger] self.entries@[b]).0@ by {
                if b < self.entries@.len() - 1 {
                    assert(self.entries@[a] == pruned[a]);
                    assert(self.entries@[b] == pruned[b]);
                } else {
                    assert(self.entries@[a] == pruned[a]);
                    assert((self.entries@[b]).0@ == path@);
                }
            }
            assert(map_of(self.entries@) =~= old(self).fs().insert(path@, data@));
        }
        Ok(())
    }
}

impl VFS for MemFs {
    type File = MemFile;

    /// Well-formed: no path is stored twice.
    closed spec fn inv(&self) -> bool {
        keys_unique(self.entries@)
    }

    closed spec fn fs(&self) -> Map<Seq<u8>, Seq<u8>> {
        map_of(self.entries@)
    }

    fn name(&self) -> (n: Vec<u8>)
        ensures
            n@ == spec_memfs_name(),
    {
        // The bytes of the registry key "memfs".
        let mut n: Vec<u8> = Vec::new();
        n.push(109u8);
        n.push(101u8);
        n.push(109u8);
        n.push(102u8);
        n.push(115u8);
        proof {
            assert(n@ =~= spec_memfs_name());
        }
        n
    }

    fn open(&mut self, path: &Vec<u8>, flags: OpenFlags) -> (r: Result<MemFile, VfsError>)
        ensures
            r is Ok <==> old(self).fs().contains_key(path@) || spec_has_flag(
                flags.spec_bits(),
                OPEN_CREATE,
            ),
            r matches Ok(f) ==> f.path_spec() == path@,
            !old(self).fs().contains_key(path@) ==> (r matches Ok(f) ==> f.contents()
                == Seq::<u8>::empty()),
            old(self).fs().contains_key(path@) ==> final(self).fs() =~= old(self).fs().remove(
                path@,
            ),
            !old(self).fs().contains_key(path@) ==> *final(self) == *old(self),
            r matches Err(e) ==> e == VfsError::Open,
    {
        proof {
            lemma_map_of_contains(self.entries@, path@);
        }
        match self.find_index(path) {
            Some(i) => {
                proof {
                    assert((self.entries@[i as int]).0@ == path@);
                    lemma_map_of_index(self.entries@, i as int);
                    lemma_map_of_remove(self.entries@, i as int);
                    lemma_keys_unique_remove(self.entries@, i as int);
                }
                let (p, d) = self.entries.remove(i);
                Ok(MemFile::new(p, d))
            },
            None => {
                if flags.has_create() {
                    Ok(MemFile::new(bytes_clone(path), Vec::new()))
                } else {
                    Err(VfsError::Open)
                }
            },
        }
    }

    fn remove(&mut self, path: &Vec<u8>, _dir_sync: bool) -> (r: Result<(), VfsError>)
        ensures
            r is Ok,
    {
        proof {
            lemma_map_of_contains(self.entries@, path@);
        }
        match self.find_index(path) {
            Some(i) => {
                proof {
                    assert((self.entries@[i as int]).0@ == path@);
                    lemma_map_of_remove(self.entries@, i as int);
                    lemma_keys_unique_remove(self.entries@, i as int);
                }
                let _removed = self.entries.remove(i);
                Ok(())
            },
            None => {
                proof {
                    assert(self.fs() =~= self.fs().remove(path@));
                }
                Ok(())
            },
        }
    }

    fn access(&self, path: &Vec<u8>, mode: AccessMode) -> (r: Result<bool, VfsError>)
        ensures
            mode == AccessMode::Exists ==> r == Ok::<bool, VfsError>(self.fs().contains_key(
                path@,
            )),
            mode == AccessMode::ReadWrite && self.fs().contains_key(path@) ==> r == Ok::<
                bool,
                VfsError,
            >(true),
            mode == AccessMode::ReadWrite && !self.fs().contains_key(path@) ==> r == Err::<
                bool,
                VfsError,
            >(VfsError::Access),
            mode == AccessMode::Read ==> r == Ok::<bool, VfsError>(false),
    {
        match mode {
            AccessMode::Exists => Ok(self.contains_path(path)),
            AccessMode::ReadWrite => {
                if self.contains_path(path) {
                    Ok(true)
                } else {
                    Err(VfsError::Access)
                }
            },
            AccessMode::Read => Ok(false),
        }
    }

    fn fullpath(&self, path: &Vec<u8>) -> (r: Result<Vec<u8>, VfsError>)
        ensures
            r matches Ok(p) && p@ == path@,
    {
        Ok(bytes_clone(path))
    }
}

} // verus!
