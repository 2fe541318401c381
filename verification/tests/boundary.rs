//! The boundary adapter's dispatch decisions and the status vocabulary.

use sqlite_vfs::adapter::cached_size_after_write;
use sqlite_vfs::adapter::dispatch_access;
use sqlite_vfs::adapter::dispatch_close;
use sqlite_vfs::adapter::dispatch_delete;
use sqlite_vfs::adapter::dispatch_file_size;
use sqlite_vfs::adapter::dispatch_full_pathname;
use sqlite_vfs::adapter::dispatch_open;
use sqlite_vfs::adapter::dispatch_read;
use sqlite_vfs::adapter::dispatch_sync;
use sqlite_vfs::adapter::dispatch_truncate;
use sqlite_vfs::adapter::dispatch_write;
use sqlite_vfs::adapter::fill_path_buffer;
use sqlite_vfs::adapter::read_status;
use sqlite_vfs::bytes::bytes_clone;
use sqlite_vfs::bytes::bytes_eq;
use sqlite_vfs::error::registration_result;
use sqlite_vfs::error::status_of;
use sqlite_vfs::error::STATUS_CANTOPEN;
use sqlite_vfs::error::STATUS_ERROR;
use sqlite_vfs::error::STATUS_IOERR_READ;
use sqlite_vfs::error::STATUS_IOERR_SHORT_READ;
use sqlite_vfs::error::STATUS_OK;
use sqlite_vfs::flags::ACCESS_EXISTS;
use sqlite_vfs::flags::ACCESS_READ;
use sqlite_vfs::flags::ACCESS_READWRITE;
use sqlite_vfs::flags::OPEN_CREATE;
use sqlite_vfs::flags::OPEN_READWRITE;
use sqlite_vfs::flags::SYNC_DATAONLY;
use sqlite_vfs::flags::SYNC_FULL;
use sqlite_vfs::flags::SYNC_NORMAL;
use sqlite_vfs::AccessMode;
use sqlite_vfs::MemFile;
use sqlite_vfs::MemFs;
use sqlite_vfs::OpenFlags;
use sqlite_vfs::SyncFlags;
use sqlite_vfs::VfsError;
use sqlite_vfs::VFS;

fn bytes(s: &str) -> Vec<u8> {
    s.as_bytes().to_vec()
}

fn rw_create() -> OpenFlags {
    OpenFlags::from_bits(OPEN_READWRITE | OPEN_CREATE)
}

#[test]
fn read_dispatch_full_read_is_ok() {
    let f = MemFile::new(bytes("a.db"), vec![1, 2, 3, 4]);
    let (rc, data) = dispatch_read(&f, 4, 0);
    assert_eq!(rc, STATUS_OK);
    assert_eq!(data, vec![1, 2, 3, 4]);
}

#[test]
fn read_dispatch_signals_short_read_distinctly() {
    let f = MemFile::new(bytes("a.db"), vec![1, 2, 3, 4]);
    let (rc, data) = dispatch_read(&f, 10, 2);
    assert_eq!(rc, STATUS_IOERR_SHORT_READ);
    assert_eq!(data, vec![3, 4]);
    assert_ne!(STATUS_IOERR_SHORT_READ, STATUS_IOERR_READ);
    assert_ne!(STATUS_IOERR_SHORT_READ, STATUS_OK);
}

#[test]
fn read_dispatch_past_end_is_a_short_read_of_nothing() {
    let f = MemFile::new(bytes("a.db"), vec![1, 2]);
    let (rc, data) = dispatch_read(&f, 3, 9);
    assert_eq!(rc, STATUS_IOERR_SHORT_READ);
    assert_eq!(data.len(), 0);
}

#[test]
fn write_dispatch_lands_the_bytes() {
    let mut f = MemFile::new(bytes("a.db"), Vec::new());
    let rc = dispatch_write(&mut f, &vec![7, 8, 9], 1);
    assert_eq!(rc, STATUS_OK);
    let (rc2, data) = dispatch_read(&f, 4, 0);
    assert_eq!(rc2, STATUS_OK);
    assert_eq!(data, vec![0, 7, 8, 9]);
}

#[test]
fn sync_dispatch_accepts_every_flag_combination() {
    let mut f = MemFile::new(bytes("a.db"), vec![1]);
    assert_eq!(dispatch_sync(&mut f, SYNC_NORMAL), STATUS_OK);
    assert_eq!(dispatch_sync(&mut f, SYNC_FULL), STATUS_OK);
    assert_eq!(dispatch_sync(&mut f, SYNC_NORMAL | SYNC_DATAONLY), STATUS_OK);
    assert_eq!(dispatch_sync(&mut f, 0), STATUS_OK);
    assert_eq!(dispatch_sync(&mut f, 12345), STATUS_OK);
}

#[test]
fn truncate_and_size_dispatch_agree() {
    let mut f = MemFile::new(bytes("a.db"), vec![1, 2, 3]);
    assert_eq!(dispatch_truncate(&mut f, 8), STATUS_OK);
    let (rc, size) = dispatch_file_size(&f);
    assert_eq!(rc, STATUS_OK);
    assert_eq!(size, 8);
}

#[test]
fn close_dispatch_succeeds() {
    let f = MemFile::new(bytes("a.db"), vec![1]);
    assert_eq!(dispatch_close(f), STATUS_OK);
}

#[test]
fn open_dispatch_yields_a_handle_or_cantopen() {
    let mut fs = MemFs::new();
    let (rc, handle) = dispatch_open(&mut fs, &bytes("a.db"), rw_create());
    assert_eq!(rc, STATUS_OK);
    assert!(handle.is_some());

    let (rc2, handle2) = dispatch_open(
        &mut fs,
        &bytes("missing.db"),
        OpenFlags::from_bits(OPEN_READWRITE),
    );
    assert_eq!(rc2, STATUS_CANTOPEN);
    assert!(handle2.is_none());
}

#[test]
fn delete_dispatch_is_idempotent() {
    let mut fs = MemFs::new();
    assert_eq!(dispatch_delete(&mut fs, &bytes("none.db"), 1), STATUS_OK);
    let f = fs.open(&bytes("a.db"), rw_create()).unwrap();
    fs.close_file(f).unwrap();
    assert_eq!(dispatch_delete(&mut fs, &bytes("a.db"), 0), STATUS_OK);
    assert!(!fs.contains_path(&bytes("a.db")));
    assert_eq!(dispatch_delete(&mut fs, &bytes("a.db"), 0), STATUS_OK);
}

#[test]
fn access_dispatch_rejects_unknown_modes() {
    let fs = MemFs::new();
    let (rc, out) = dispatch_access(&fs, &bytes("a.db"), 7);
    assert_eq!(rc, STATUS_ERROR);
    assert_eq!(out, 0);
}

#[test]
fn access_dispatch_answers_existence() {
    let mut fs = MemFs::new();
    let f = fs.open(&bytes("a.db"), rw_create()).unwrap();
    fs.close_file(f).unwrap();

    let (rc, out) = dispatch_access(&fs, &bytes("a.db"), ACCESS_EXISTS);
    assert_eq!((rc, out), (STATUS_OK, 1));
    let (rc2, out2) = dispatch_access(&fs, &bytes("b.db"), ACCESS_EXISTS);
    assert_eq!((rc2, out2), (STATUS_OK, 0));
    let (rc3, out3) = dispatch_access(&fs, &bytes("a.db"), ACCESS_READ);
    assert_eq!((rc3, out3), (STATUS_OK, 0));
}

#[test]
fn full_pathname_dispatch_terminates_with_zero() {
    let fs = MemFs::new();
    let (rc, out) = dispatch_full_pathname(&fs, &bytes("dir/a.db"), 256);
    assert_eq!(rc, STATUS_OK);
    assert_eq!(out, b"dir/a.db\0".to_vec());
}

#[test]
fn full_pathname_dispatch_refuses_an_oversized_path() {
    let fs = MemFs::new();
    let (rc, out) = dispatch_full_pathname(&fs, &bytes("abcdefgh"), 8);
    assert_eq!(rc, STATUS_CANTOPEN);
    assert_eq!(out.len(), 0);
}

#[test]
fn fill_path_buffer_handles_the_exact_fit() {
    // eight path bytes plus the terminator fit a nine-byte buffer
    let out = fill_path_buffer(&bytes("abcdefgh"), 9).unwrap();
    assert_eq!(out, b"abcdefgh\0".to_vec());
    // ... but not an eight-byte buffer
    assert_eq!(
        fill_path_buffer(&bytes("abcdefgh"), 8).err().unwrap(),
        VfsError::PathTooLong
    );
}

#[test]
fn read_status_classifies_counts() {
    assert_eq!(read_status(&Ok(8), 8), STATUS_OK);
    assert_eq!(read_status(&Ok(3), 8), STATUS_IOERR_SHORT_READ);
    assert_eq!(read_status(&Ok(0), 8), STATUS_IOERR_SHORT_READ);
    assert_eq!(read_status(&Err(VfsError::Read), 8), STATUS_IOERR_READ);
}

#[test]
fn cached_size_tracks_the_maximum_extent() {
    assert_eq!(cached_size_after_write(100, 10, 20), 100);
    assert_eq!(cached_size_after_write(100, 90, 20), 110);
    assert_eq!(cached_size_after_write(0, 0, 0), 0);
}

#[test]
fn registration_result_wraps_the_engine_code() {
    assert!(registration_result(STATUS_OK).is_ok());
    assert_eq!(
        registration_result(21).err().unwrap(),
        VfsError::Registration(21)
    );
}

#[test]
fn every_failure_kind_keeps_its_own_code() {
    let codes = vec![
        status_of(&VfsError::Read),
        status_of(&VfsError::Write),
        status_of(&VfsError::Sync),
        status_of(&VfsError::Truncate),
        status_of(&VfsError::Size),
        status_of(&VfsError::Open),
        status_of(&VfsError::Close),
        status_of(&VfsError::Delete),
        status_of(&VfsError::Lock),
        status_of(&VfsError::Unlock),
        status_of(&VfsError::CheckReservedLock),
        status_of(&VfsError::Access),
    ];
    for (i, a) in codes.iter().enumerate() {
        assert_ne!(*a, STATUS_OK);
        for b in codes.iter().skip(i + 1) {
            assert_ne!(*a, *b);
        }
    }
    assert_eq!(status_of(&VfsError::UnknownAccessMode), STATUS_ERROR);
    assert_eq!(status_of(&VfsError::PathDecode), STATUS_ERROR);
    assert_eq!(status_of(&VfsError::PathTooLong), STATUS_CANTOPEN);
    assert_eq!(status_of(&VfsError::Registration(5)), 5);
}

#[test]
fn byte_helpers_compare_and_copy() {
    let a = bytes("a/b.db");
    assert!(bytes_eq(&a, &bytes("a/b.db")));
    assert!(!bytes_eq(&a, &bytes("a/c.db")));
    assert!(!bytes_eq(&a, &bytes("a/b.db2")));
    assert_eq!(bytes_clone(&a), a);
}

#[test]
fn access_mode_codes_round_trip() {
    assert_eq!(AccessMode::from_code(ACCESS_EXISTS).unwrap(), AccessMode::Exists);
    assert_eq!(AccessMode::from_code(ACCESS_READWRITE).unwrap(), AccessMode::ReadWrite);
    assert_eq!(AccessMode::from_code(ACCESS_READ).unwrap(), AccessMode::Read);
    assert!(AccessMode::from_code(3).is_none());
    assert!(AccessMode::from_code(-1).is_none());
    assert_eq!(AccessMode::from_code(AccessMode::Exists.code()).unwrap(), AccessMode::Exists);
    assert_eq!(
        AccessMode::from_code(AccessMode::ReadWrite.code()).unwrap(),
        AccessMode::ReadWrite
    );
    assert_eq!(AccessMode::from_code(AccessMode::Read.code()).unwrap(), AccessMode::Read);
}

#[test]
fn open_flags_keep_every_bit() {
    let f = OpenFlags::from_bits(OPEN_READWRITE | OPEN_CREATE | 0x4000000);
    assert_eq!(f.bits(), OPEN_READWRITE | OPEN_CREATE | 0x4000000);
    assert!(f.has_create());
    assert!(!f.has_readonly());
    assert!(f.contains(OPEN_READWRITE));
    assert!(!f.contains(64));
}

#[test]
fn sync_flags_decode_without_rejecting() {
    let normal = SyncFlags::from_bits(SYNC_NORMAL);
    assert!(!normal.is_full());
    assert!(!normal.is_data_only());

    let full_data = SyncFlags::from_bits(SYNC_FULL | SYNC_DATAONLY);
    assert!(full_data.is_full());
    assert!(full_data.is_data_only());
    assert_eq!(full_data.bits(), SYNC_FULL | SYNC_DATAONLY);

    let odd = SyncFlags::from_bits(0x700);
    assert_eq!(odd.bits(), 0x700);
}
