//! The status codes and wire values this library states in its contracts
//! must be exactly the ones the engine's C interface defines; this holds
//! them against the engine bindings.

use sqlite_vfs::error;
use sqlite_vfs::flags;

#[test]
fn status_codes_match_the_engine() {
    assert_eq!(error::STATUS_OK, libsqlite3_sys::SQLITE_OK);
    assert_eq!(error::STATUS_ERROR, libsqlite3_sys::SQLITE_ERROR);
    assert_eq!(error::STATUS_CANTOPEN, libsqlite3_sys::SQLITE_CANTOPEN);
    assert_eq!(error::STATUS_IOERR_READ, libsqlite3_sys::SQLITE_IOERR_READ);
    assert_eq!(
        error::STATUS_IOERR_SHORT_READ,
        libsqlite3_sys::SQLITE_IOERR_SHORT_READ
    );
    assert_eq!(error::STATUS_IOERR_WRITE, libsqlite3_sys::SQLITE_IOERR_WRITE);
    assert_eq!(error::STATUS_IOERR_FSYNC, libsqlite3_sys::SQLITE_IOERR_FSYNC);
    assert_eq!(
        error::STATUS_IOERR_TRUNCATE,
        libsqlite3_sys::SQLITE_IOERR_TRUNCATE
    );
    assert_eq!(error::STATUS_IOERR_FSTAT, libsqlite3_sys::SQLITE_IOERR_FSTAT);
    assert_eq!(error::STATUS_IOERR_UNLOCK, libsqlite3_sys::SQLITE_IOERR_UNLOCK);
    assert_eq!(error::STATUS_IOERR_DELETE, libsqlite3_sys::SQLITE_IOERR_DELETE);
    assert_eq!(error::STATUS_IOERR_ACCESS, libsqlite3_sys::SQLITE_IOERR_ACCESS);
    assert_eq!(
        error::STATUS_IOERR_CHECKRESERVEDLOCK,
        libsqlite3_sys::SQLITE_IOERR_CHECKRESERVEDLOCK
    );
    assert_eq!(error::STATUS_IOERR_LOCK, libsqlite3_sys::SQLITE_IOERR_LOCK);
    assert_eq!(error::STATUS_IOERR_CLOSE, libsqlite3_sys::SQLITE_IOERR_CLOSE);
}

#[test]
fn open_flags_match_the_engine() {
    assert_eq!(flags::OPEN_READONLY, libsqlite3_sys::SQLITE_OPEN_READONLY);
    assert_eq!(flags::OPEN_READWRITE, libsqlite3_sys::SQLITE_OPEN_READWRITE);
    assert_eq!(flags::OPEN_CREATE, libsqlite3_sys::SQLITE_OPEN_CREATE);
    assert_eq!(
        flags::OPEN_DELETEONCLOSE,
        libsqlite3_sys::SQLITE_OPEN_DELETEONCLOSE
    );
    assert_eq!(flags::OPEN_EXCLUSIVE, libsqlite3_sys::SQLITE_OPEN_EXCLUSIVE);
    assert_eq!(flags::OPEN_MAIN_DB, libsqlite3_sys::SQLITE_OPEN_MAIN_DB);
    assert_eq!(flags::OPEN_TEMP_DB, libsqlite3_sys::SQLITE_OPEN_TEMP_DB);
    assert_eq!(
        flags::OPEN_MAIN_JOURNAL,
        libsqlite3_sys::SQLITE_OPEN_MAIN_JOURNAL
    );
    assert_eq!(
        flags::OPEN_TEMP_JOURNAL,
        libsqlite3_sys::SQLITE_OPEN_TEMP_JOURNAL
    );
    assert_eq!(flags::OPEN_SUBJOURNAL, libsqlite3_sys::SQLITE_OPEN_SUBJOURNAL);
    assert_eq!(flags::OPEN_WAL, libsqlite3_sys::SQLITE_OPEN_WAL);
}

#[test]
fn sync_and_access_values_match_the_engine() {
    assert_eq!(flags::SYNC_NORMAL, libsqlite3_sys::SQLITE_SYNC_NORMAL);
    assert_eq!(flags::SYNC_FULL, libsqlite3_sys::SQLITE_SYNC_FULL);
    assert_eq!(flags::SYNC_DATAONLY, libsqlite3_sys::SQLITE_SYNC_DATAONLY);
    assert_eq!(flags::ACCESS_EXISTS, libsqlite3_sys::SQLITE_ACCESS_EXISTS);
    assert_eq!(flags::ACCESS_READWRITE, libsqlite3_sys::SQLITE_ACCESS_READWRITE);
    assert_eq!(flags::ACCESS_READ, libsqlite3_sys::SQLITE_ACCESS_READ);
}
