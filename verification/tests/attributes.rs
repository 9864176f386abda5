//! Unit tests of attribute resolution and kind decoding.

use elkridge::attrs::{attr_from_row, filetype_from_code};
use elkridge::{FileKind, FsError, InodeRow, Timestamp};

fn sample_row() -> InodeRow {
    InodeRow {
        size: 3,
        blocks: 1,
        atime: 10,
        mtime: 11,
        ctime: 12,
        crtime: 13,
        kind: 4,
        perm: 0o644,
        uid: 7,
        gid: 8,
        rdev: 9,
        flags: 2,
    }
}

#[test]
fn kind_codes_decode_to_their_file_kinds() {
    assert_eq!(filetype_from_code(0), FileKind::NamedPipe);
    assert_eq!(filetype_from_code(1), FileKind::CharDevice);
    assert_eq!(filetype_from_code(2), FileKind::BlockDevice);
    assert_eq!(filetype_from_code(3), FileKind::Directory);
    assert_eq!(filetype_from_code(4), FileKind::RegularFile);
    assert_eq!(filetype_from_code(5), FileKind::Symlink);
    assert_eq!(filetype_from_code(6), FileKind::Socket);
}

#[test]
fn unknown_kind_codes_decode_to_regular_file() {
    assert_eq!(filetype_from_code(7), FileKind::RegularFile);
    assert_eq!(filetype_from_code(-1), FileKind::RegularFile);
    assert_eq!(filetype_from_code(i64::MAX), FileKind::RegularFile);
}

#[test]
fn attributes_are_assembled_from_the_row_and_link_count() {
    let attr = attr_from_row(5, &sample_row(), 2).expect("resolve");
    assert_eq!(attr.ino, 5);
    assert_eq!(attr.size, 3);
    assert_eq!(attr.blocks, 1);
    assert_eq!(attr.atime, Timestamp { sec: 10, nsec: 0 });
    assert_eq!(attr.mtime, Timestamp { sec: 11, nsec: 0 });
    assert_eq!(attr.ctime, Timestamp { sec: 12, nsec: 0 });
    assert_eq!(attr.crtime, Timestamp { sec: 13, nsec: 0 });
    assert_eq!(attr.kind, FileKind::RegularFile);
    assert_eq!(attr.perm, 0o644);
    assert_eq!(attr.nlink, 2);
    assert_eq!(attr.uid, 7);
    assert_eq!(attr.gid, 8);
    assert_eq!(attr.rdev, 0);
    assert_eq!(attr.flags, 0);
}

#[test]
fn out_of_range_fields_report_integrity_errors() {
    let row = sample_row();
    assert_eq!(attr_from_row(-1, &row, 1).unwrap_err(), FsError::Integrity);
    assert_eq!(attr_from_row(5, &row, -1).unwrap_err(), FsError::Integrity);
    assert_eq!(attr_from_row(5, &row, i64::from(u32::MAX) + 1).unwrap_err(), FsError::Integrity);
    let mut bad = sample_row();
    bad.perm = 0x10000;
    assert_eq!(attr_from_row(5, &bad, 1).unwrap_err(), FsError::Integrity);
    let mut bad = sample_row();
    bad.size = -1;
    assert_eq!(attr_from_row(5, &bad, 1).unwrap_err(), FsError::Integrity);
    let mut bad = sample_row();
    bad.uid = -1;
    assert_eq!(attr_from_row(5, &bad, 1).unwrap_err(), FsError::Integrity);
    let mut bad = sample_row();
    bad.gid = i64::from(u32::MAX) + 1;
    assert_eq!(attr_from_row(5, &bad, 1).unwrap_err(), FsError::Integrity);
    let mut bad = sample_row();
    bad.blocks = -5;
    assert_eq!(attr_from_row(5, &bad, 1).unwrap_err(), FsError::Integrity);
}

#[test]
fn timestamps_keep_negative_seconds_with_zero_nanoseconds() {
    let mut row = sample_row();
    row.atime = -100;
    let attr = attr_from_row(5, &row, 1).expect("resolve");
    assert_eq!(attr.atime, Timestamp { sec: -100, nsec: 0 });
}
