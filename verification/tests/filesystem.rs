//! End-to-end tests of the filesystem operations over an in-memory store.

use elkridge::{BasicFilesystem, Elkridge, FileKind, FsError};
use rusqlite::Connection;

fn fresh_fs() -> Elkridge {
    let conn = Connection::open_in_memory().expect("open in-memory store");
    Elkridge::new(conn).expect("create schema")
}

#[test]
fn root_lookup_succeeds_with_directory_kind() {
    let mut fs = fresh_fs();
    let attr = fs.lookup_basic(0, "").expect("root lookup");
    assert_eq!(attr.ino, 0);
    assert_eq!(attr.kind, FileKind::Directory);
}

#[test]
fn root_getattr_reports_one_link() {
    let mut fs = fresh_fs();
    let attr = fs.getattr_basic(0).expect("root getattr");
    assert_eq!(attr.ino, 0);
    assert_eq!(attr.kind, FileKind::Directory);
    assert_eq!(attr.nlink, 1);
    assert_eq!(attr.perm, 0o644);
}

#[test]
fn lookup_missing_name_reports_not_found() {
    let mut fs = fresh_fs();
    let err = fs.lookup_basic(0, "missing").unwrap_err();
    assert_eq!(err, FsError::NotFound);
}

#[test]
fn mkdir_then_lookup_round_trips() {
    let mut fs = fresh_fs();
    let made = fs.mkdir_basic(0, "docs", 0o755).expect("mkdir");
    let found = fs.lookup_basic(0, "docs").expect("lookup after mkdir");
    assert_eq!(found.ino, made.ino);
    assert_eq!(found.perm, 0o755);
    assert_eq!(found.kind, FileKind::Directory);
    assert_eq!(found.nlink, 1);
}

#[test]
fn mkdir_scenario_reports_directory_attributes_and_single_listing() {
    let mut fs = fresh_fs();
    let made = fs.mkdir_basic(0, "docs", 0o755).expect("mkdir");
    assert_eq!(made.kind, FileKind::Directory);
    assert_eq!(made.perm, 0o755);
    assert_eq!(made.nlink, 1);
    assert_eq!(made.size, 0);
    assert_eq!(made.uid, 0);
    assert_eq!(made.gid, 0);
    let entries = fs.readdir_basic(0, 0, 0).expect("readdir");
    assert_eq!(entries.len(), 1);
    assert_eq!(entries[0].name, "docs");
    assert_eq!(entries[0].ino, made.ino);
    assert_eq!(entries[0].kind, FileKind::Directory);
    assert_eq!(entries[0].offset, 0);
}

#[test]
fn mkdir_twice_is_idempotent() {
    let mut fs = fresh_fs();
    let first = fs.mkdir_basic(0, "docs", 0o755).expect("first mkdir");
    let second = fs.mkdir_basic(0, "docs", 0o755).expect("second mkdir");
    assert_eq!(second.ino, first.ino);
    let entries = fs.readdir_basic(0, 0, 0).expect("readdir");
    assert_eq!(entries.len(), 1);
}

#[test]
fn mkdir_existing_entry_keeps_its_permission_bits() {
    let mut fs = fresh_fs();
    let first = fs.mkdir_basic(0, "docs", 0o755).expect("first mkdir");
    let second = fs.mkdir_basic(0, "docs", 0o700).expect("second mkdir");
    assert_eq!(second.ino, first.ino);
    assert_eq!(second.perm, 0o755);
}

#[test]
fn rmdir_makes_lookup_fail_with_not_found() {
    let mut fs = fresh_fs();
    fs.mkdir_basic(0, "docs", 0o755).expect("mkdir");
    fs.rmdir_basic(0, "docs").expect("rmdir");
    let err = fs.lookup_basic(0, "docs").unwrap_err();
    assert_eq!(err, FsError::NotFound);
    let entries = fs.readdir_basic(0, 0, 0).expect("readdir");
    assert_eq!(entries.len(), 0);
}

#[test]
fn rmdir_of_absent_entry_succeeds() {
    let mut fs = fresh_fs();
    fs.rmdir_basic(0, "nothing-here").expect("lenient rmdir");
}

#[test]
fn readdir_lists_every_child_once() {
    let mut fs = fresh_fs();
    let a = fs.mkdir_basic(0, "alpha", 0o700).expect("mkdir alpha");
    let b = fs.mkdir_basic(0, "beta", 0o710).expect("mkdir beta");
    let c = fs.mkdir_basic(0, "gamma", 0o720).expect("mkdir gamma");
    let mut entries = fs.readdir_basic(0, 0, 0).expect("readdir");
    entries.sort_by(|x, y| x.name.cmp(&y.name));
    assert_eq!(entries.len(), 3);
    assert_eq!(entries[0].name, "alpha");
    assert_eq!(entries[0].ino, a.ino);
    assert_eq!(entries[1].name, "beta");
    assert_eq!(entries[1].ino, b.ino);
    assert_eq!(entries[2].name, "gamma");
    assert_eq!(entries[2].ino, c.ino);
}

#[test]
fn nested_mkdir_counts_links_per_inode() {
    let mut fs = fresh_fs();
    let docs = fs.mkdir_basic(0, "docs", 0o755).expect("mkdir docs");
    let inner = fs.mkdir_basic(docs.ino, "inner", 0o755).expect("mkdir inner");
    assert_eq!(inner.nlink, 1);
    let found = fs.lookup_basic(docs.ino, "inner").expect("lookup inner");
    assert_eq!(found.ino, inner.ino);
    assert_eq!(fs.getattr_basic(docs.ino).expect("getattr docs").nlink, 1);
}

#[test]
fn schema_creation_failure_reports_storage_error() {
    let conn = Connection::open_in_memory().expect("open in-memory store");
    conn.execute_batch("CREATE TABLE Path(x INTEGER);").expect("plant bad table");
    let err = match Elkridge::new(conn) {
        Ok(_) => panic!("schema creation must fail on a malformed Path table"),
        Err(e) => e,
    };
    assert_eq!(err, FsError::Storage);
}

#[test]
fn stored_permission_bits_out_of_range_report_integrity_error() {
    let conn = Connection::open_in_memory().expect("open in-memory store");
    conn.execute_batch(
        "CREATE TABLE Inode( inode INTEGER PRIMARY KEY, size INTEGER NOT NULL DEFAULT 0, blocks INTEGER NOT NULL DEFAULT 0, atime INTEGER NOT NULL DEFAULT 0, mtime INTEGER NOT NULL DEFAULT 0, ctime INTEGER NOT NULL DEFAULT 0, crtime INTEGER NOT NULL DEFAULT 0, kind INTEGER NOT NULL DEFAULT 4, perm INTEGER NOT NULL DEFAULT 420, uid INTEGER NOT NULL DEFAULT 0, gid INTEGER NOT NULL DEFAULT 0, rdev INTEGER NOT NULL DEFAULT 0, flags INTEGER NOT NULL DEFAULT 0 ); CREATE TABLE Path( inode INTEGER NOT NULL UNIQUE, parent INTEGER NOT NULL, name TEXT NOT NULL, PRIMARY KEY (parent, name) ); INSERT INTO Inode(inode, perm) VALUES (9, 70000); INSERT INTO Path(inode, parent, name) VALUES (9, 0, 'big');",
    )
    .expect("plant out-of-range row");
    let mut fs = Elkridge::new(conn).expect("create schema");
    let err = fs.lookup_basic(0, "big").unwrap_err();
    assert_eq!(err, FsError::Integrity);
}
