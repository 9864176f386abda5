//! Tests of content assembly from stored page rows.

use elkridge::{BasicFilesystem, Elkridge};
use rusqlite::Connection;

fn store_with_pages(pages: &[(i64, i64, i64, &[u8])]) -> Elkridge {
    let conn = Connection::open_in_memory().expect("open in-memory store");
    conn.execute_batch(
        "CREATE TABLE Page( inode INTEGER NOT NULL, start INTEGER NOT NULL DEFAULT 0, finish INTEGER NOT NULL DEFAULT 0, content BLOB NOT NULL );",
    )
    .expect("create page table");
    for (inode, start, finish, content) in pages {
        conn.execute(
            "INSERT INTO Page(inode, start, finish, content) VALUES (?1, ?2, ?3, ?4)",
            (*inode, *start, *finish, content.to_vec()),
        )
        .expect("insert page");
    }
    Elkridge::new(conn).expect("create schema")
}

#[test]
fn read_assembles_overlapping_pages_in_start_order() {
    let mut fs = store_with_pages(&[(5, 0, 4, b"abcd"), (5, 4, 8, b"efgh")]);
    let buf = fs.read_basic(5, 0, 2, 4).expect("read");
    assert_eq!(buf, b"abcdefgh".to_vec());
    let text = String::from_utf8(buf).expect("utf8");
    assert!(text.contains("cdef"));
}

#[test]
fn read_orders_pages_by_start_not_by_insertion() {
    let mut fs = store_with_pages(&[(5, 4, 8, b"efgh"), (5, 0, 4, b"abcd")]);
    let buf = fs.read_basic(5, 0, 0, 8).expect("read");
    assert_eq!(buf, b"abcdefgh".to_vec());
}

#[test]
fn read_skips_pages_outside_the_window() {
    let mut fs = store_with_pages(&[(5, 0, 4, b"abcd"), (5, 10, 14, b"wxyz")]);
    let buf = fs.read_basic(5, 0, 6, 4).expect("read");
    assert_eq!(buf, b"wxyz".to_vec());
}

#[test]
fn read_ignores_pages_of_other_inodes() {
    let mut fs = store_with_pages(&[(5, 0, 4, b"abcd"), (6, 0, 4, b"zzzz")]);
    let buf = fs.read_basic(5, 0, 0, 4).expect("read");
    assert_eq!(buf, b"abcd".to_vec());
}

#[test]
fn read_of_inode_without_pages_yields_empty_buffer() {
    let mut fs = store_with_pages(&[]);
    let buf = fs.read_basic(42, 0, 0, 4096).expect("read");
    assert!(buf.is_empty());
}
