//! The trusted boundary to the backing store.
//!
//! The database connection owns the three tables; the library holds no copy
//! of filesystem state and re-derives every answer from them.  This module
//! names the tables' contents ([`inode_table`], [`path_table`],
//! [`page_table`]) and wraps each SQL statement the library issues in one
//! function whose contract states, over those names, what the statement
//! does.  Verus believes these contracts; everything else is proved from
//! them.  The model presumes a store that honors the declared schema: the
//! tables are finite, `INTEGER` columns hold 64-bit values, `(parent, name)`
//! is the `Path` table's primary key and the inode id is unique within it.
//!
//! Every driver failure is collapsed into [`FsError::Storage`], the single
//! opaque storage-error kind.

use vstd::prelude::*;
use crate::attrs::{FsError, InodeRow};
use crate::model::{
    ChildRow, PageChunk, Tables, child_record, chunk_row, init_tables, mkdir_row_ok, nlink_of,
    overlapping_pages, path_insert, sorted_by_start, tables_wf,
};
use rusqlite::Connection;

verus! {

#[verifier::external_type_specification]
#[verifier::external_body]
pub struct ExConnection(Connection);

/// The contents of the `Inode` table: each row's columns under its id.
pub uninterp spec fn inode_table(db: Connection) -> Map<int, InodeRow>;

/// The contents of the `Path` table: the linked inode id under each
/// (parent id, name) primary key.
pub uninterp spec fn path_table(db: Connection) -> Map<(int, Seq<char>), int>;

/// The contents of the `Page` table, in table order.
pub uninterp spec fn page_table(db: Connection) -> Seq<crate::model::PageRow>;

/// The three tables of a connection, as one model value.
pub open spec fn db_tables(db: Connection) -> Tables {
    Tables { inodes: inode_table(db), paths: path_table(db), pages: page_table(db) }
}

/// Relies on rusqlite's `Connection::execute_batch` running the schema
/// DDL: it creates the three tables where missing and inserts the root
/// object (inode 0, a directory, self-parented under the empty name)
/// unless one of its rows is already present.  The well-formedness clause
/// records that a real store's tables are finite and its `INTEGER`
/// columns hold 64-bit values.  A failure may leave earlier statements of
/// the batch applied, so it promises well-formedness alone.
#[verifier::external_body]
pub(crate) fn init_schema(db: &mut Connection) -> (r: Result<(), FsError>)
    ensures
        tables_wf(db_tables(*final(db))),
        r matches Ok(u) ==> u == () && init_tables(db_tables(*old(db)), db_tables(*final(db))),
        r matches Err(e) ==> e is Storage,
{
    db.execute_batch(
        "CREATE TABLE IF NOT EXISTS Inode( inode INTEGER PRIMARY KEY, size INTEGER NOT NULL DEFAULT 0 CHECK ( size >= 0 ), blocks INTEGER NOT NULL DEFAULT 0 CHECK ( blocks >= 0 ), atime INTEGER NOT NULL DEFAULT ( strftime('%s') ), mtime INTEGER NOT NULL DEFAULT ( strftime('%s') ), ctime INTEGER NOT NULL DEFAULT ( strftime('%s') ), crtime INTEGER NOT NULL DEFAULT ( strftime('%s') ), kind INTEGER NOT NULL DEFAULT 4, perm INTEGER NOT NULL DEFAULT 420, uid INTEGER NOT NULL DEFAULT 0, gid INTEGER NOT NULL DEFAULT 0, rdev INTEGER NOT NULL DEFAULT 0, flags INTEGER NOT NULL DEFAULT 0 ); CREATE TABLE IF NOT EXISTS Path( inode INTEGER NOT NULL UNIQUE REFERENCES Inode(inode) ON DELETE CASCADE ON UPDATE CASCADE, parent INTEGER NOT NULL REFERENCES Inode(inode) ON DELETE RESTRICT ON UPDATE CASCADE, name TEXT NOT NULL CHECK ( length(name) > 0 OR inode = 0 ), PRIMARY KEY (parent, name) ); CREATE TABLE IF NOT EXISTS Page( inode INTEGER NOT NULL REFERENCES Inode(inode) ON DELETE CASCADE ON UPDATE CASCADE, start INTEGER NOT NULL DEFAULT 0 CHECK (start >= 0), finish INTEGER NOT NULL DEFAULT 0 CHECK (finish >= 0), content BLOB NOT NULL ); CREATE INDEX IF NOT EXISTS Page__inode ON Page(inode); INSERT OR IGNORE INTO Inode(inode, kind) VALUES (0, 3); INSERT OR IGNORE INTO Path(inode, parent, name) VALUES (0, 0, '');",
    ).map_err(|_| FsError::Storage)
}

/// Relies on rusqlite's `Connection::query_row` running
/// `SELECT inode FROM Path WHERE parent = ?1 AND name = ?2`: it returns
/// the inode id linked under (parent, name), and reports no row exactly
/// when the `Path` table has no such key.
#[verifier::external_body]
pub(crate) fn query_path_inode(db: &Connection, parent: i64, name: &str) -> (r: Result<
    Option<i64>,
    FsError,
>)
    ensures
        r matches Ok(Some(i)) ==> path_table(*db).contains_key((parent as int, name@))
            && path_table(*db)[(parent as int, name@)] == i as int,
        r matches Ok(None) ==> !path_table(*db).contains_key((parent as int, name@)),
        r matches Err(e) ==> e is Storage,
{
    let res = db.query_row(
        "SELECT inode FROM Path WHERE parent = ?1 AND name = ?2",
        (parent, name),
        |row| row.get::<usize, i64>(0),
    );
    match res {
        Ok(i) => Ok(Some(i)),
        Err(rusqlite::Error::QueryReturnedNoRows) => Ok(None),
        Err(_) => Err(FsError::Storage),
    }
}

/// Relies on rusqlite's `Connection::query_row` selecting every column of
/// the `Inode` row with the given id: it returns the stored columns, and
/// reports no row exactly when the table has no such id.
#[verifier::external_body]
pub(crate) fn query_inode_row(db: &Connection, ino: i64) -> (r: Result<Option<InodeRow>, FsError>)
    ensures
        r matches Ok(Some(row)) ==> inode_table(*db).contains_key(ino as int)
            && inode_table(*db)[ino as int] == row,
        r matches Ok(None) ==> !inode_table(*db).contains_key(ino as int),
        r matches Err(e) ==> e is Storage,
{
    let res = db.query_row(
        "SELECT size, blocks, atime, mtime, ctime, crtime, kind, perm, uid, gid, rdev, flags FROM Inode WHERE inode = ?1",
        (ino,),
        |row| Ok(InodeRow {
            size: row.get(0)?, blocks: row.get(1)?, atime: row.get(2)?, mtime: row.get(3)?,
            ctime: row.get(4)?, crtime: row.get(5)?, kind: row.get(6)?, perm: row.get(7)?,
            uid: row.get(8)?, gid: row.get(9)?, rdev: row.get(10)?, flags: row.get(11)?,
        }),
    );
    match res {
        Ok(row) => Ok(Some(row)),
        Err(rusqlite::Error::QueryReturnedNoRows) => Ok(None),
        Err(_) => Err(FsError::Storage),
    }
}

/// Relies on rusqlite's `Connection::query_row` running
/// `SELECT count(*) FROM Path WHERE inode = ?1`: the count of `Path` rows
/// linking to the id, the inode's link count.
#[verifier::external_body]
pub(crate) fn query_nlink(db: &Connection, ino: i64) -> (r: Result<i64, FsError>)
    ensures
        r matches Ok(n) ==> n >= 0 && (path_table(*db).dom().finite() ==> n as int == nlink_of(
            path_table(*db),
            ino as int,
        )),
        r matches Err(e) ==> e is Storage,
{
    db.query_row(
        "SELECT count(*) FROM Path WHERE inode = ?1",
        (ino,),
        |row| row.get::<usize, i64>(0),
    ).map_err(|_| FsError::Storage)
}

/// Relies on rusqlite's `Statement::query_map` over
/// `SELECT Path.inode, Path.name, Inode.kind FROM Path JOIN Inode ON
/// Inode.inode = Path.inode WHERE Path.parent = ?1 AND length(Path.name)
/// > 0`: one row per non-empty-named `Path` row under the parent whose
/// inode row exists, each name at most once (the (parent, name) pair is
/// the table's primary key), in no promised order.  The empty name can
/// only be the root's self-entry, which is no child.
#[verifier::external_body]
pub(crate) fn query_children(db: &Connection, parent: i64) -> (r: Result<Vec<ChildRow>, FsError>)
    ensures
        r matches Ok(v) ==> {
            let ps = path_table(*db);
            let ins = inode_table(*db);
            &&& (forall|i: int| 0 <= i < v@.len() ==> child_record(
                ps,
                ins,
                parent as int,
                (#[trigger] v@[i]).ino as int,
                v@[i].name@,
                v@[i].kind as int,
            ))
            &&& (forall|i: int| 0 <= i < v@.len() ==> (#[trigger] v@[i]).name@.len() > 0)
            &&& (forall|nm: Seq<char>| #![trigger ps.contains_key((parent as int, nm))]
                nm.len() > 0 && ps.contains_key((parent as int, nm)) && ins.contains_key(
                    ps[(parent as int, nm)],
                ) ==> exists|i: int| 0 <= i < v@.len() && (#[trigger] v@[i]).name@ == nm)
            &&& (forall|i: int, j: int| 0 <= i < j < v@.len() ==> v@[i].name@ != v@[j].name@)
        },
        r matches Err(e) ==> e is Storage,
{
    let mut stmt = db.prepare(
        "SELECT Path.inode, Path.name, Inode.kind FROM Path JOIN Inode ON Inode.inode = Path.inode WHERE Path.parent = ?1 AND length(Path.name) > 0",
    ).map_err(|_| FsError::Storage)?;
    let rows = stmt.query_map(
        (parent,),
        |row| Ok(ChildRow { ino: row.get(0)?, name: row.get(1)?, kind: row.get(2)? }),
    ).and_then(|m| m.collect::<rusqlite::Result<Vec<ChildRow>>>()).map_err(|_| FsError::Storage)?;
    Ok(rows)
}

/// Relies on rusqlite's `Statement::query_map` over `SELECT start,
/// finish, content FROM Page WHERE inode = ?1 AND start <= ?2 AND finish
/// >= ?3 ORDER BY start`: exactly the pages of the inode overlapping the
/// window `[lo, hi]`, ascending by start offset (ties in no promised
/// order).
#[verifier::external_body]
pub(crate) fn query_pages(db: &Connection, ino: i64, lo: i64, hi: i64) -> (r: Result<
    Vec<PageChunk>,
    FsError,
>)
    ensures
        r matches Ok(v) ==> {
            let rows = v@.map_values(|c: PageChunk| chunk_row(ino as int, c));
            &&& rows.to_multiset() == overlapping_pages(
                page_table(*db),
                ino as int,
                lo as int,
                hi as int,
            ).to_multiset()
            &&& sorted_by_start(rows)
        },
        r matches Err(e) ==> e is Storage,
{
    let mut stmt = db.prepare(
        "SELECT start, finish, content FROM Page WHERE inode = ?1 AND start <= ?2 AND finish >= ?3 ORDER BY start",
    ).map_err(|_| FsError::Storage)?;
    let rows = stmt.query_map(
        (ino, hi, lo),
        |row| Ok(PageChunk { start: row.get(0)?, finish: row.get(1)?, content: row.get(2)? }),
    ).and_then(|m| m.collect::<rusqlite::Result<Vec<PageChunk>>>()).map_err(|_| FsError::Storage)?;
    Ok(rows)
}

/// Relies on rusqlite's `Connection::execute` running
/// `INSERT INTO Inode(perm, kind) VALUES (?1, 3)` and on
/// `Connection::last_insert_rowid` returning the id that insert chose:
/// SQLite stores the row under an id not in use, with the given
/// permission bits, the directory kind, and every other column at its
/// schema default.  On failure nothing is stored: a single statement is
/// atomic.
#[verifier::external_body]
pub(crate) fn insert_inode(db: &mut Connection, mode: u32) -> (r: Result<i64, FsError>)
    ensures
        r matches Ok(ino) ==> !inode_table(*old(db)).contains_key(ino as int) && (exists|
            row: InodeRow,
        |
            #[trigger] mkdir_row_ok(row, mode as int) && inode_table(*final(db)) == inode_table(
                *old(db),
            ).insert(ino as int, row)),
        r matches Ok(ino) ==> path_table(*final(db)) == path_table(*old(db)) && page_table(
            *final(db),
        ) == page_table(*old(db)),
        r matches Err(e) ==> e is Storage && inode_table(*final(db)) == inode_table(*old(db))
            && path_table(*final(db)) == path_table(*old(db)) && page_table(*final(db))
            == page_table(*old(db)),
{
    db.execute("INSERT INTO Inode(perm, kind) VALUES (?1, 3)", (mode,)).map_err(
        |_| FsError::Storage,
    )?;
    Ok(db.last_insert_rowid())
}

/// Relies on rusqlite's `Connection::execute` running `INSERT OR IGNORE
/// INTO Path(inode, parent, name) VALUES (?1, ?2, ?3)`: the link is added
/// unless its key or its inode id is already taken or the name is empty
/// (the schema's constraints, which `OR IGNORE` turns into a no-op).  On
/// failure nothing is stored.
#[verifier::external_body]
pub(crate) fn insert_path(db: &mut Connection, ino: i64, parent: i64, name: &str) -> (r: Result<
    (),
    FsError,
>)
    ensures
        r matches Ok(u) ==> u == () && path_table(*final(db)) == path_insert(
            path_table(*old(db)),
            ino as int,
            parent as int,
            name@,
        ) && inode_table(*final(db)) == inode_table(*old(db)) && page_table(*final(db))
            == page_table(*old(db)),
        r matches Err(e) ==> e is Storage && inode_table(*final(db)) == inode_table(*old(db))
            && path_table(*final(db)) == path_table(*old(db)) && page_table(*final(db))
            == page_table(*old(db)),
{
    db.execute(
        "INSERT OR IGNORE INTO Path(inode, parent, name) VALUES (?1, ?2, ?3)",
        (ino, parent, name),
    ).map_err(|_| FsError::Storage)?;
    Ok(())
}

/// Relies on rusqlite's `Connection::execute` running
/// `DELETE FROM Path WHERE parent = ?1 AND name = ?2`: the link under
/// (parent, name) is gone afterwards; deleting an absent link succeeds
/// and changes nothing.  On failure nothing is deleted.
#[verifier::external_body]
pub(crate) fn delete_path(db: &mut Connection, parent: i64, name: &str) -> (r: Result<(), FsError>)
    ensures
        r matches Ok(u) ==> u == () && path_table(*final(db)) == path_table(*old(db)).remove(
            (parent as int, name@),
        ) && inode_table(*final(db)) == inode_table(*old(db)) && page_table(*final(db))
            == page_table(*old(db)),
        r matches Err(e) ==> e is Storage && inode_table(*final(db)) == inode_table(*old(db))
            && path_table(*final(db)) == path_table(*old(db)) && page_table(*final(db))
            == page_table(*old(db)),
{
    db.execute("DELETE FROM Path WHERE parent = ?1 AND name = ?2", (parent, name)).map_err(
        |_| FsError::Storage,
    )?;
    Ok(())
}

/// Relies on rusqlite's `Connection::execute_batch` running `BEGIN`:
/// opening a transaction changes no table.
#[verifier::external_body]
pub(crate) fn begin_txn(db: &mut Connection) -> (r: Result<(), FsError>)
    ensures
        inode_table(*final(db)) == inode_table(*old(db)),
        path_table(*final(db)) == path_table(*old(db)),
        page_table(*final(db)) == page_table(*old(db)),
        r matches Err(e) ==> e is Storage,
{
    db.execute_batch("BEGIN;").map_err(|_| FsError::Storage)
}

/// Relies on rusqlite's `Connection::execute_batch` running `COMMIT`:
/// committing makes the transaction's statements durable and changes
/// nothing this connection had not already applied.
#[verifier::external_body]
pub(crate) fn commit_txn(db: &mut Connection) -> (r: Result<(), FsError>)
    ensures
        inode_table(*final(db)) == inode_table(*old(db)),
        path_table(*final(db)) == path_table(*old(db)),
        page_table(*final(db)) == page_table(*old(db)),
        r matches Err(e) ==> e is Storage,
{
    db.execute_batch("COMMIT;").map_err(|_| FsError::Storage)
}

/// Relies on rusqlite's `Connection::execute_batch` running `ROLLBACK`:
/// the tables revert to a state the store actually held, and any real
/// store is well-formed — finite tables whose `INTEGER` columns hold
/// 64-bit values.  A failure of the rollback itself is ignored, as the
/// original storage error is what callers report.
#[verifier::external_body]
pub(crate) fn rollback_txn(db: &mut Connection)
    ensures
        tables_wf(db_tables(*final(db))),
{
    let _ = db.execute_batch("ROLLBACK;");
}

} // verus!
