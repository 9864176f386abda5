//! The filesystem over the relational store: path resolution, attribute
//! retrieval, content reads, directory listing, and transactional directory
//! creation and removal, each verified against the table model.

use vstd::prelude::*;
use crate::attrs::{attr_from_row, filetype_from_code, DirectoryEntry, FileAttr, FsError};
use crate::model::{
    mkdir_row_ok, mkdir_tables, read_ok, readdir_ok, spec_getattr, spec_lookup, tables_wf,
    chunk_row, concat_contents, init_tables, lemma_filter_all_false, overlapping_pages,
    page_overlaps, PageChunk, PageRow, Tables,
};
use crate::store::{
    begin_txn, commit_txn, db_tables, delete_path, init_schema, insert_inode, insert_path,
    query_children, query_inode_row, query_nlink, query_pages, query_path_inode, rollback_txn,
};
use rusqlite::Connection;

verus! {

/// The filesystem: one connection to the backing store, which owns all
/// state.  Every request re-derives its answer from the tables.
pub struct Elkridge {
    pub conn: Connection,
}

/// The result-returning filesystem interface: each operation reports its
/// outcome as a value, specified against the table model; adapting those
/// results to a callback protocol is a caller's concern.
pub trait BasicFilesystem: Sized {
    /// The model of the backing store this filesystem answers from.
    spec fn tables(&self) -> Tables;

    /// Search for an object by parent inode and name, resolving its
    /// attributes and computed link count.
    fn lookup_basic(&mut self, parent: u64, name: &str) -> (r: Result<FileAttr, FsError>)
        requires
            tables_wf(old(self).tables()),
        ensures
            final(self).tables() == old(self).tables(),
            (r matches Err(e) && e is Storage) || r == spec_lookup(
                old(self).tables(),
                parent as int,
                name@,
            ),
    ;

    /// Directly retrieve the attributes of an inode.
    fn getattr_basic(&mut self, ino: u64) -> (r: Result<FileAttr, FsError>)
        requires
            tables_wf(old(self).tables()),
        ensures
            final(self).tables() == old(self).tables(),
            (r matches Err(e) && e is Storage) || r == spec_getattr(old(self).tables(), ino as int),
    ;

    /// Read the window `[offset, offset + size]` of a file's content:
    /// every overlapping page contributes its whole stored content,
    /// ascending by start offset.  An inode with no matching pages yields
    /// an empty buffer.
    fn read_basic(&mut self, ino: u64, _fh: u64, offset: i64, size: u32) -> (r: Result<
        Vec<u8>,
        FsError,
    >)
        requires
            tables_wf(old(self).tables()),
            0 <= offset,
            offset + size <= i64::MAX,
        ensures
            final(self).tables() == old(self).tables(),
            r matches Err(e) ==> e is Storage,
            r matches Ok(buf) ==> read_ok(
                old(self).tables().pages,
                ino as int,
                offset as int,
                offset + size,
                buf@,
            ),
    ;

    /// List the children of a directory, in no promised order, each with
    /// a zero resumption offset (listings are not resumable).
    fn readdir_basic(&mut self, ino: u64, _fh: u64, _offset: i64) -> (r: Result<
        Vec<DirectoryEntry>,
        FsError,
    >)
        requires
            tables_wf(old(self).tables()),
        ensures
            final(self).tables() == old(self).tables(),
            r matches Err(e) ==> e is Storage || e is Integrity,
            (r matches Err(e) && e is Integrity) ==> (exists|nm: Seq<char>|
                {
                    &&& #[trigger] old(self).tables().paths.contains_key((ino as int, nm))
                    &&& old(self).tables().paths[(ino as int, nm)] < 0
                    &&& old(self).tables().inodes.contains_key(
                        old(self).tables().paths[(ino as int, nm)],
                    )
                }),
            r matches Ok(v) ==> readdir_ok(
                old(self).tables().paths,
                old(self).tables().inodes,
                ino as int,
                v@,
            ),
    ;

    /// Create a directory entry under `parent` with the given permission
    /// bits, as one transaction.  If the entry already exists the call is
    /// idempotent: it resolves and returns the existing object instead of
    /// failing.  Otherwise a fresh inode row is stored and linked, and
    /// the committed object is resolved.
    fn mkdir_basic(&mut self, parent: u64, name: &str, mode: u32) -> (r: Result<FileAttr, FsError>)
        requires
            tables_wf(old(self).tables()),
        ensures
            tables_wf(final(self).tables()),
            ({
                let t = old(self).tables();
                let t2 = final(self).tables();
                let p = parent as int;
                let n = name@;
                ||| (r matches Err(e) && e is Storage)
                ||| (p > i64::MAX && (r matches Err(e) && e is NotFound) && t2 == t)
                ||| (t.paths.contains_key((p, n)) && t2 == t && r == spec_getattr(
                    t,
                    t.paths[(p, n)],
                ))
                ||| (!t.paths.contains_key((p, n)) && p <= i64::MAX && (exists|
                    fresh: int,
                    row: crate::attrs::InodeRow,
                |
                    {
                        &&& i64::MIN <= fresh <= i64::MAX
                        &&& !t.inodes.contains_key(fresh)
                        &&& mkdir_row_ok(row, mode as int)
                        &&& t2 == #[trigger] mkdir_tables(t, p, n, row, fresh)
                        &&& r == spec_getattr(t2, fresh)
                    }))
            }),
    ;

    /// Remove the directory entry (parent, name).  Deletion is
    /// set-based: removing an absent entry succeeds and changes nothing,
    /// and the linked inode row is not reclaimed.
    fn rmdir_basic(&mut self, parent: u64, name: &str) -> (r: Result<(), FsError>)
        requires
            tables_wf(old(self).tables()),
        ensures
            tables_wf(final(self).tables()),
            final(self).tables().inodes == old(self).tables().inodes,
            final(self).tables().pages == old(self).tables().pages,
            r matches Ok(u) ==> u == () && final(self).tables().paths == old(
                self,
            ).tables().paths.remove((parent as int, name@)),
            r matches Err(e) ==> e is Storage && final(self).tables().paths == old(
                self,
            ).tables().paths,
    ;
}

/// Inserting one inode row and one path row preserves store
/// well-formedness when the new ids fit an `INTEGER` column.
proof fn lemma_wf_mkdir(t: Tables, parent: int, name: Seq<char>, row: crate::attrs::InodeRow, fresh: int)
    requires
        tables_wf(t),
        i64::MIN <= fresh <= i64::MAX,
        i64::MIN <= parent <= i64::MAX,
    ensures
        tables_wf(mkdir_tables(t, parent, name, row, fresh)),
{
}

/// Removing one path row preserves store well-formedness.
proof fn lemma_wf_remove_path(t: Tables, key: (int, Seq<char>))
    requires
        tables_wf(t),
    ensures
        tables_wf(Tables { inodes: t.inodes, paths: t.paths.remove(key), pages: t.pages }),
{
    assert(t.paths.remove(key).dom() =~= t.paths.dom().remove(key));
    vstd::set::axiom_set_remove_finite(t.paths.dom(), key);
}

impl Elkridge {
    /// Open the filesystem over a connection: create the schema where
    /// missing and make sure the root object exists.
    pub fn new(conn: Connection) -> (r: Result<Elkridge, FsError>)
        ensures
            r matches Ok(fs) ==> tables_wf(db_tables(fs.conn)) && init_tables(
                db_tables(conn),
                db_tables(fs.conn),
            ),
            r matches Err(e) ==> e is Storage,
    {
        let mut c = conn;
        match init_schema(&mut c) {
            Ok(()) => Ok(Elkridge { conn: c }),
            Err(e) => Err(e),
        }
    }

    /// Resolve the attributes of the inode with this id: its stored row
    /// joined with its computed link count.
    fn getattr_by_id(&self, ino: i64) -> (r: Result<FileAttr, FsError>)
        requires
            tables_wf(db_tables(self.conn)),
        ensures
            (r matches Err(e) && e is Storage) || r == spec_getattr(db_tables(self.conn), ino as int),
    {
        let row_opt = match query_inode_row(&self.conn, ino) {
            Ok(v) => v,
            Err(e) => {
                return Err(e);
            },
        };
        match row_opt {
            None => Err(FsError::NotFound),
            Some(row) => {
                let nlink = match query_nlink(&self.conn, ino) {
                    Ok(n) => n,
                    Err(e) => {
                        return Err(e);
                    },
                };
                attr_from_row(ino, &row, nlink)
            },
        }
    }
}

impl BasicFilesystem for Elkridge {
    open spec fn tables(&self) -> Tables {
        db_tables(self.conn)
    }

    fn lookup_basic(&mut self, parent: u64, name: &str) -> (r: Result<FileAttr, FsError>) {
        if parent > i64::MAX as u64 {
            proof {
                assert(!db_tables(self.conn).paths.contains_key((parent as int, name@)));
            }
            return Err(FsError::NotFound);
        }
        let found = match query_path_inode(&self.conn, parent as i64, name) {
            Ok(v) => v,
            Err(e) => {
                return Err(e);
            },
        };
        match found {
            None => Err(FsError::NotFound),
            Some(i) => self.getattr_by_id(i),
        }
    }

    fn getattr_basic(&mut self, ino: u64) -> (r: Result<FileAttr, FsError>) {
        if ino > i64::MAX as u64 {
            proof {
                assert(!db_tables(self.conn).inodes.contains_key(ino as int));
            }
            return Err(FsError::NotFound);
        }
        self.getattr_by_id(ino as i64)
    }

    #[verifier::loop_isolation(false)]
    fn read_basic(&mut self, ino: u64, _fh: u64, offset: i64, size: u32) -> (r: Result<
        Vec<u8>,
        FsError,
    >) {
        let hi = offset + (size as i64);
        if ino > i64::MAX as u64 {
            proof {
                let pages = db_tables(self.conn).pages;
                let pred = |p: PageRow| page_overlaps(p, ino as int, offset as int, hi as int);
                assert forall|i: int| 0 <= i < pages.len() implies !pred(pages[i]) by {
                    assert(pages[i].inode <= i64::MAX < ino as int);
                }
                lemma_filter_all_false(pages, pred);
                let s = Seq::<PageRow>::empty();
                assert(s.to_multiset() == overlapping_pages(
                    pages,
                    ino as int,
                    offset as int,
                    hi as int,
                ).to_multiset());
                assert(concat_contents(s) == Seq::<u8>::empty());
                assert(read_ok(pages, ino as int, offset as int, hi as int, Seq::<u8>::empty()));
            }
            let buf: Vec<u8> = Vec::new();
            return Ok(buf);
        }
        let chunks = match query_pages(&self.conn, ino as i64, offset, hi) {
            Ok(v) => v,
            Err(e) => {
                return Err(e);
            },
        };
        let ghost rows = chunks@.map_values(|c: PageChunk| chunk_row(ino as int, c));
        let mut buf: Vec<u8> = Vec::new();
        let n = chunks.len();
        assert(buf@ == concat_contents(rows.take(0)));
        for i in 0..n
            invariant
                n == chunks.len(),
                rows == chunks@.map_values(|c: PageChunk| chunk_row(ino as int, c)),
                buf@ == concat_contents(rows.take(i as int)),
        {
            let m = chunks[i].content.len();
            let mut j: usize = 0;
            while j < m
                invariant
                    j <= m,
                    i < n,
                    n == chunks.len(),
                    m == chunks@[i as int].content@.len(),
                    rows == chunks@.map_values(|c: PageChunk| chunk_row(ino as int, c)),
                    buf@ == concat_contents(rows.take(i as int)) + chunks@[i as int].content@.take(
                        j as int,
                    ),
                decreases m - j,
            {
                buf.push(chunks[i].content[j]);
                proof {
                    assert(chunks@[i as int].content@.take(j + 1) =~= chunks@[
                        i as int
                    ].content@.take(j as int).push(chunks@[i as int].content@[j as int]));
                }
                j = j + 1;
            }
            proof {
                let t1 = rows.take(i + 1);
                assert(t1.drop_last() =~= rows.take(i as int));
                assert(t1.last() == rows[i as int]);
                assert(rows[i as int].content == chunks@[i as int].content@);
                assert(chunks@[i as int].content@.take(m as int) =~= chunks@[i as int].content@);
                assert(buf@ == concat_contents(rows.take(i + 1)));
            }
        }
        proof {
            assert(rows.take(n as int) =~= rows);
            assert(read_ok(
                db_tables(self.conn).pages,
                ino as int,
                offset as int,
                offset + size,
                buf@,
            ));
        }
        Ok(buf)
    }

    #[verifier::loop_isolation(false)]
    fn readdir_basic(&mut self, ino: u64, _fh: u64, _offset: i64) -> (r: Result<
        Vec<DirectoryEntry>,
        FsError,
    >) {
        if ino > i64::MAX as u64 {
            let out: Vec<DirectoryEntry> = Vec::new();
            proof {
                assert forall|nm: Seq<char>| !(#[trigger] db_tables(self.conn).paths.contains_key(
                    (ino as int, nm),
                )) by {
                }
            }
            return Ok(out);
        }
        let children = match query_children(&self.conn, ino as i64) {
            Ok(v) => v,
            Err(e) => {
                return Err(e);
            },
        };
        let mut out: Vec<DirectoryEntry> = Vec::new();
        let n = children.len();
        for idx in 0..n
            invariant
                n == children.len(),
                out@.len() == idx,
                forall|i: int| 0 <= i < idx ==> {
                    let e = #[trigger] out@[i];
                    &&& children@[i].ino >= 0
                    &&& e.ino == children@[i].ino as u64
                    &&& e.name@ == children@[i].name@
                    &&& e.kind == crate::attrs::kind_of_code(children@[i].kind as int)
                    &&& e.offset == 0
                },
        {
            let c = &children[idx];
            if c.ino < 0 {
                proof {
                    let ps = db_tables(self.conn).paths;
                    let cr = children@[idx as int];
                    assert(crate::model::child_record(
                        ps,
                        db_tables(self.conn).inodes,
                        (ino as i64) as int,
                        cr.ino as int,
                        cr.name@,
                        cr.kind as int,
                    ));
                    assert(ps.contains_key((ino as int, cr.name@)));
                    assert(ps[(ino as int, cr.name@)] < 0);
                }
                return Err(FsError::Integrity);
            }
            let kind = filetype_from_code(c.kind);
            let name = c.name.clone();
            out.push(DirectoryEntry { ino: c.ino as u64, offset: 0, kind, name });
        }
        proof {
            let ps = db_tables(self.conn).paths;
            let ins = db_tables(self.conn).inodes;
            assert forall|nm: Seq<char>| #![trigger ps.contains_key((ino as int, nm))]
                nm.len() > 0 && ps.contains_key((ino as int, nm)) && ins.contains_key(
                    ps[(ino as int, nm)],
                ) && 0 <= ps[(ino as int, nm)] implies exists|i: int|
                0 <= i < out@.len() && (#[trigger] out@[i]).name@ == nm by {
                let i = choose|i: int| 0 <= i < children@.len() && (#[trigger] children@[
                    i
                ]).name@ == nm;
                assert(out@[i].name@ == nm);
            }
        }
        Ok(out)
    }

    fn mkdir_basic(&mut self, parent: u64, name: &str, mode: u32) -> (r: Result<
        FileAttr,
        FsError,
    >) {
        let ghost t0 = db_tables(self.conn);
        if parent > i64::MAX as u64 {
            return Err(FsError::NotFound);
        }
        match begin_txn(&mut self.conn) {
            Ok(()) => (),
            Err(e) => {
                return Err(e);
            },
        }
        let found = match query_path_inode(&self.conn, parent as i64, name) {
            Ok(v) => v,
            Err(e) => {
                rollback_txn(&mut self.conn);
                return Err(e);
            },
        };
        match found {
            Some(i) => {
                match commit_txn(&mut self.conn) {
                    Ok(()) => (),
                    Err(e) => {
                        rollback_txn(&mut self.conn);
                        return Err(e);
                    },
                }
                proof {
                    assert(db_tables(self.conn) =~= t0);
                }
                self.getattr_by_id(i)
            },
            None => {
                let ghost t1 = db_tables(self.conn);
                proof {
                    assert(t1 =~= t0);
                }
                let fresh = match insert_inode(&mut self.conn, mode) {
                    Ok(v) => v,
                    Err(e) => {
                        rollback_txn(&mut self.conn);
                        return Err(e);
                    },
                };
                let ghost row = choose|row: crate::attrs::InodeRow|
                    #[trigger] mkdir_row_ok(row, mode as int) && db_tables(self.conn).inodes
                        == t1.inodes.insert(fresh as int, row);
                match insert_path(&mut self.conn, fresh, parent as i64, name) {
                    Ok(()) => (),
                    Err(e) => {
                        rollback_txn(&mut self.conn);
                        return Err(e);
                    },
                }
                match commit_txn(&mut self.conn) {
                    Ok(()) => (),
                    Err(e) => {
                        rollback_txn(&mut self.conn);
                        return Err(e);
                    },
                }
                proof {
                    lemma_wf_mkdir(t0, parent as int, name@, row, fresh as int);
                    assert(db_tables(self.conn) =~= mkdir_tables(
                        t0,
                        parent as int,
                        name@,
                        row,
                        fresh as int,
                    ));
                }
                let r = self.getattr_by_id(fresh);
                proof {
                    assert((exists|fr: int, rw: crate::attrs::InodeRow|
                        {
                            &&& i64::MIN <= fr <= i64::MAX
                            &&& !t0.inodes.contains_key(fr)
                            &&& mkdir_row_ok(rw, mode as int)
                            &&& db_tables(self.conn) == #[trigger] mkdir_tables(
                                t0,
                                parent as int,
                                name@,
                                rw,
                                fr,
                            )
                            &&& r == spec_getattr(db_tables(self.conn), fr)
                        }) || (r matches Err(e) && e is Storage)) by {
                        if !(r matches Err(e) && e is Storage) {
                            assert(r == spec_getattr(db_tables(self.conn), fresh as int));
                            assert({
                                &&& i64::MIN <= fresh as int <= i64::MAX
                                &&& !t0.inodes.contains_key(fresh as int)
                                &&& mkdir_row_ok(row, mode as int)
                                &&& db_tables(self.conn) == mkdir_tables(
                                    t0,
                                    parent as int,
                                    name@,
                                    row,
                                    fresh as int,
                                )
                            });
                        }
                    }
                }
                r
            },
        }
    }

    fn rmdir_basic(&mut self, parent: u64, name: &str) -> (r: Result<(), FsError>) {
        if parent > i64::MAX as u64 {
            proof {
                let ps = db_tables(self.conn).paths;
                assert(!ps.contains_key((parent as int, name@)));
                assert(ps =~= ps.remove((parent as int, name@)));
            }
            return Ok(());
        }
        let ghost t0 = db_tables(self.conn);
        match delete_path(&mut self.conn, parent as i64, name) {
            Ok(()) => {
                proof {
                    let key = (parent as int, name@);
                    lemma_wf_remove_path(t0, key);
                    assert(db_tables(self.conn) =~= (Tables {
                        inodes: t0.inodes,
                        paths: t0.paths.remove(key),
                        pages: t0.pages,
                    }));
                    assert(tables_wf(db_tables(self.conn)));
                }
                Ok(())
            },
            Err(e) => {
                proof {
                    assert(db_tables(self.conn) =~= t0);
                    assert(tables_wf(db_tables(self.conn)));
                }
                Err(e)
            },
        }
    }
}

} // verus!
