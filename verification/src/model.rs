//! The mathematical model of the three tables and of the operations on them.
//!
//! An `Inode` table is a finite map from inode id to its stored row, a `Path`
//! table a finite map from a (parent id, name) pair to the linked inode id
//! (the pair is the table's primary key), and a `Page` table a sequence of
//! byte-range rows.  Every operation of the library is specified against
//! values of [`Tables`].

use vstd::prelude::*;
use crate::attrs::{FileAttr, FsError, InodeRow, DirectoryEntry, kind_of_code, spec_attr};

verus! {

/// One `Page` row: a byte-range chunk of one file's content, owned by
/// `inode`, covering offsets `start` through `finish`.
pub struct PageRow {
    pub inode: int,
    pub start: int,
    pub finish: int,
    pub content: Seq<u8>,
}

/// The contents of the three tables.
#[verifier::ext_equal]
pub struct Tables {
    pub inodes: Map<int, InodeRow>,
    pub paths: Map<(int, Seq<char>), int>,
    pub pages: Seq<PageRow>,
}

/// Whether a page row's integer columns hold 64-bit values, as SQLite
/// `INTEGER` columns do.
pub open spec fn page_in_range(p: PageRow) -> bool {
    &&& i64::MIN <= p.inode <= i64::MAX
    &&& i64::MIN <= p.start <= i64::MAX
    &&& i64::MIN <= p.finish <= i64::MAX
}

/// Well-formedness of a store: real tables are finite, and every stored
/// id fits an SQLite `INTEGER` column.
pub open spec fn tables_wf(t: Tables) -> bool {
    &&& t.inodes.dom().finite()
    &&& t.paths.dom().finite()
    &&& (forall|k: int| #[trigger] t.inodes.contains_key(k) ==> i64::MIN <= k <= i64::MAX)
    &&& (forall|k: (int, Seq<char>)| #[trigger] t.paths.contains_key(k)
            ==> i64::MIN <= k.0 <= i64::MAX && i64::MIN <= t.paths[k] <= i64::MAX)
    &&& (forall|i: int| 0 <= i < t.pages.len() ==> page_in_range(#[trigger] t.pages[i]))
}

/// Whether some `Path` row links to `ino`.
pub open spec fn links_to(paths: Map<(int, Seq<char>), int>, ino: int) -> bool {
    exists|k: (int, Seq<char>)| #[trigger] paths.contains_key(k) && paths[k] == ino
}

/// The keys of the `Path` rows that reference `ino`.
pub open spec fn linked_keys(paths: Map<(int, Seq<char>), int>, ino: int) -> Set<
    (int, Seq<char>),
> {
    paths.dom().filter(|k: (int, Seq<char>)| paths[k] == ino)
}

/// The link count of `ino`: how many `Path` rows reference it.  Computed
/// on demand, never stored.
pub open spec fn nlink_of(paths: Map<(int, Seq<char>), int>, ino: int) -> int {
    linked_keys(paths, ino).len() as int
}

/// What attribute retrieval by inode id returns: the attributes resolved
/// from the inode's row and its computed link count, not-found when there
/// is no such row.
pub open spec fn spec_getattr(t: Tables, ino: int) -> Result<FileAttr, FsError> {
    if t.inodes.contains_key(ino) {
        spec_attr(ino, t.inodes[ino], nlink_of(t.paths, ino))
    } else {
        Err(FsError::NotFound)
    }
}

/// What lookup by (parent, name) returns: the attributes of the linked
/// inode, not-found when no `Path` row matches.
pub open spec fn spec_lookup(t: Tables, parent: int, name: Seq<char>) -> Result<FileAttr, FsError> {
    if t.paths.contains_key((parent, name)) {
        spec_getattr(t, t.paths[(parent, name)])
    } else {
        Err(FsError::NotFound)
    }
}

/// Whether `(ino, name, kind)` is one child record of `parent`: a `Path`
/// row links (parent, name) to `ino`, whose `Inode` row stores `kind`.
pub open spec fn child_record(
    paths: Map<(int, Seq<char>), int>,
    inodes: Map<int, InodeRow>,
    parent: int,
    ino: int,
    name: Seq<char>,
    kind: int,
) -> bool {
    &&& paths.contains_key((parent, name))
    &&& paths[(parent, name)] == ino
    &&& inodes.contains_key(ino)
    &&& inodes[ino].kind == kind
}

/// Whether one directory entry reports an actual child of `parent`,
/// with its kind decoded and a zero resumption offset.
pub open spec fn entry_is_child(
    paths: Map<(int, Seq<char>), int>,
    inodes: Map<int, InodeRow>,
    parent: int,
    e: DirectoryEntry,
) -> bool {
    &&& e.name@.len() > 0
    &&& paths.contains_key((parent, e.name@))
    &&& paths[(parent, e.name@)] == e.ino as int
    &&& inodes.contains_key(e.ino as int)
    &&& e.kind == kind_of_code(inodes[e.ino as int].kind as int)
    &&& e.offset == 0
}

/// The listing `es` is a correct answer for the children of `parent`:
/// every entry reports an actual child, every non-empty name linking to
/// an existing inode with a representable id is reported (an empty name
/// can only be the root's self-entry, which is not a child), and no name
/// is reported twice.  No order is promised.
pub open spec fn readdir_ok(
    paths: Map<(int, Seq<char>), int>,
    inodes: Map<int, InodeRow>,
    parent: int,
    es: Seq<DirectoryEntry>,
) -> bool {
    &&& (forall|i: int| 0 <= i < es.len() ==> entry_is_child(paths, inodes, parent, #[trigger] es[i]))
    &&& (forall|nm: Seq<char>| #![trigger paths.contains_key((parent, nm))]
            nm.len() > 0 && paths.contains_key((parent, nm)) && inodes.contains_key(
                paths[(parent, nm)],
            ) && 0 <= paths[(parent, nm)]
            ==> exists|i: int| 0 <= i < es.len() && (#[trigger] es[i]).name@ == nm)
    &&& (forall|i: int, j: int| 0 <= i < j < es.len() ==> es[i].name@ != es[j].name@)
}

/// Whether a page overlaps the requested window `[lo, hi]`.
pub open spec fn page_overlaps(p: PageRow, ino: int, lo: int, hi: int) -> bool {
    p.inode == ino && p.start <= hi && p.finish >= lo
}

/// The pages of `ino` whose range overlaps the window, in table order.
pub open spec fn overlapping_pages(pages: Seq<PageRow>, ino: int, lo: int, hi: int) -> Seq<
    PageRow,
> {
    pages.filter(|p: PageRow| page_overlaps(p, ino, lo, hi))
}

/// Whether a sequence of pages is ascending by start offset.
pub open spec fn sorted_by_start(s: Seq<PageRow>) -> bool {
    forall|i: int, j: int| 0 <= i < j < s.len() ==> s[i].start <= s[j].start
}

/// The concatenation of the full contents of a sequence of pages.
pub open spec fn concat_contents(s: Seq<PageRow>) -> Seq<u8>
    decreases s.len(),
{
    if s.len() == 0 {
        Seq::empty()
    } else {
        concat_contents(s.drop_last()) + s.last().content
    }
}

/// The buffer `buf` is a correct result of reading window `[lo, hi]` of
/// `ino`: the whole content of every overlapping page, concatenated in
/// some order that is ascending by start offset.  Reads are
/// overlap-inclusive: a page that only partly overlaps the window still
/// contributes its entire content.
pub open spec fn read_ok(pages: Seq<PageRow>, ino: int, lo: int, hi: int, buf: Seq<u8>) -> bool {
    exists|s: Seq<PageRow>|
        {
            &&& #[trigger] s.to_multiset() == overlapping_pages(pages, ino, lo, hi).to_multiset()
            &&& sorted_by_start(s)
            &&& buf == concat_contents(s)
        }
}

/// What `INSERT OR IGNORE` into `Path` leaves behind: the row is added
/// unless its (parent, name) key is taken, its inode id is already linked
/// (the id is unique within `Path`), or the name is empty (the schema
/// admits an empty name only for the root object, inode 0).
pub open spec fn path_insert(
    paths: Map<(int, Seq<char>), int>,
    ino: int,
    parent: int,
    name: Seq<char>,
) -> Map<(int, Seq<char>), int> {
    if (name.len() == 0 && ino != 0) || paths.contains_key((parent, name)) || links_to(
        paths,
        ino,
    ) {
        paths
    } else {
        paths.insert((parent, name), ino)
    }
}

/// The row a directory-creating insert stores: the requested permission
/// bits, the directory kind, every other column its schema default.  The
/// timestamp defaults are the creation instant, which the model does not
/// fix beyond being non-negative.
pub open spec fn mkdir_row_ok(row: InodeRow, mode: int) -> bool {
    &&& row.perm == mode
    &&& row.kind == 3
    &&& row.size == 0
    &&& row.blocks == 0
    &&& row.uid == 0
    &&& row.gid == 0
    &&& row.rdev == 0
    &&& row.flags == 0
    &&& 0 <= row.atime
    &&& 0 <= row.mtime
    &&& 0 <= row.ctime
    &&& 0 <= row.crtime
}

/// The tables after a directory-creating mkdir stored `row` under the
/// previously unused id `fresh` and linked (parent, name) to it.
pub open spec fn mkdir_tables(
    t: Tables,
    parent: int,
    name: Seq<char>,
    row: InodeRow,
    fresh: int,
) -> Tables {
    Tables {
        inodes: t.inodes.insert(fresh, row),
        paths: path_insert(t.paths, fresh, parent, name),
        pages: t.pages,
    }
}

/// The root row the schema creates: a directory with default columns.
pub open spec fn root_row_ok(row: InodeRow) -> bool {
    &&& row.kind == 3
    &&& row.size == 0
    &&& row.blocks == 0
    &&& row.perm == 420
    &&& row.uid == 0
    &&& row.gid == 0
    &&& row.rdev == 0
    &&& row.flags == 0
    &&& 0 <= row.atime
    &&& 0 <= row.mtime
    &&& 0 <= row.ctime
    &&& 0 <= row.crtime
}

/// What schema initialization leaves behind: the root object (inode 0, a
/// directory, self-parented under the empty name) is inserted into each
/// table unless already present; pages are untouched.
pub open spec fn init_tables(t: Tables, t2: Tables) -> bool {
    &&& (if t.inodes.contains_key(0) {
        t2.inodes == t.inodes
    } else {
        exists|row: InodeRow| #[trigger] root_row_ok(row) && t2.inodes == t.inodes.insert(0, row)
    })
    &&& t2.paths == path_insert(t.paths, 0, 0, Seq::empty())
    &&& t2.pages == t.pages
}

/// A store whose root object is present and resolvable: inode 0 is a
/// directory, self-parented under the empty name, with in-range columns.
pub open spec fn root_ok(t: Tables) -> bool {
    &&& t.paths.contains_key((0, Seq::<char>::empty()))
    &&& t.paths[(0, Seq::<char>::empty())] == 0
    &&& t.inodes.contains_key(0)
    &&& t.inodes[0].kind == 3
    &&& crate::attrs::row_in_range(0, t.inodes[0], nlink_of(t.paths, 0))
}

/// Every `Path` row links to an existing `Inode` row.
pub open spec fn no_dangling_links(t: Tables) -> bool {
    forall|k: (int, Seq<char>)| #[trigger] t.paths.contains_key(k)
        ==> t.inodes.contains_key(t.paths[k])
}

/// A filter keeps nothing when no element satisfies the predicate.
pub proof fn lemma_filter_all_false<A>(s: Seq<A>, pred: spec_fn(A) -> bool)
    requires
        forall|i: int| 0 <= i < s.len() ==> !pred(s[i]),
    ensures
        s.filter(pred) == Seq::<A>::empty(),
    decreases s.len(),
{
    reveal(Seq::filter);
    if s.len() > 0 {
        lemma_filter_all_false(s.drop_last(), pred);
    }
}

/// One row of a child listing as the store hands it out: the child's
/// inode id, its name and its kind code.
pub struct ChildRow {
    pub ino: i64,
    pub name: String,
    pub kind: i64,
}

/// One page row as the store hands it out for a read: its range and its
/// raw content.
pub struct PageChunk {
    pub start: i64,
    pub finish: i64,
    pub content: Vec<u8>,
}

/// The page row a returned chunk stands for.
pub open spec fn chunk_row(ino: int, c: PageChunk) -> PageRow {
    PageRow { inode: ino, start: c.start as int, finish: c.finish as int, content: c.content@ }
}

} // verus!
