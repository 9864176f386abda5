//! Laws of the filesystem, proved over the table model.
//!
//! Each proof function here states a property that relates several
//! operations, over the same spec functions the operations' contracts use.

use vstd::prelude::*;
use crate::attrs::{FileAttr, FileKind, FsError, InodeRow};
use crate::model::{
    concat_contents, init_tables, links_to, mkdir_row_ok, mkdir_tables, nlink_of,
    no_dangling_links, overlapping_pages, page_overlaps, read_ok, root_ok, root_row_ok,
    sorted_by_start, spec_getattr, spec_lookup, tables_wf, PageRow, Tables,
};

verus! {

/// A fresh id is not linked when no path row dangles: every link points
/// at an existing inode row, and the fresh id has none.
proof fn lemma_fresh_unlinked(t: Tables, fresh: int)
    requires
        no_dangling_links(t),
        !t.inodes.contains_key(fresh),
    ensures
        !links_to(t.paths, fresh),
{
}

/// After inserting the one link (parent, name) -> fresh, the link count
/// of `fresh` is exactly one.
proof fn lemma_nlink_one(
    paths: Map<(int, Seq<char>), int>,
    parent: int,
    name: Seq<char>,
    fresh: int,
)
    requires
        paths.dom().finite(),
        !paths.contains_key((parent, name)),
        !links_to(paths, fresh),
    ensures
        nlink_of(paths.insert((parent, name), fresh), fresh) == 1,
{
    broadcast use vstd::set::axiom_set_empty_len;

    let key = (parent, name);
    let p2 = paths.insert(key, fresh);
    let linked = crate::model::linked_keys(p2, fresh);
    assert forall|k: (int, Seq<char>)| #[trigger] linked.contains(k) implies k == key by {
        if k != key {
            assert(paths.contains_key(k) && paths[k] == fresh);
            assert(links_to(paths, fresh));
        }
    }
    assert(p2.contains_key(key) && p2[key] == fresh);
    assert(linked.contains(key));
    assert(linked =~= Set::<(int, Seq<char>)>::empty().insert(key));
    vstd::set::axiom_set_insert_len(Set::<(int, Seq<char>)>::empty(), key);
    assert(linked.len() == 1);
}

/// Round trip: when directory creation stores a fresh, unlinked inode
/// under (parent, name), a following lookup of the same pair succeeds
/// and reports the same inode id, the requested permission bits, the
/// directory kind and a link count of one.
///
/// The entry must not exist beforehand (an existing object keeps its own
/// permission bits), the name must be non-empty, and the mode must fit
/// the permission field.
pub proof fn lemma_mkdir_lookup_round_trip(
    t: Tables,
    parent: int,
    name: Seq<char>,
    mode: u32,
    fresh: int,
    row: InodeRow,
)
    requires
        tables_wf(t),
        no_dangling_links(t),
        name.len() > 0,
        mode <= 0xffff,
        0 <= fresh <= i64::MAX,
        !t.paths.contains_key((parent, name)),
        !t.inodes.contains_key(fresh),
        mkdir_row_ok(row, mode as int),
    ensures
        ({
            let t2 = mkdir_tables(t, parent, name, row, fresh);
            &&& spec_lookup(t2, parent, name) matches Ok(a)
            &&& spec_lookup(t2, parent, name)->Ok_0.ino == fresh as u64
            &&& spec_lookup(t2, parent, name)->Ok_0.perm == mode as u16
            &&& spec_lookup(t2, parent, name)->Ok_0.kind == FileKind::Directory
            &&& spec_lookup(t2, parent, name)->Ok_0.nlink == 1
        }),
{
    let t2 = mkdir_tables(t, parent, name, row, fresh);
    lemma_fresh_unlinked(t, fresh);
    assert(t2.paths == t.paths.insert((parent, name), fresh));
    lemma_nlink_one(t.paths, parent, name, fresh);
    assert(spec_lookup(t2, parent, name) == spec_getattr(t2, fresh));
}

/// Idempotence: doing the same directory creation twice converges on one
/// object.  After the first call stored the entry, the pair (parent,
/// name) is taken, so a second identical call takes the resolve-existing
/// branch of its contract — it stores no second inode row, changes
/// nothing, and resolving the entry reports the same inode id the first
/// call reported.
pub proof fn lemma_mkdir_idempotent(
    t: Tables,
    parent: int,
    name: Seq<char>,
    mode: u32,
    fresh: int,
    row: InodeRow,
)
    requires
        tables_wf(t),
        no_dangling_links(t),
        name.len() > 0,
        mode <= 0xffff,
        0 <= fresh <= i64::MAX,
        !t.paths.contains_key((parent, name)),
        !t.inodes.contains_key(fresh),
        mkdir_row_ok(row, mode as int),
    ensures
        ({
            let t2 = mkdir_tables(t, parent, name, row, fresh);
            &&& t2.paths.contains_key((parent, name))
            &&& t2.paths[(parent, name)] == fresh
            &&& spec_getattr(t2, t2.paths[(parent, name)]) matches Ok(a)
            &&& spec_getattr(t2, t2.paths[(parent, name)])->Ok_0.ino == fresh as u64
        }),
{
    lemma_mkdir_lookup_round_trip(t, parent, name, mode, fresh, row);
}

/// The link count a successful attribute retrieval reports is exactly
/// the number of path rows referencing the inode.
pub proof fn lemma_link_count(t: Tables, ino: int)
    requires
        spec_getattr(t, ino) matches Ok(a),
    ensures
        spec_getattr(t, ino)->Ok_0.nlink == nlink_of(t.paths, ino),
{
}

/// Directory emptiness after removal: once the entry (parent, name) is
/// deleted, looking the same pair up fails with not-found.
pub proof fn lemma_rmdir_lookup_not_found(t: Tables, parent: int, name: Seq<char>)
    ensures
        spec_lookup(
            Tables { inodes: t.inodes, paths: t.paths.remove((parent, name)), pages: t.pages },
            parent,
            name,
        ) == Err::<FileAttr, FsError>(FsError::NotFound),
{
}

/// Initializing an empty store creates an intact root object: inode 0, a
/// directory, self-parented under the empty name, with one link.
pub proof fn lemma_init_empty_store_root_ok(t: Tables, t2: Tables)
    requires
        init_tables(t, t2),
        t.inodes == Map::<int, InodeRow>::empty(),
        t.paths == Map::<(int, Seq<char>), int>::empty(),
    ensures
        root_ok(t2),
{
    let row = choose|row: InodeRow| #[trigger] root_row_ok(row) && t2.inodes == t.inodes.insert(
        0,
        row,
    );
    assert(!links_to(t.paths, 0));
    assert(t2.paths == t.paths.insert((0, Seq::<char>::empty()), 0));
    lemma_nlink_one(t.paths, 0, Seq::<char>::empty(), 0);
}

/// Root self-reference: in a store whose root object is intact, looking
/// up the empty name under inode 0 always succeeds and reports a
/// directory with inode id 0.
pub proof fn lemma_root_lookup(t: Tables)
    requires
        root_ok(t),
    ensures
        spec_lookup(t, 0, Seq::<char>::empty()) matches Ok(a),
        spec_lookup(t, 0, Seq::<char>::empty())->Ok_0.ino == 0,
        spec_lookup(t, 0, Seq::<char>::empty())->Ok_0.kind == FileKind::Directory,
{
}

/// The content of a page appears as one contiguous block of the
/// concatenation of a sequence it belongs to.
proof fn lemma_concat_has_member(s: Seq<PageRow>, i: int)
    requires
        0 <= i < s.len(),
    ensures
        exists|k: int, k2: int|
            0 <= k && k2 == k + s[i].content.len() && k2 <= concat_contents(s).len()
                && #[trigger] concat_contents(s).subrange(k, k2) == s[i].content,
    decreases s.len(),
{
    let whole = concat_contents(s);
    if i == s.len() - 1 {
        let k = concat_contents(s.drop_last()).len() as int;
        assert(whole.subrange(k, k + s[i].content.len() as int) =~= s[i].content);
    } else {
        lemma_concat_has_member(s.drop_last(), i);
        let prefix = concat_contents(s.drop_last());
        let (k, k2) = choose|k: int, k2: int|
            0 <= k && k2 == k + s.drop_last()[i].content.len() && k2 <= prefix.len()
                && #[trigger] prefix.subrange(k, k2) == s.drop_last()[i].content;
        assert(s.drop_last()[i] == s[i]);
        assert(whole.subrange(k, k2) =~= prefix.subrange(k, k2));
    }
}

/// Content assembly never omits stored bytes: every page of the inode
/// that overlaps the window contributes its entire content to a correct
/// read result, as one contiguous block.
pub proof fn lemma_read_includes_overlapping(
    pages: Seq<PageRow>,
    ino: int,
    lo: int,
    hi: int,
    buf: Seq<u8>,
    i: int,
)
    requires
        read_ok(pages, ino, lo, hi, buf),
        0 <= i < pages.len(),
        page_overlaps(pages[i], ino, lo, hi),
    ensures
        exists|k: int, k2: int|
            0 <= k && k2 == k + pages[i].content.len() && k2 <= buf.len()
                && #[trigger] buf.subrange(k, k2) == pages[i].content,
{
    broadcast use vstd::seq_lib::group_filter_ensures;
    broadcast use vstd::seq_lib::group_to_multiset_ensures;

    let s = choose|s: Seq<PageRow>|
        {
            &&& #[trigger] s.to_multiset() == overlapping_pages(pages, ino, lo, hi).to_multiset()
            &&& sorted_by_start(s)
            &&& buf == concat_contents(s)
        };
    let p = pages[i];
    let over = overlapping_pages(pages, ino, lo, hi);
    assert(over.contains(p));
    assert(over.to_multiset().count(p) > 0);
    assert(s.to_multiset().count(p) > 0);
    assert(s.contains(p));
    let j = choose|j: int| 0 <= j < s.len() && s[j] == p;
    lemma_concat_has_member(s, j);
}

} // verus!
