//! Attribute records and the resolver that builds them from stored rows.

use vstd::prelude::*;

verus! {

/// Error taxonomy of the library: a request either found no matching row,
/// the database driver failed, or a stored value breaks the schema's
/// contract (a field outside the range its column promises).
#[derive(Clone, Copy, Debug, PartialEq, Eq, Structural)]
pub enum FsError {
    /// No `Path` or `Inode` row answers the request.
    NotFound,
    /// The database driver reported a failure.
    Storage,
    /// A stored value does not fit the schema's contract.
    Integrity,
}

/// The kind of a filesystem object, decoded from the `kind` column.
#[derive(Clone, Copy, Debug, PartialEq, Eq, Structural)]
pub enum FileKind {
    NamedPipe,
    CharDevice,
    BlockDevice,
    Directory,
    RegularFile,
    Symlink,
    Socket,
}

/// A point in time: whole seconds since the epoch plus nanoseconds.
/// Timestamps expanded from stored seconds always carry zero nanoseconds.
#[derive(Clone, Copy, Debug, PartialEq, Eq, Structural)]
pub struct Timestamp {
    pub sec: i64,
    pub nsec: i32,
}

/// The attribute record of one filesystem object, as reported to callers.
#[derive(Clone, Copy, Debug, PartialEq, Eq, Structural)]
pub struct FileAttr {
    pub ino: u64,
    pub size: u64,
    pub blocks: u64,
    pub atime: Timestamp,
    pub mtime: Timestamp,
    pub ctime: Timestamp,
    pub crtime: Timestamp,
    pub kind: FileKind,
    pub perm: u16,
    pub nlink: u32,
    pub uid: u32,
    pub gid: u32,
    pub rdev: u32,
    pub flags: u32,
}

/// One `Inode` row as stored: every column an SQLite `INTEGER`, hence `i64`.
/// The row's own id is not a field here; it is the key under which the row
/// is found.
#[derive(Clone, Copy, Debug, PartialEq, Eq, Structural)]
pub struct InodeRow {
    pub size: i64,
    pub blocks: i64,
    pub atime: i64,
    pub mtime: i64,
    pub ctime: i64,
    pub crtime: i64,
    pub kind: i64,
    pub perm: i64,
    pub uid: i64,
    pub gid: i64,
    pub rdev: i64,
    pub flags: i64,
}

/// One entry of a directory listing: the child's inode id, a resumption
/// offset (always zero: listings are not resumable), its kind and its name.
#[derive(Debug)]
pub struct DirectoryEntry {
    pub ino: u64,
    pub offset: i64,
    pub kind: FileKind,
    pub name: String,
}

/// The kind encoded by a `kind` column value; any code outside the table
/// decodes to a regular file.
pub open spec fn kind_of_code(code: int) -> FileKind {
    if code == 0 {
        FileKind::NamedPipe
    } else if code == 1 {
        FileKind::CharDevice
    } else if code == 2 {
        FileKind::BlockDevice
    } else if code == 3 {
        FileKind::Directory
    } else if code == 5 {
        FileKind::Symlink
    } else if code == 6 {
        FileKind::Socket
    } else {
        FileKind::RegularFile
    }
}

/// Convert a file kind from its stored code.
pub fn filetype_from_code(code: i64) -> (k: FileKind)
    ensures
        k == kind_of_code(code as int),
{
    match code {
        0 => FileKind::NamedPipe,
        1 => FileKind::CharDevice,
        2 => FileKind::BlockDevice,
        3 => FileKind::Directory,
        5 => FileKind::Symlink,
        6 => FileKind::Socket,
        _ => FileKind::RegularFile,
    }
}

/// Whether a stored row, its id and its link count all fit the schema's
/// contract: ids, sizes and counts are non-negative, and each field fits
/// the width the attribute record gives it.
pub open spec fn row_in_range(ino: int, row: InodeRow, nlink: int) -> bool {
    &&& 0 <= ino
    &&& 0 <= row.size
    &&& 0 <= row.blocks
    &&& 0 <= row.perm <= 0xffff
    &&& 0 <= nlink <= u32::MAX
    &&& 0 <= row.uid <= u32::MAX
    &&& 0 <= row.gid <= u32::MAX
}

/// What attribute resolution returns: the attribute record assembled from
/// the row, or an integrity error when a stored value breaks the schema's
/// contract. Timestamps are expanded to zero-nanosecond instants; device
/// number and flags are fixed at zero (not modeled).
pub open spec fn spec_attr(ino: int, row: InodeRow, nlink: int) -> Result<FileAttr, FsError> {
    if row_in_range(ino, row, nlink) {
        Ok(
            FileAttr {
                ino: ino as u64,
                size: row.size as u64,
                blocks: row.blocks as u64,
                atime: Timestamp { sec: row.atime, nsec: 0 },
                mtime: Timestamp { sec: row.mtime, nsec: 0 },
                ctime: Timestamp { sec: row.ctime, nsec: 0 },
                crtime: Timestamp { sec: row.crtime, nsec: 0 },
                kind: kind_of_code(row.kind as int),
                perm: row.perm as u16,
                nlink: nlink as u32,
                uid: row.uid as u32,
                gid: row.gid as u32,
                rdev: 0,
                flags: 0,
            },
        )
    } else {
        Err(FsError::Integrity)
    }
}

/// Resolve an `Inode` row plus a precomputed link count into an attribute
/// record. Pure; fails exactly when a stored value is out of range.
pub fn attr_from_row(ino: i64, row: &InodeRow, nlink: i64) -> (r: Result<FileAttr, FsError>)
    ensures
        r == spec_attr(ino as int, *row, nlink as int),
{
    if ino < 0 || row.size < 0 || row.blocks < 0 || row.perm < 0 || row.perm > 0xffff || nlink < 0
        || nlink > u32::MAX as i64 || row.uid < 0 || row.uid > u32::MAX as i64 || row.gid < 0
        || row.gid > u32::MAX as i64 {
        Err(FsError::Integrity)
    } else {
        Ok(
            FileAttr {
                ino: ino as u64,
                size: row.size as u64,
                blocks: row.blocks as u64,
                atime: Timestamp { sec: row.atime, nsec: 0 },
                mtime: Timestamp { sec: row.mtime, nsec: 0 },
                ctime: Timestamp { sec: row.ctime, nsec: 0 },
                crtime: Timestamp { sec: row.crtime, nsec: 0 },
                kind: filetype_from_code(row.kind),
                perm: row.perm as u16,
                nlink: nlink as u32,
                uid: row.uid as u32,
                gid: row.gid as u32,
                rdev: 0,
                flags: 0,
            },
        )
    }
}

} // verus!
