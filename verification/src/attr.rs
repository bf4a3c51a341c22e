//! Attribute records for the two virtual nodes.
//!
//! The virtual namespace is fixed: inode 1 is the root directory, inode 2 is
//! the target file. The root's attribute record is a constant; the target's
//! record is derived from the byte length of the current snapshot, with every
//! other field fixed.

use vstd::prelude::*;

verus! {

/// Inode number of the virtual root directory.
pub const ROOT_INO: u64 = 1;

/// Inode number of the target file.
pub const TARGET_INO: u64 = 2;

/// The kind of a virtual node, kept as an explicit enumeration rather than a
/// raw inode comparison.
#[derive(Clone, Copy, PartialEq, Eq, Structural, Debug)]
pub enum FileKind {
    Directory,
    RegularFile,
}

/// A filesystem attribute record. Timestamps are seconds since the epoch;
/// this system reports every timestamp as the epoch itself.
#[derive(Clone, Copy, PartialEq, Eq, Structural, Debug)]
pub struct FileAttr {
    pub ino: u64,
    pub size: u64,
    pub blocks: u64,
    pub atime_secs: u64,
    pub mtime_secs: u64,
    pub ctime_secs: u64,
    pub crtime_secs: u64,
    pub kind: FileKind,
    pub perm: u16,
    pub nlink: u32,
    pub uid: u32,
    pub gid: u32,
    pub rdev: u32,
    pub flags: u32,
    pub blksize: u32,
}

/// The fixed attribute record of the virtual root directory.
pub open spec fn spec_root_attr() -> FileAttr {
    FileAttr {
        ino: ROOT_INO,
        size: 0,
        blocks: 0,
        atime_secs: 0,
        mtime_secs: 0,
        ctime_secs: 0,
        crtime_secs: 0,
        kind: FileKind::Directory,
        perm: 0o755,
        nlink: 2,
        uid: 501,
        gid: 20,
        rdev: 0,
        flags: 0,
        blksize: 512,
    }
}

/// The target's attribute record for a snapshot of `size` bytes: everything
/// but the size is fixed.
pub open spec fn spec_target_attr(size: u64) -> FileAttr {
    FileAttr {
        ino: TARGET_INO,
        size: size,
        blocks: 1,
        atime_secs: 0,
        mtime_secs: 0,
        ctime_secs: 0,
        crtime_secs: 0,
        kind: FileKind::RegularFile,
        perm: 0o777,
        nlink: 1,
        uid: 501,
        gid: 20,
        rdev: 0,
        flags: 0,
        blksize: 512,
    }
}

/// Build the root directory's attribute record.
pub fn root_attr() -> (a: FileAttr)
    ensures
        a == spec_root_attr(),
{
    FileAttr {
        ino: ROOT_INO,
        size: 0,
        blocks: 0,
        atime_secs: 0,
        mtime_secs: 0,
        ctime_secs: 0,
        crtime_secs: 0,
        kind: FileKind::Directory,
        perm: 0o755,
        nlink: 2,
        uid: 501,
        gid: 20,
        rdev: 0,
        flags: 0,
        blksize: 512,
    }
}

/// Build the target's attribute record for a snapshot of `size` bytes.
pub fn target_attr_record(size: u64) -> (a: FileAttr)
    ensures
        a == spec_target_attr(size),
{
    FileAttr {
        ino: TARGET_INO,
        size: size,
        blocks: 1,
        atime_secs: 0,
        mtime_secs: 0,
        ctime_secs: 0,
        crtime_secs: 0,
        kind: FileKind::RegularFile,
        perm: 0o777,
        nlink: 1,
        uid: 501,
        gid: 20,
        rdev: 0,
        flags: 0,
        blksize: 512,
    }
}

} // verus!
