//! Directory presentation: the fixed listing of the single virtual root.
//!
//! The root lists, in fixed order, `.`, `..`, and — once a version exists —
//! the target's display name. A listing may be resumed at an offset, which
//! skips the entries before that position in the fixed order.

use vstd::prelude::*;

use crate::attr::{FileKind, ROOT_INO, TARGET_INO};
use crate::store::copy_range;
use crate::vfs::{FsError, VersionFs};

verus! {

/// One row of a directory listing. `offset` is the position at which a
/// later listing would resume after this entry.
pub struct DirEntry {
    pub ino: u64,
    pub offset: u64,
    pub kind: FileKind,
    pub name: Vec<u8>,
}

/// The mathematical model of a directory entry.
pub ghost struct DirEntryModel {
    pub ino: u64,
    pub offset: u64,
    pub kind: FileKind,
    pub name: Seq<u8>,
}

impl View for DirEntry {
    type V = DirEntryModel;

    open spec fn view(&self) -> DirEntryModel {
        DirEntryModel { ino: self.ino, offset: self.offset, kind: self.kind, name: self.name@ }
    }
}

/// The full listing of the virtual root in its fixed order: `.`, `..`, and
/// the target's name once a version exists.
pub open spec fn spec_dir_entries(target: Seq<u8>, version: nat) -> Seq<DirEntryModel> {
    let base = seq![
        DirEntryModel { ino: ROOT_INO, offset: 1, kind: FileKind::Directory, name: seq![46u8] },
        DirEntryModel {
            ino: ROOT_INO,
            offset: 2,
            kind: FileKind::Directory,
            name: seq![46u8, 46u8],
        },
    ];
    if version >= 1 {
        base.push(
            DirEntryModel {
                ino: TARGET_INO,
                offset: 3,
                kind: FileKind::RegularFile,
                name: target,
            },
        )
    } else {
        base
    }
}

/// The listing resumed at `offset`: the entries at positions `offset` and
/// beyond in the fixed order.
pub open spec fn spec_dir_listing(target: Seq<u8>, version: nat, offset: nat) -> Seq<
    DirEntryModel,
> {
    let all = spec_dir_entries(target, version);
    if offset >= all.len() {
        Seq::empty()
    } else {
        all.skip(offset as int)
    }
}

impl VersionFs {
    /// List the virtual root from position `offset` on. Listing any other
    /// inode fails: the root is the only directory.
    pub fn readdir(&self, ino: u64, offset: u64) -> (r: Result<Vec<DirEntry>, FsError>)
        ensures
            ino == ROOT_INO ==> (r matches Ok(entries) && ({
                let listing = spec_dir_listing(self.target@, self.version as nat, offset as nat);
                &&& entries@.len() == listing.len()
                &&& forall|i: int| 0 <= i < entries@.len() ==> (#[trigger] entries@[i])@ == listing[i]
            })),
            ino != ROOT_INO ==> (r matches Err(e) && e == FsError::NotFound),
    {
        if ino != ROOT_INO {
            return Err(FsError::NotFound);
        }
        let mut entries: Vec<DirEntry> = Vec::new();
        if offset < 1 {
            let mut dot: Vec<u8> = Vec::new();
            dot.push(46);
            proof {
                assert(dot@ =~= seq![46u8]);
            }
            entries.push(
                DirEntry { ino: ROOT_INO, offset: 1, kind: FileKind::Directory, name: dot },
            );
        }
        if offset < 2 {
            let mut dotdot: Vec<u8> = Vec::new();
            dotdot.push(46);
            dotdot.push(46);
            proof {
                assert(dotdot@ =~= seq![46u8, 46u8]);
            }
            entries.push(
                DirEntry { ino: ROOT_INO, offset: 2, kind: FileKind::Directory, name: dotdot },
            );
        }
        if self.version > 0 && offset < 3 {
            let tlen = self.target.len();
            let name = copy_range(&self.target, 0, tlen);
            proof {
                assert(name@ =~= self.target@);
            }
            entries.push(
                DirEntry { ino: TARGET_INO, offset: 3, kind: FileKind::RegularFile, name },
            );
        }
        proof {
            let all = spec_dir_entries(self.target@, self.version as nat);
            let listing = spec_dir_listing(self.target@, self.version as nat, offset as nat);
            if self.version >= 1 {
                assert(all.len() == 3);
            } else {
                assert(all.len() == 2);
            }
            if offset < all.len() {
                assert(listing =~= all.skip(offset as int));
            } else {
                assert(listing =~= Seq::<DirEntryModel>::empty());
            }
        }
        Ok(entries)
    }
}

} // verus!
