//! The version-resolution and session state machine.
//!
//! `VersionFs` owns the monotonically increasing version counter, the
//! snapshot store (one byte sequence per version ever reached), and the open
//! sessions. Every open of the target with write intent begins a new
//! snapshot: a copy of the preceding one for append-style opens, an empty one
//! for truncating opens. Reads always deliver the newest version's bytes;
//! writes go through a session handle pinned to the version that was current
//! when the session began.

use vstd::prelude::*;

use crate::attr::{FileAttr, ROOT_INO, TARGET_INO};
use crate::attr::{spec_root_attr, spec_target_attr, root_attr, target_attr_record};
use crate::naming::{spec_snapshot_name, snapshot_name};
use crate::store::{spec_read_range, spec_write_at, copy_range, write_at, bytes_eq};

verus! {

/// The errors an operation can signal to the host.
#[derive(Clone, Copy, PartialEq, Eq, Structural, Debug)]
pub enum FsError {
    /// The name or inode is not part of the virtual namespace, or the target
    /// has no version yet.
    NotFound,
    /// The operation is not modelled for that inode or name.
    NotSupported,
    /// A create was attempted on the target's own name.
    AlreadyExists,
    /// The handle does not denote an open session fit for the operation.
    BadHandle,
    /// A seek would move the position out of range.
    InvalidArgument,
}

/// One open session: a handle pinned to the snapshot version that was
/// current when the session began, with its own file position.
#[derive(Clone, Copy, PartialEq, Eq, Structural, Debug)]
pub struct Session {
    /// The snapshot version this session is bound to.
    pub version: u64,
    /// The session's file position, moved only by `lseek`.
    pub pos: u64,
    /// Whether the session was opened with write intent.
    pub write_intent: bool,
    /// Whether the session is still open (set to false on release).
    pub open: bool,
}

/// The one origin a seek can be relative to.
#[derive(Clone, Copy, PartialEq, Eq, Structural, Debug)]
pub enum Whence {
    Start,
    Current,
    End,
}

/// The versioning filesystem core: one virtual root directory holding one
/// target file, backed by a store of immutable snapshots.
pub struct VersionFs {
    /// The target's display name, as arbitrary bytes.
    pub target: Vec<u8>,
    /// The version counter: 0 before initialization, otherwise the number of
    /// the current snapshot.
    pub version: u64,
    /// The snapshot store: `snapshots[v - 1]` holds version `v`'s bytes.
    pub snapshots: Vec<Vec<u8>>,
    /// Every session ever opened; the handle is the index.
    pub sessions: Vec<Session>,
}

impl VersionFs {
    /// The bytes of snapshot `v` (meaningful for `1 <= v <= self.version`).
    pub open spec fn snapshot_of(self, v: int) -> Seq<u8> {
        self.snapshots@[v - 1]@
    }

    /// The bytes of the current version's snapshot.
    pub open spec fn current_snapshot(self) -> Seq<u8> {
        self.snapshot_of(self.version as int)
    }

    /// Whether initialization has run.
    pub open spec fn inited(self) -> bool {
        self.version >= 1
    }

    /// Well-formedness: one snapshot per version reached, each small enough
    /// for a native file offset, and every session bound to a version that
    /// exists, with an in-range position.
    pub open spec fn wf(self) -> bool {
        &&& self.snapshots@.len() == self.version
        &&& forall|v: int|
            1 <= v <= self.version ==> (#[trigger] self.snapshot_of(v)).len() <= i64::MAX
        &&& forall|i: int|
            0 <= i < self.sessions@.len() ==> {
                &&& 1 <= (#[trigger] self.sessions@[i]).version <= self.version
                &&& self.sessions@[i].pos <= i64::MAX
            }
    }

    /// Whether `fh` denotes a session that is still open.
    pub open spec fn valid_handle(self, fh: int) -> bool {
        &&& 0 <= fh < self.sessions@.len()
        &&& self.sessions@[fh].open
    }

    /// Whether `fh` denotes an open session with write intent.
    pub open spec fn valid_write_handle(self, fh: int) -> bool {
        &&& self.valid_handle(fh)
        &&& self.sessions@[fh].write_intent
    }

    /// A fresh, uninitialized filesystem for a target of the given name.
    pub fn new(target: Vec<u8>) -> (fs: VersionFs)
        ensures
            fs.wf(),
            fs.version == 0,
            fs.target == target,
            fs.snapshots@.len() == 0,
            fs.sessions@.len() == 0,
    {
        VersionFs { target, version: 0, snapshots: Vec::new(), sessions: Vec::new() }
    }

    /// The snapshot filename for `version` of this target.
    pub fn path_for_version(&self, version: u64) -> (r: Vec<u8>)
        ensures
            r@ == spec_snapshot_name(version as nat, self.target@),
    {
        snapshot_name(version, &self.target)
    }

    /// Initialization: called once before any other operation. Sets the
    /// version counter to 1 and creates an empty snapshot for version 1.
    pub fn init(&mut self)
        requires
            old(self).wf(),
            old(self).version == 0,
        ensures
            final(self).wf(),
            final(self).version == 1,
            final(self).inited(),
            final(self).snapshots@.len() == 1,
            final(self).current_snapshot() == Seq::<u8>::empty(),
            final(self).target == old(self).target,
            final(self).sessions == old(self).sessions,
    {
        self.version = 1;
        self.snapshots.push(Vec::new());
    }

    /// The target's attribute record as of snapshot `version`: present
    /// exactly when that snapshot exists, with its size read from the
    /// snapshot's byte length.
    pub fn target_attr(&self, version: u64) -> (r: Option<FileAttr>)
        requires
            self.wf(),
        ensures
            r is Some <==> 1 <= version <= self.version,
            r is Some ==> r->Some_0 == spec_target_attr(self.snapshot_of(version as int).len() as u64),
    {
        let n = self.snapshots.len();
        if 1 <= version && version <= n as u64 {
            let idx = (version - 1) as usize;
            let size = self.snapshots[idx].len() as u64;
            Some(target_attr_record(size))
        } else {
            None
        }
    }

    /// The target's attribute record for the current version.
    pub fn current_target_attr(&self) -> (r: Option<FileAttr>)
        requires
            self.wf(),
        ensures
            r is Some <==> self.inited(),
            r is Some ==> r->Some_0 == spec_target_attr(self.current_snapshot().len() as u64),
    {
        self.target_attr(self.version)
    }

    /// Name resolution in the virtual root: the target's name resolves to
    /// its current attributes, anything else is absent. If the current
    /// version's snapshot were momentarily missing, resolution would fall
    /// back to the immediately preceding version.
    pub fn lookup(&self, parent: u64, name: &Vec<u8>) -> (r: Result<FileAttr, FsError>)
        requires
            self.wf(),
            self.inited(),
        ensures
            parent == ROOT_INO && name@ == self.target@ ==> r == Ok::<FileAttr, FsError>(
                spec_target_attr(self.current_snapshot().len() as u64),
            ),
            !(parent == ROOT_INO && name@ == self.target@) ==> r == Err::<FileAttr, FsError>(
                FsError::NotFound,
            ),
    {
        if parent == ROOT_INO && bytes_eq(name, &self.target) {
            match self.target_attr(self.version) {
                Some(a) => Ok(a),
                None => {
                    // Unreachable here: the current version's snapshot always
                    // exists. Kept as the resolution policy's fallback path.
                    match self.target_attr(self.version - 1) {
                        Some(a) => Ok(a),
                        None => Err(FsError::NotFound),
                    }
                },
            }
        } else {
            Err(FsError::NotFound)
        }
    }

    /// Attributes by inode: the fixed root record for the root, the derived
    /// target record once a version exists, absent otherwise.
    pub fn getattr(&self, ino: u64) -> (r: Result<FileAttr, FsError>)
        requires
            self.wf(),
        ensures
            ino == ROOT_INO ==> r == Ok::<FileAttr, FsError>(spec_root_attr()),
            ino == TARGET_INO && self.inited() ==> r == Ok::<FileAttr, FsError>(
                spec_target_attr(self.current_snapshot().len() as u64),
            ),
            !(ino == ROOT_INO || (ino == TARGET_INO && self.inited())) ==> r == Err::<
                FileAttr,
                FsError,
            >(FsError::NotFound),
    {
        if ino == ROOT_INO {
            Ok(root_attr())
        } else if ino == TARGET_INO && self.version > 0 {
            match self.current_target_attr() {
                Some(a) => Ok(a),
                None => Err(FsError::NotFound),
            }
        } else {
            Err(FsError::NotFound)
        }
    }

    /// A create request: the target conceptually always exists, so creating
    /// its name reports it as already present; this system creates no other
    /// files.
    pub fn mknod(&self, parent: u64, name: &Vec<u8>) -> (e: FsError)
        ensures
            e == (if parent == ROOT_INO && name@ == self.target@ {
                FsError::AlreadyExists
            } else {
                FsError::NotSupported
            }),
    {
        if parent == ROOT_INO && bytes_eq(name, &self.target) {
            FsError::AlreadyExists
        } else {
            FsError::NotSupported
        }
    }

    /// Read from the target: always against the current version's bytes,
    /// whatever session issued the read. Returns the range
    /// `[offset, min(len, offset + size))`, empty once `offset` is at or
    /// past the end.
    pub fn read(&self, ino: u64, offset: u64, size: u32) -> (r: Result<Vec<u8>, FsError>)
        requires
            self.wf(),
        ensures
            ino == TARGET_INO && self.inited() ==> (r matches Ok(d) && d@ == spec_read_range(
                self.current_snapshot(),
                offset as nat,
                size as nat,
            )),
            !(ino == TARGET_INO && self.inited()) ==> (r matches Err(e) && e == FsError::NotFound),
    {
        if ino == TARGET_INO && self.version > 0 {
            let idx = self.snapshots.len() - 1;
            let snap = &self.snapshots[idx];
            let len = snap.len();
            if offset >= len as u64 {
                Ok(Vec::new())
            } else {
                let start = offset as usize;
                let remaining = len - start;
                let take = if (size as usize) < remaining {
                    size as usize
                } else {
                    remaining
                };
                Ok(copy_range(snap, start, start + take))
            }
        } else {
            Err(FsError::NotFound)
        }
    }

    /// Open the target. With write intent this begins a new snapshot
    /// version: a copy of the preceding snapshot for append-style opens, an
    /// empty snapshot for truncating opens (or for the very first version).
    /// Without write intent the session binds to the current version.
    /// Returns the handle of the new session.
    pub fn open(&mut self, ino: u64, write_intent: bool, truncate: bool) -> (r: Result<
        u64,
        FsError,
    >)
        requires
            old(self).wf(),
            write_intent ==> old(self).version < u64::MAX,
        ensures
            final(self).wf(),
            final(self).target == old(self).target,
            ino != TARGET_INO ==> (r matches Err(e) && e == FsError::NotSupported && *final(self)
                == *old(self)),
            ino == TARGET_INO && !write_intent && !old(self).inited() ==> (r matches Err(e) && e
                == FsError::NotFound && *final(self) == *old(self)),
            ino == TARGET_INO && !write_intent && old(self).inited() ==> {
                &&& r matches Ok(h) && h == old(self).sessions@.len()
                &&& final(self).version == old(self).version
                &&& final(self).snapshots == old(self).snapshots
                &&& final(self).sessions@ == old(self).sessions@.push(
                    (Session {
                        version: old(self).version,
                        pos: 0,
                        write_intent: false,
                        open: true,
                    }),
                )
            },
            ino == TARGET_INO && write_intent ==> {
                &&& r matches Ok(h) && h == old(self).sessions@.len()
                &&& final(self).version == old(self).version + 1
                &&& final(self).snapshots@.len() == old(self).snapshots@.len() + 1
                &&& forall|v: int|
                    1 <= v <= old(self).version
                        ==> #[trigger] final(self).snapshot_of(v) == old(self).snapshot_of(v)
                &&& final(self).current_snapshot() == (if old(self).inited() && !truncate {
                    old(self).current_snapshot()
                } else {
                    Seq::<u8>::empty()
                })
                &&& final(self).sessions@ == old(self).sessions@.push(
                    (Session {
                        version: (old(self).version + 1) as u64,
                        pos: 0,
                        write_intent: true,
                        open: true,
                    }),
                )
            },
            ino == TARGET_INO && write_intent && !truncate && old(self).inited()
                ==> final(self).current_snapshot() == final(self).snapshot_of(
                final(self).version - 1,
            ),
    {
        if ino != TARGET_INO {
            return Err(FsError::NotSupported);
        }
        if write_intent {
            let new_version = self.version + 1;
            let new_snap: Vec<u8> = if self.version >= 1 && !truncate {
                let idx = self.snapshots.len() - 1;
                let prev_len = self.snapshots[idx].len();
                copy_range(&self.snapshots[idx], 0, prev_len)
            } else {
                Vec::new()
            };
            proof {
                if self.version >= 1 && !truncate {
                    assert(old(self).current_snapshot().subrange(
                        0,
                        old(self).current_snapshot().len() as int,
                    ) =~= old(self).current_snapshot());
                    assert(old(self).snapshot_of(old(self).version as int).len() <= i64::MAX);
                }
                assert(new_snap@.len() <= i64::MAX);
            }
            let ghost snap_view = new_snap@;
            self.version = new_version;
            self.snapshots.push(new_snap);
            let h = self.sessions.len() as u64;
            self.sessions.push(
                Session { version: new_version, pos: 0, write_intent: true, open: true },
            );
            proof {
                assert forall|v: int| 1 <= v <= self.version implies (#[trigger] self.snapshot_of(
                    v,
                )).len() <= i64::MAX by {
                    if v <= old(self).version {
                        assert(self.snapshots@[v - 1] == old(self).snapshots@[v - 1]);
                        assert(old(self).snapshot_of(v).len() <= i64::MAX);
                    } else {
                        assert(self.snapshot_of(v) == snap_view);
                    }
                }
                assert forall|i: int| 0 <= i < self.sessions@.len() implies 1 <= (
                #[trigger] self.sessions@[i]).version <= self.version && self.sessions@[i].pos
                    <= i64::MAX by {
                    if i < old(self).sessions@.len() {
                        assert(self.sessions@[i] == old(self).sessions@[i]);
                    }
                }
            }
            Ok(h)
        } else {
            if self.version == 0 {
                return Err(FsError::NotFound);
            }
            let h = self.sessions.len() as u64;
            self.sessions.push(
                Session { version: self.version, pos: 0, write_intent: false, open: true },
            );
            proof {
                assert forall|i: int| 0 <= i < self.sessions@.len() implies 1 <= (
                #[trigger] self.sessions@[i]).version <= self.version && self.sessions@[i].pos
                    <= i64::MAX by {
                    if i < old(self).sessions@.len() {
                        assert(self.sessions@[i] == old(self).sessions@[i]);
                    }
                }
                assert forall|v: int| 1 <= v <= self.version implies (#[trigger] self.snapshot_of(
                    v,
                )).len() <= i64::MAX by {
                    assert(self.snapshot_of(v) == old(self).snapshot_of(v));
                }
            }
            Ok(h)
        }
    }

    /// Close a session's handle. Closing an unknown handle is ignored, as
    /// the underlying close of a stale descriptor would be.
    pub fn release(&mut self, fh: u64)
        requires
            old(self).wf(),
        ensures
            final(self).wf(),
            final(self).target == old(self).target,
            final(self).version == old(self).version,
            final(self).snapshots == old(self).snapshots,
            fh >= old(self).sessions@.len() ==> *final(self) == *old(self),
            fh < old(self).sessions@.len() ==> final(self).sessions@ == old(self).sessions@.update(
                fh as int,
                (Session {
                    version: old(self).sessions@[fh as int].version,
                    pos: old(self).sessions@[fh as int].pos,
                    write_intent: old(self).sessions@[fh as int].write_intent,
                    open: false,
                }),
            ),
    {
        if fh < self.sessions.len() as u64 {
            let i = fh as usize;
            let s = self.sessions[i];
            self.sessions.set(
                i,
                Session { version: s.version, pos: s.pos, write_intent: s.write_intent, open: false },
            );
            proof {
                assert forall|j: int| 0 <= j < self.sessions@.len() implies 1 <= (
                #[trigger] self.sessions@[j]).version <= self.version && self.sessions@[j].pos
                    <= i64::MAX by {
                    if j != i as int {
                        assert(self.sessions@[j] == old(self).sessions@[j]);
                    } else {
                        assert(old(self).sessions@[j].version == s.version);
                    }
                }
                assert forall|v: int| 1 <= v <= self.version implies (#[trigger] self.snapshot_of(
                    v,
                )).len() <= i64::MAX by {
                    assert(self.snapshot_of(v) == old(self).snapshot_of(v));
                }
            }
        }
    }

    /// Write `data` at `offset` through a session handle: the bytes land in
    /// the snapshot the session is pinned to, which need not be the current
    /// version. Returns the number of bytes written. The session's file
    /// position is not moved.
    pub fn write(&mut self, fh: u64, offset: u64, data: &Vec<u8>) -> (r: Result<u32, FsError>)
        requires
            old(self).wf(),
            offset + data@.len() <= i64::MAX,
            offset + data@.len() <= usize::MAX,
            data@.len() <= u32::MAX,
        ensures
            final(self).wf(),
            final(self).target == old(self).target,
            final(self).version == old(self).version,
            final(self).sessions == old(self).sessions,
            !old(self).valid_write_handle(fh as int) ==> (r matches Err(e) && e
                == FsError::BadHandle && *final(self) == *old(self)),
            old(self).valid_write_handle(fh as int) ==> ({
                let sv = old(self).sessions@[fh as int].version as int;
                &&& r matches Ok(n) && n == data@.len()
                &&& final(self).snapshots@.len() == old(self).snapshots@.len()
                &&& final(self).snapshot_of(sv) == spec_write_at(
                    old(self).snapshot_of(sv),
                    offset as nat,
                    data@,
                )
                &&& forall|v: int|
                    1 <= v <= old(self).version && v != sv
                        ==> #[trigger] final(self).snapshot_of(v) == old(self).snapshot_of(v)
            }),
    {
        if fh >= self.sessions.len() as u64 {
            return Err(FsError::BadHandle);
        }
        let s = self.sessions[fh as usize];
        if !s.open || !s.write_intent {
            return Err(FsError::BadHandle);
        }
        proof {
            vstd::std_specs::vec::axiom_spec_len(&self.snapshots);
        }
        let idx = (s.version - 1) as usize;
        let new_snap = write_at(&self.snapshots[idx], offset as usize, data);
        self.snapshots.set(idx, new_snap);
        proof {
            let sv = old(self).sessions@[fh as int].version as int;
            assert(self.snapshot_of(sv) == spec_write_at(
                old(self).snapshot_of(sv),
                offset as nat,
                data@,
            ));
            assert(self.snapshot_of(sv).len() <= i64::MAX);
            assert forall|v: int| 1 <= v <= self.version implies (#[trigger] self.snapshot_of(
                v,
            )).len() <= i64::MAX by {
                if v != sv {
                    assert(self.snapshots@[v - 1] == old(self).snapshots@[v - 1]);
                    assert(old(self).snapshot_of(v).len() <= i64::MAX);
                }
            }
        }
        Ok(data.len() as u32)
    }

    /// Move a session's file position relative to the start, the current
    /// position, or the end of the snapshot the session is pinned to.
    /// Returns the resulting absolute position.
    pub fn lseek(&mut self, fh: u64, offset: i64, whence: Whence) -> (r: Result<i64, FsError>)
        requires
            old(self).wf(),
        ensures
            final(self).wf(),
            final(self).target == old(self).target,
            final(self).version == old(self).version,
            final(self).snapshots == old(self).snapshots,
            !old(self).valid_handle(fh as int) ==> (r matches Err(e) && e == FsError::BadHandle
                && *final(self) == *old(self)),
            old(self).valid_handle(fh as int) ==> ({
                let new_pos = old(self).seek_base(fh as int, whence) + offset;
                &&& !(0 <= new_pos <= i64::MAX) ==> (r matches Err(e) && e
                    == FsError::InvalidArgument && *final(self) == *old(self))
                &&& 0 <= new_pos <= i64::MAX ==> {
                    &&& r matches Ok(p) && p == new_pos
                    &&& final(self).sessions@ == old(self).sessions@.update(
                        fh as int,
                        (Session {
                            version: old(self).sessions@[fh as int].version,
                            pos: new_pos as u64,
                            write_intent: old(self).sessions@[fh as int].write_intent,
                            open: true,
                        }),
                    )
                }
            }),
    {
        if fh >= self.sessions.len() as u64 {
            return Err(FsError::BadHandle);
        }
        let i = fh as usize;
        let s = self.sessions[i];
        if !s.open {
            return Err(FsError::BadHandle);
        }
        let base: u64 = match whence {
            Whence::Start => 0,
            Whence::Current => s.pos,
            Whence::End => {
                proof {
                    vstd::std_specs::vec::axiom_spec_len(&self.snapshots);
                }
                let idx = (s.version - 1) as usize;
                self.snapshots[idx].len() as u64
            },
        };
        let new_pos: i128 = base as i128 + offset as i128;
        if new_pos < 0 || new_pos > i64::MAX as i128 {
            return Err(FsError::InvalidArgument);
        }
        self.sessions.set(
            i,
            Session { version: s.version, pos: new_pos as u64, write_intent: s.write_intent, open: true },
        );
        proof {
            assert forall|j: int| 0 <= j < self.sessions@.len() implies 1 <= (
            #[trigger] self.sessions@[j]).version <= self.version && self.sessions@[j].pos
                <= i64::MAX by {
                if j != i as int {
                    assert(self.sessions@[j] == old(self).sessions@[j]);
                } else {
                    assert(old(self).sessions@[j].version == s.version);
                }
            }
            assert forall|v: int| 1 <= v <= self.version implies (#[trigger] self.snapshot_of(
                v,
            )).len() <= i64::MAX by {
                assert(self.snapshot_of(v) == old(self).snapshot_of(v));
            }
        }
        Ok(new_pos as i64)
    }

    /// The origin a seek through `fh` is measured from: zero, the session's
    /// position, or the length of the snapshot the session is pinned to.
    pub open spec fn seek_base(self, fh: int, whence: Whence) -> int {
        match whence {
            Whence::Start => 0,
            Whence::Current => self.sessions@[fh].pos as int,
            Whence::End => self.snapshot_of(self.sessions@[fh].version as int).len() as int,
        }
    }

    /// An attribute-change request: accepted but deliberately not applied;
    /// the reply is always the target's current computed attributes.
    pub fn setattr(&self) -> (a: FileAttr)
        requires
            self.wf(),
            self.inited(),
        ensures
            a == spec_target_attr(self.current_snapshot().len() as u64),
    {
        match self.current_target_attr() {
            Some(a) => a,
            // Unreachable: the current version's snapshot always exists.
            None => target_attr_record(0),
        }
    }
}

} // verus!
