use versionfs::attr::{FileKind, ROOT_INO, TARGET_INO};
use versionfs::vfs::{FsError, VersionFs, Whence};

fn fresh(name: &[u8]) -> VersionFs {
    let mut fs = VersionFs::new(name.to_vec());
    fs.init();
    fs
}

#[test]
fn init_yields_version_one_with_empty_snapshot() {
    let fs_new = VersionFs::new(b"file".to_vec());
    assert_eq!(fs_new.version, 0);
    assert_eq!(fs_new.snapshots.len(), 0);
    let fs = fresh(b"file");
    assert_eq!(fs.version, 1);
    assert_eq!(fs.snapshots.len(), 1);
    assert!(fs.snapshots[0].is_empty());
}

#[test]
fn write_opens_increment_version_by_one() {
    let mut fs = fresh(b"file");
    assert_eq!(fs.version, 1);
    fs.open(TARGET_INO, true, false).unwrap();
    assert_eq!(fs.version, 2);
    fs.open(TARGET_INO, true, true).unwrap();
    assert_eq!(fs.version, 3);
    fs.open(TARGET_INO, true, false).unwrap();
    assert_eq!(fs.version, 4);
    // read-intent opens leave the counter alone
    fs.open(TARGET_INO, false, false).unwrap();
    assert_eq!(fs.version, 4);
}

#[test]
fn truncating_open_starts_empty() {
    let mut fs = fresh(b"file");
    let h = fs.open(TARGET_INO, true, false).unwrap();
    fs.write(h, 0, &b"abc".to_vec()).unwrap();
    fs.release(h);
    let h2 = fs.open(TARGET_INO, true, true).unwrap();
    assert_eq!(fs.snapshots[fs.version as usize - 1].len(), 0);
    fs.release(h2);
    let data = fs.read(TARGET_INO, 0, 100).unwrap();
    assert_eq!(data.len(), 0);
}

#[test]
fn append_open_copies_previous_snapshot() {
    let mut fs = fresh(b"file");
    let h = fs.open(TARGET_INO, true, false).unwrap();
    fs.write(h, 0, &b"ab".to_vec()).unwrap();
    fs.release(h);
    let h2 = fs.open(TARGET_INO, true, false).unwrap();
    assert_eq!(fs.version, 3);
    assert_eq!(fs.snapshots[2], b"ab".to_vec());
    assert_eq!(fs.snapshots[1], b"ab".to_vec());
    fs.release(h2);
}

#[test]
fn read_clips_to_snapshot_bounds() {
    let mut fs = fresh(b"file");
    let h = fs.open(TARGET_INO, true, false).unwrap();
    fs.write(h, 0, &b"hello".to_vec()).unwrap();
    fs.release(h);
    assert_eq!(fs.read(TARGET_INO, 0, 3).unwrap(), b"hel".to_vec());
    assert_eq!(fs.read(TARGET_INO, 2, 100).unwrap(), b"llo".to_vec());
    assert_eq!(fs.read(TARGET_INO, 5, 1).unwrap(), Vec::<u8>::new());
    assert_eq!(fs.read(TARGET_INO, 99, 5).unwrap(), Vec::<u8>::new());
    assert_eq!(fs.read(TARGET_INO, 0, 0).unwrap(), Vec::<u8>::new());
}

#[test]
fn read_errors_off_the_target() {
    let mut uninit = VersionFs::new(b"file".to_vec());
    assert_eq!(uninit.read(TARGET_INO, 0, 10), Err(FsError::NotFound));
    let fs = fresh(b"file");
    assert_eq!(fs.read(ROOT_INO, 0, 10), Err(FsError::NotFound));
    assert_eq!(fs.read(7, 0, 10), Err(FsError::NotFound));
    // an open before initialization would find no snapshot to bind to
    assert_eq!(uninit.open(TARGET_INO, false, false), Err(FsError::NotFound));
}

#[test]
fn getattr_reports_snapshot_size() {
    let mut fs = fresh(b"file");
    let root = fs.getattr(ROOT_INO).unwrap();
    assert_eq!(root.ino, ROOT_INO);
    assert_eq!(root.kind, FileKind::Directory);
    assert_eq!(root.perm, 0o755);
    assert_eq!(root.nlink, 2);
    let before = fs.getattr(TARGET_INO).unwrap();
    assert_eq!(before.size, 0);
    assert_eq!(before.kind, FileKind::RegularFile);
    assert_eq!(before.perm, 0o777);
    let h = fs.open(TARGET_INO, true, false).unwrap();
    fs.write(h, 0, &b"hello".to_vec()).unwrap();
    fs.release(h);
    assert_eq!(fs.getattr(TARGET_INO).unwrap().size, 5);
    assert_eq!(fs.getattr(3), Err(FsError::NotFound));
    let uninit = VersionFs::new(b"file".to_vec());
    assert_eq!(uninit.getattr(TARGET_INO), Err(FsError::NotFound));
}

#[test]
fn readdir_lists_dot_dotdot_then_target() {
    let uninit = VersionFs::new(b"file".to_vec());
    let entries = uninit.readdir(ROOT_INO, 0).unwrap();
    assert_eq!(entries.len(), 2);
    assert_eq!(entries[0].name, b".".to_vec());
    assert_eq!(entries[1].name, b"..".to_vec());
    let fs = fresh(b"file");
    let entries = fs.readdir(ROOT_INO, 0).unwrap();
    assert_eq!(entries.len(), 3);
    assert_eq!(entries[0].name, b".".to_vec());
    assert_eq!(entries[0].ino, ROOT_INO);
    assert_eq!(entries[0].kind, FileKind::Directory);
    assert_eq!(entries[1].name, b"..".to_vec());
    assert_eq!(entries[2].name, b"file".to_vec());
    assert_eq!(entries[2].ino, TARGET_INO);
    assert_eq!(entries[2].kind, FileKind::RegularFile);
    // resuming at an offset skips the entries before it
    let resumed = fs.readdir(ROOT_INO, 2).unwrap();
    assert_eq!(resumed.len(), 1);
    assert_eq!(resumed[0].name, b"file".to_vec());
    assert_eq!(fs.readdir(ROOT_INO, 3).unwrap().len(), 0);
    assert_eq!(fs.readdir(ROOT_INO, 99).unwrap().len(), 0);
    assert!(matches!(fs.readdir(TARGET_INO, 0), Err(FsError::NotFound)));
}

#[test]
fn scenario_write_hello_then_read_back() {
    let mut fs = fresh(b"file");
    let h = fs.open(TARGET_INO, true, false).unwrap();
    let written = fs.write(h, 0, &b"hello".to_vec()).unwrap();
    assert_eq!(written, 5);
    fs.release(h);
    let h2 = fs.open(TARGET_INO, false, false).unwrap();
    let data = fs.read(TARGET_INO, 0, 10).unwrap();
    assert_eq!(data, b"hello".to_vec());
    assert_eq!(fs.getattr(TARGET_INO).unwrap().size, 5);
    fs.release(h2);
}

#[test]
fn scenario_append_bang_keeps_old_snapshot() {
    let mut fs = fresh(b"file");
    let h = fs.open(TARGET_INO, true, false).unwrap();
    fs.write(h, 0, &b"hello".to_vec()).unwrap();
    fs.release(h);
    let h2 = fs.open(TARGET_INO, true, false).unwrap();
    assert_eq!(fs.version, 3);
    fs.write(h2, 5, &b"!".to_vec()).unwrap();
    fs.release(h2);
    let data = fs.read(TARGET_INO, 0, 100).unwrap();
    assert_eq!(data, b"hello!".to_vec());
    // version 2's snapshot still independently holds exactly "hello"
    assert_eq!(fs.snapshots[1], b"hello".to_vec());
}

#[test]
fn scenario_truncate_then_release_reads_empty() {
    let mut fs = fresh(b"file");
    let h = fs.open(TARGET_INO, true, false).unwrap();
    fs.write(h, 0, &b"old content".to_vec()).unwrap();
    fs.release(h);
    let h2 = fs.open(TARGET_INO, true, true).unwrap();
    fs.release(h2);
    let data = fs.read(TARGET_INO, 0, 100).unwrap();
    assert_eq!(data.len(), 0);
}

#[test]
fn scenario_mknod_target_exists_others_unsupported() {
    let fs = fresh(b"file");
    assert_eq!(fs.mknod(ROOT_INO, &b"file".to_vec()), FsError::AlreadyExists);
    assert_eq!(fs.mknod(ROOT_INO, &b"other".to_vec()), FsError::NotSupported);
    assert_eq!(fs.mknod(TARGET_INO, &b"file".to_vec()), FsError::NotSupported);
}

#[test]
fn lookup_resolves_only_the_target() {
    let mut fs = fresh(b"file");
    let h = fs.open(TARGET_INO, true, false).unwrap();
    fs.write(h, 0, &b"abcd".to_vec()).unwrap();
    fs.release(h);
    let attr = fs.lookup(ROOT_INO, &b"file".to_vec()).unwrap();
    assert_eq!(attr.ino, TARGET_INO);
    assert_eq!(attr.size, 4);
    assert_eq!(fs.lookup(ROOT_INO, &b"other".to_vec()), Err(FsError::NotFound));
    assert_eq!(fs.lookup(TARGET_INO, &b"file".to_vec()), Err(FsError::NotFound));
}

#[test]
fn open_off_the_target_is_unsupported() {
    let mut fs = fresh(b"file");
    assert_eq!(fs.open(ROOT_INO, true, false), Err(FsError::NotSupported));
    assert_eq!(fs.open(9, false, false), Err(FsError::NotSupported));
}

#[test]
fn write_needs_an_open_write_session() {
    let mut fs = fresh(b"file");
    assert_eq!(fs.write(0, 0, &b"x".to_vec()), Err(FsError::BadHandle));
    let h = fs.open(TARGET_INO, false, false).unwrap();
    assert_eq!(fs.write(h, 0, &b"x".to_vec()), Err(FsError::BadHandle));
    fs.release(h);
    let h2 = fs.open(TARGET_INO, true, false).unwrap();
    fs.release(h2);
    assert_eq!(fs.write(h2, 0, &b"x".to_vec()), Err(FsError::BadHandle));
}

#[test]
fn write_zero_fills_a_gap_and_overwrites_in_place() {
    let mut fs = fresh(b"file");
    let h = fs.open(TARGET_INO, true, false).unwrap();
    fs.write(h, 3, &b"x".to_vec()).unwrap();
    assert_eq!(fs.read(TARGET_INO, 0, 10).unwrap(), vec![0u8, 0, 0, b'x']);
    fs.write(h, 0, &b"abcd".to_vec()).unwrap();
    fs.write(h, 1, &b"ZZ".to_vec()).unwrap();
    assert_eq!(fs.read(TARGET_INO, 0, 10).unwrap(), b"aZZd".to_vec());
    // a write of no bytes changes nothing, even past the end
    assert_eq!(fs.write(h, 100, &Vec::new()).unwrap(), 0);
    assert_eq!(fs.getattr(TARGET_INO).unwrap().size, 4);
    fs.release(h);
}

#[test]
fn writes_land_in_the_session_pinned_version() {
    let mut fs = fresh(b"file");
    let h2 = fs.open(TARGET_INO, true, false).unwrap();
    fs.write(h2, 0, &b"two".to_vec()).unwrap();
    let h3 = fs.open(TARGET_INO, true, false).unwrap();
    assert_eq!(fs.version, 3);
    // the older session still writes into its own snapshot, not the newest
    fs.write(h2, 0, &b"TWO".to_vec()).unwrap();
    assert_eq!(fs.snapshots[1], b"TWO".to_vec());
    // reads always see the newest version's bytes
    assert_eq!(fs.read(TARGET_INO, 0, 10).unwrap(), b"two".to_vec());
    fs.release(h2);
    fs.release(h3);
}

#[test]
fn lseek_moves_the_session_position() {
    let mut fs = fresh(b"file");
    let h = fs.open(TARGET_INO, true, false).unwrap();
    fs.write(h, 0, &b"hello".to_vec()).unwrap();
    assert_eq!(fs.lseek(h, 3, Whence::Start).unwrap(), 3);
    assert_eq!(fs.lseek(h, 1, Whence::Current).unwrap(), 4);
    assert_eq!(fs.lseek(h, 0, Whence::End).unwrap(), 5);
    assert_eq!(fs.lseek(h, -2, Whence::End).unwrap(), 3);
    assert_eq!(fs.lseek(h, -4, Whence::Start), Err(FsError::InvalidArgument));
    assert_eq!(fs.lseek(99, 0, Whence::Start), Err(FsError::BadHandle));
    fs.release(h);
    assert_eq!(fs.lseek(h, 0, Whence::Start), Err(FsError::BadHandle));
}

#[test]
fn release_closes_only_the_given_session() {
    let mut fs = fresh(b"file");
    let a = fs.open(TARGET_INO, false, false).unwrap();
    let b = fs.open(TARGET_INO, false, false).unwrap();
    fs.release(a);
    assert!(!fs.sessions[a as usize].open);
    assert!(fs.sessions[b as usize].open);
    // releasing an unknown handle is ignored
    fs.release(42);
    fs.release(b);
    assert!(!fs.sessions[b as usize].open);
}

#[test]
fn setattr_is_accepted_but_not_applied() {
    let mut fs = fresh(b"file");
    let h = fs.open(TARGET_INO, true, false).unwrap();
    fs.write(h, 0, &b"abc".to_vec()).unwrap();
    fs.release(h);
    let attr = fs.setattr();
    assert_eq!(attr.size, 3);
    assert_eq!(attr.ino, TARGET_INO);
    assert_eq!(fs.getattr(TARGET_INO).unwrap().size, 3);
}

#[test]
fn snapshot_names_join_version_and_target() {
    let fs = VersionFs::new(b"file".to_vec());
    assert_eq!(fs.path_for_version(0), b"0.file".to_vec());
    assert_eq!(fs.path_for_version(1), b"1.file".to_vec());
    assert_eq!(fs.path_for_version(12), b"12.file".to_vec());
    assert_eq!(fs.path_for_version(1234567890), b"1234567890.file".to_vec());
    assert_eq!(
        fs.path_for_version(u64::MAX),
        b"18446744073709551615.file".to_vec()
    );
    let odd = VersionFs::new(vec![0xffu8, b'.', b'x']);
    assert_eq!(odd.path_for_version(7), vec![b'7', b'.', 0xffu8, b'.', b'x']);
}
