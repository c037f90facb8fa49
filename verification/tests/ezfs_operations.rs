use std::marker::PhantomData;

use rustezfs::error::{Error, EDOM, EINVAL, EIO, ENAMETOOLONG, ENOENT};
use rustezfs::ezfs::iget::IgetStep;
use rustezfs::ezfs::layout::Layout;
use rustezfs::ezfs::lookup::LookupStep;
use rustezfs::ezfs::record::{
    EzfsDirEntry, EzfsInode, EzfsSuperblock, EzfsSuperblockDisk, Folios,
};
use rustezfs::ezfs::RustEzFs;
use rustezfs::fs::file::callback::{
    read_callback, read_dir_begin, read_dir_callback, read_iter_callback, seek_callback,
    write_iter_callback, ReadDirReturn, SeekReturn,
};
use rustezfs::fs::file::dir::DirEmitter;
use rustezfs::fs::file::ops::{
    DefaultOperations, Handler, IovIterDest, IovIterSource, Kiocb, Operations, Ops, OpsTable,
    ReadDirCursor, ReadDirEvent, ReadDirStep,
};
use rustezfs::fs::file::{Credential, File, LlseekCall, LocalFile};
use rustezfs::inode::{AddressSpaceOps, INode, INodeOps, INodeState, Params, Timespec, Type};
use rustezfs::iomap::{self, Mapping, IOMAP_NULL_ADDR, WRITE};
use rustezfs::mapper::{FolioRequest, Mapper, Record};
use rustezfs::sb::{DEntry, SuperBlock};

const SIZE: i64 = 72;

fn layout() -> Layout {
    Layout {
        block_size: 4096,
        superblock_block: 0,
        inode_store_block: 1,
        root_ino: 1,
        magic: 0x4118,
        filename_buf_size: 60,
        max_children: 4,
        dir_entry_size: SIZE as usize,
    }
}

fn record(mode: u32, data_blk_num: u64, nblocks: u64) -> EzfsInode {
    let t = Ok(Timespec { secs: 1, nsecs: 2 });
    EzfsInode {
        mode,
        uid: 10,
        gid: 20,
        nlink: 3,
        data_blk_num,
        file_size: nblocks * 4096,
        nblocks,
        ctime: t,
        mtime: t,
        atime: t,
    }
}

fn entry(active: bool, name: &[u8], inode_no: u64) -> EzfsDirEntry {
    EzfsDirEntry { inode_no, active, filename: name.to_vec() }
}

fn store() -> Vec<EzfsInode> {
    vec![
        record(0o040755, 2, 1),
        record(0o100644, 3, 2),
        record(0o040700, 5, 1),
        record(0o120777, 6, 1),
    ]
}

fn mapped(entries: Vec<EzfsDirEntry>) -> Folios {
    let mut folios = Folios::new();
    folios.inodes.record(4096, Ok(Some(store())));
    folios.entries.record(8192, Ok(Some(entries)));
    folios
}

fn super_block() -> SuperBlock<EzfsSuperblock> {
    SuperBlock {
        addr: 0x5000,
        magic: 0x4118,
        blocksize_bits: 12,
        bdev: 0x6000,
        ops: None,
        fs_info: Some(EzfsSuperblock::new(
            EzfsSuperblockDisk { magic: 0x4118 },
            Mapper { bdev: 0x6000 },
        )),
        root: None,
    }
}

fn inode(ino: usize, value: EzfsInode) -> INode<EzfsInode> {
    let t = Timespec { secs: 1, nsecs: 2 };
    INode {
        ino,
        fops: Ops::generic_ro_file(),
        iops: INodeOps::EzFs,
        aops: AddressSpaceOps::EzFsIomap,
        params: Params {
            typ: Type::Dir,
            mode: value.mode as u16,
            size: value.file_size as i64,
            blocks: value.nblocks * 8,
            nlink: value.nlink,
            uid: value.uid,
            gid: value.gid,
            ctime: t,
            mtime: t,
            atime: t,
            value,
        },
    }
}

fn root_file() -> File<EzfsInode> {
    File::from_raw_file(LocalFile {
        addr: 0x1000,
        flags: 0,
        inode: inode(1, record(0o040755, 2, 1)),
        dentry: DEntry { addr: 0x2000, parent_ino: 1 },
        cred: Credential { addr: 0x3000 },
        pos_unlocked: false,
    })
}

/// Lists the root directory with an actor that takes `room` entries. Returns the entries that the
/// actor was called with, the position after the listing, and its answer.
fn list(
    folios: &Folios,
    pos: i64,
    mut room: usize,
) -> (Vec<(Vec<u8>, i64, u64, u32)>, i64, i32) {
    let fs = RustEzFs::new(layout());
    let sb = super_block();
    let file = root_file();
    let mut emitter = DirEmitter { pos, has_actor: true };
    let mut run = read_dir_begin(&emitter);
    let mut event = ReadDirEvent::Ready;
    let mut seen = Vec::new();
    loop {
        assert!(fs.can_read_dir(&file, &sb, folios, &emitter, run.cursor, &event));
        match read_dir_callback(&fs, &file, &sb, folios, &mut emitter, run, event) {
            ReadDirReturn::MapFolio { .. } => panic!("everything is mapped"),
            ReadDirReturn::Return(n) => return (seen, emitter.pos(), n),
            ReadDirReturn::Emit { call, run: next } => {
                seen.push((call.name.clone(), call.pos, call.ino, call.dtype));
                let taken = room > 0;
                if taken {
                    room -= 1;
                }
                run = next;
                event = ReadDirEvent::Answered { call, taken };
            }
        }
    }
}

fn names(seen: &[(Vec<u8>, i64, u64, u32)]) -> Vec<Vec<u8>> {
    seen.iter().map(|s| s.0.clone()).collect()
}

fn three_entries() -> Vec<EzfsDirEntry> {
    vec![
        entry(true, b"file", 2),
        entry(true, b"dir", 3),
        entry(true, b"link", 4),
        entry(false, b"gone", 2),
    ]
}

#[test]
fn a_directory_is_listed_in_two_calls() {
    let folios = mapped(three_entries());
    let (seen, pos, answer) = list(&folios, 0, 10);
    assert_eq!(seen, vec![(b".".to_vec(), 0, 1, 4), (b"..".to_vec(), 1, 1, 4)]);
    assert_eq!((pos, answer), (2, 0));
    let (seen, pos, answer) = list(&folios, pos, 10);
    assert_eq!(
        seen,
        vec![
            (b"file".to_vec(), 2, 2, 8),
            (b"dir".to_vec(), 2 + SIZE, 3, 4),
            (b"link".to_vec(), 2 + 2 * SIZE, 4, 10),
        ]
    );
    assert_eq!((pos, answer), (2 + 3 * SIZE, 0));
    let (seen, pos, answer) = list(&folios, pos, 10);
    assert!(seen.is_empty());
    assert_eq!((pos, answer), (2 + 3 * SIZE, 0));
}

#[test]
fn a_listing_without_gaps_resumes() {
    let folios = mapped(three_entries());
    let (first, pos, answer) = list(&folios, 2, 1);
    assert_eq!(names(&first), vec![b"file".to_vec(), b"dir".to_vec()]);
    assert_eq!((pos, answer), (2 + SIZE, 0));
    let (second, pos, answer) = list(&folios, pos, 10);
    assert_eq!(names(&second), vec![b"dir".to_vec(), b"link".to_vec()]);
    assert_eq!((pos, answer), (2 + 3 * SIZE, 0));
    let (whole, whole_pos, _) = list(&folios, 2, 10);
    assert_eq!(whole_pos, pos);
    let mut joined = first[..1].to_vec();
    joined.extend(second);
    assert_eq!(whole, joined);
}

#[test]
fn a_gap_repeats_an_entry() {
    let folios = mapped(vec![entry(false, b"gone", 2), entry(true, b"file", 2)]);
    let (seen, pos, _) = list(&folios, 2, 10);
    assert_eq!(names(&seen), vec![b"file".to_vec()]);
    assert_eq!(pos, 2 + SIZE);
    let (seen, pos, _) = list(&folios, pos, 10);
    assert_eq!(names(&seen), vec![b"file".to_vec()]);
    assert_eq!(pos, 2 + 2 * SIZE);
    let (seen, _, _) = list(&folios, pos, 10);
    assert!(seen.is_empty());
}

#[test]
fn the_dots_can_be_interrupted() {
    let folios = mapped(three_entries());
    let (seen, pos, answer) = list(&folios, 0, 0);
    assert_eq!(names(&seen), vec![b".".to_vec()]);
    assert_eq!((pos, answer), (0, 0));
    let (seen, pos, answer) = list(&folios, 0, 1);
    assert_eq!(names(&seen), vec![b".".to_vec(), b"..".to_vec()]);
    assert_eq!((pos, answer), (1, 0));
    let (seen, pos, answer) = list(&folios, pos, 1);
    assert_eq!(names(&seen), vec![b"..".to_vec()]);
    assert_eq!((pos, answer), (2, 0));
}

#[test]
fn positions_that_are_none_are_refused() {
    let folios = mapped(three_entries());
    assert_eq!(list(&folios, -1, 10), (vec![], -1, -2));
    assert_eq!(list(&folios, 3, 10), (vec![], 3, -2));
    assert_eq!(list(&folios, 2 + SIZE - 1, 10), (vec![], 1 + SIZE, -2));
    assert_eq!(list(&folios, 2 + 4 * SIZE, 10), (vec![], 2 + 4 * SIZE, 0));
}

#[test]
fn a_listing_without_an_actor_ends() {
    let folios = mapped(three_entries());
    let fs = RustEzFs::new(layout());
    for pos in [0, 1, 2] {
        let mut emitter = DirEmitter { pos, has_actor: false };
        let step = fs.read_dir(
            &root_file(),
            &super_block(),
            &folios,
            &mut emitter,
            ReadDirCursor::Start,
            ReadDirEvent::Ready,
        );
        assert!(matches!(step, ReadDirStep::Return(Ok(()))));
        assert_eq!(emitter.pos(), pos);
    }
}

const STORE: FolioRequest = FolioRequest { bdev: 0x6000, record: Record::INodes, offset: 4096 };
const ENTRIES: FolioRequest = FolioRequest { bdev: 0x6000, record: Record::DirEntries, offset: 8192 };

#[test]
fn a_listing_asks_for_what_it_needs() {
    let fs = RustEzFs::new(layout());
    let sb = super_block();
    let mut folios = Folios::new();
    let file = root_file();
    let mut emitter = DirEmitter { pos: 2, has_actor: true };
    let ReadDirStep::MapFolio { request, cursor } =
        fs.read_dir(&file, &sb, &folios, &mut emitter, ReadDirCursor::Start, ReadDirEvent::Ready)
    else {
        panic!("the entries are not mapped");
    };
    assert_eq!((request, cursor), (ENTRIES, ReadDirCursor::Slot(0)));
    folios.entries.record(request.offset, Ok(Some(three_entries())));
    let ReadDirStep::MapFolio { request, cursor } =
        fs.read_dir(&file, &sb, &folios, &mut emitter, cursor, ReadDirEvent::Ready)
    else {
        panic!("the inodes are not mapped");
    };
    assert_eq!((request, cursor), (STORE, ReadDirCursor::Slot(0)));
    folios.inodes.record(request.offset, Ok(Some(store())));
    assert!(matches!(
        fs.read_dir(&file, &sb, &folios, &mut emitter, cursor, ReadDirEvent::Ready),
        ReadDirStep::Emit { .. }
    ));
}

#[test]
fn a_listing_reports_what_it_cannot_read() {
    let fs = RustEzFs::new(layout());
    let file = root_file();
    let mut emitter = DirEmitter { pos: 2, has_actor: true };
    let mut step = |folios: &Folios| {
        let event = ReadDirEvent::Ready;
        fs.read_dir(&file, &super_block(), folios, &mut emitter, ReadDirCursor::Start, event)
    };
    let mut folios = Folios::new();
    folios.entries.record(8192, Err(Error::of(-12)));
    assert!(matches!(step(&folios), ReadDirStep::Return(Err(e)) if e.to_errno() == -12));
    let mut folios = Folios::new();
    folios.entries.record(8192, Ok(None));
    assert!(matches!(step(&folios), ReadDirStep::Return(Err(e)) if e == Error::of(EIO)));
    let mut folios = Folios::new();
    folios.entries.record(8192, Ok(Some(vec![])));
    folios.inodes.record(4096, Ok(None));
    assert!(matches!(step(&folios), ReadDirStep::Return(Err(e)) if e == Error::of(EIO)));
}

#[test]
fn requests_name_the_device_that_was_mounted() {
    let fs = RustEzFs::new(layout());
    let root = inode(1, record(0o040755, 2, 1));
    let other = SuperBlock {
        addr: 0x5555,
        fs_info: Some(EzfsSuperblock::new(
            EzfsSuperblockDisk { magic: 0x4118 },
            Mapper { bdev: 0x6666 },
        )),
        ..super_block()
    };
    let nothing = Folios::new();
    assert!(matches!(
        fs.lookup(&other, &nothing, &root, b"dir", None),
        LookupStep::MapFolio(FolioRequest { bdev: 0x6666, .. })
    ));
    assert!(matches!(
        fs.iget(&other, &nothing, 2, fresh()),
        IgetStep::MapFolio(FolioRequest { bdev: 0x6666, .. })
    ));
    assert!(matches!(
        fs.lookup(&other, &mapped(three_entries()), &root, b"dir", None),
        LookupStep::GetInode { sb: 0x5555, ino: 3 }
    ));
    let mut emitter = DirEmitter { pos: 2, has_actor: true };
    let (start, ready) = (ReadDirCursor::Start, ReadDirEvent::Ready);
    assert!(matches!(
        fs.read_dir(&root_file(), &other, &nothing, &mut emitter, start, ready),
        ReadDirStep::MapFolio { request: FolioRequest { bdev: 0x6666, .. }, .. }
    ));
    let unfilled = SuperBlock { fs_info: None, ..super_block() };
    assert!(!fs.can_lookup(&unfilled, &nothing, &root, b"dir", &None));
    assert!(!fs.can_iget(&unfilled, &nothing, 2, &fresh()));
    assert!(!fs.can_read_dir(
        &root_file(),
        &unfilled,
        &nothing,
        &emitter,
        ReadDirCursor::Start,
        &ReadDirEvent::Ready
    ));
}

#[test]
fn a_listing_with_nothing_mapped_comes_to_the_same() {
    let fs = RustEzFs::new(layout());
    let (sb, file) = (super_block(), root_file());
    let mut folios = Folios::new();
    let mut emitter = DirEmitter { pos: 2, has_actor: true };
    let mut run = read_dir_begin(&emitter);
    let mut event = ReadDirEvent::Ready;
    let mut seen = Vec::new();
    let mut asked = Vec::new();
    let answer = loop {
        match read_dir_callback(&fs, &file, &sb, &folios, &mut emitter, run, event) {
            ReadDirReturn::Return(n) => break n,
            ReadDirReturn::MapFolio { request, run: next } => {
                asked.push(request);
                match request.record {
                    Record::DirEntries => {
                        folios.entries.record(request.offset, Ok(Some(three_entries())))
                    }
                    _ => folios.inodes.record(request.offset, Ok(Some(store()))),
                }
                run = next;
                event = ReadDirEvent::Ready;
            }
            ReadDirReturn::Emit { call, run: next } => {
                seen.push((call.name.clone(), call.pos, call.ino, call.dtype));
                run = next;
                event = ReadDirEvent::Answered { call, taken: true };
            }
        }
    };
    assert_eq!(asked, vec![ENTRIES, STORE]);
    assert_eq!((seen, emitter.pos(), answer), list(&mapped(three_entries()), 2, 10));
}

#[test]
fn an_operation_does_not_see_what_an_earlier_one_mapped() {
    let fs = RustEzFs::new(layout());
    let root = inode(1, record(0o040755, 2, 1));
    let mut folios = Folios::new();
    assert!(matches!(
        fs.lookup(&super_block(), &folios, &root, b"dir", None),
        LookupStep::MapFolio(ENTRIES)
    ));
    folios.entries.record(8192, Err(Error::of(EIO)));
    assert!(matches!(
        fs.lookup(&super_block(), &folios, &root, b"dir", None),
        LookupStep::Fail(e) if e == Error::of(EIO)
    ));
    let mut folios = Folios::new();
    assert!(matches!(
        fs.lookup(&super_block(), &folios, &root, b"dir", None),
        LookupStep::MapFolio(ENTRIES)
    ));
    folios.entries.record(8192, Ok(Some(three_entries())));
    assert!(matches!(
        fs.lookup(&super_block(), &folios, &root, b"dir", None),
        LookupStep::GetInode { sb: 0x5000, ino: 3 }
    ));
}

#[test]
fn entries_and_inodes_at_one_offset_are_mapped_apart() {
    let fs = RustEzFs::new(layout());
    let root = inode(1, record(0o040755, 1, 1));
    let mut folios = Folios::new();
    assert!(matches!(
        fs.lookup(&super_block(), &folios, &root, b"dir", None),
        LookupStep::MapFolio(FolioRequest { bdev: 0x6000, record: Record::DirEntries, offset: 4096 })
    ));
    folios.entries.record(4096, Ok(Some(three_entries())));
    assert!(matches!(
        fs.lookup(&super_block(), &folios, &root, b"dir", Some(fresh())),
        LookupStep::MapFolio(STORE)
    ));
    folios.inodes.record(4096, Err(Error::of(EIO)));
    assert!(matches!(
        fs.lookup(&super_block(), &folios, &root, b"dir", Some(fresh())),
        LookupStep::Fail(e) if e == Error::of(EIO)
    ));
}

#[test]
fn an_entry_outside_the_store_cannot_be_listed() {
    let fs = RustEzFs::new(layout());
    let emitter = DirEmitter { pos: 2, has_actor: true };
    for inode_no in [0, 5] {
        let folios = mapped(vec![entry(true, b"bad", inode_no)]);
        assert!(!fs.can_read_dir(
            &root_file(),
            &super_block(),
            &folios,
            &emitter,
            ReadDirCursor::Start,
            &ReadDirEvent::Ready
        ));
    }
}

fn fresh() -> Result<INodeState<EzfsInode>, Error> {
    Ok(INodeState::Uninitialized)
}

#[test]
fn a_regular_file_is_read() {
    let fs = RustEzFs::new(layout());
    let folios = mapped(vec![]);
    let IgetStep::InitInode(inode) = fs.iget(&super_block(), &folios, 2, fresh()) else {
        panic!("inode 2 is a regular file");
    };
    assert_eq!(inode.ino(), 2);
    assert!(matches!(inode.params.typ, Type::Reg));
    assert_eq!((inode.params.mode, inode.params.size), (0o100644, 8192));
    assert_eq!((inode.blocks(), inode.params.nlink), (16, 3));
    assert_eq!((inode.params.uid, inode.params.gid), (10, 20));
    assert_eq!(inode.params.ctime, Timespec { secs: 1, nsecs: 2 });
    assert_eq!(inode.data().data_blk_num, 3);
    let OpsTable::Table(table) = inode.fops.inner else {
        panic!("the table is that of the file system");
    };
    assert_eq!((table.llseek, table.read), (Some(Handler::Seek), None));
    assert_eq!(table.read_iter, Some(Handler::ReadIter));
    assert_eq!(table.write_iter, Some(Handler::WriteIter));
    assert_eq!(table.mmap, Some(Handler::GenericFileMmap));
    assert_eq!(table.splice_read, Some(Handler::FilemapSpliceRead));
    assert_eq!((table.iterate_shared, table.write, table.fsync), (None, None, None));
}

#[test]
fn a_directory_is_read() {
    let fs = RustEzFs::new(layout());
    let folios = mapped(vec![]);
    let IgetStep::InitInode(inode) = fs.iget(&super_block(), &folios, 3, fresh()) else {
        panic!("inode 3 is a directory");
    };
    assert!(matches!(inode.params.typ, Type::Dir));
    let OpsTable::Table(table) = inode.fops.inner else {
        panic!("the table is that of the file system");
    };
    assert_eq!(table.iterate_shared, Some(Handler::ReadDir));
    assert_eq!((table.llseek, table.read_iter, table.mmap), (None, None, None));
}

#[test]
fn a_cached_inode_is_taken_as_it_is() {
    let fs = RustEzFs::new(layout());
    let folios = Folios::new();
    let cached = inode(77, record(0, 9, 9));
    assert!(matches!(
        fs.iget(&super_block(), &folios, 2, Ok(INodeState::Existing(cached))),
        IgetStep::Return(Ok(n)) if n.ino() == 77
    ));
    assert!(matches!(
        fs.iget(&super_block(), &folios, 2, Err(Error::of(-12))),
        IgetStep::Return(Err(e)) if e.to_errno() == -12
    ));
    assert!(matches!(fs.iget(&super_block(), &folios, 2, fresh()), IgetStep::MapFolio(STORE)));
}

#[test]
fn a_bad_inode_is_refused() {
    let fs = RustEzFs::new(layout());
    let get = |record: EzfsInode| {
        let mut folios = Folios::new();
        folios.inodes.record(4096, Ok(Some(vec![record])));
        assert!(fs.can_iget(&super_block(), &folios, 1, &fresh()));
        match fs.iget(&super_block(), &folios, 1, fresh()) {
            IgetStep::Return(Err(e)) => e.to_errno(),
            _ => 0,
        }
    };
    let good = record(0o100644, 3, 2);
    assert_eq!(get(good), 0);
    assert_eq!(get(EzfsInode { mode: 0o120777, ..good }), ENOENT);
    assert_eq!(get(EzfsInode { mode: 0o644, ..good }), ENOENT);
    assert_eq!(get(EzfsInode { mode: 0x1_81a4, ..good }), EINVAL);
    assert_eq!(get(EzfsInode { file_size: 1 << 63, ..good }), EINVAL);
    assert_eq!(get(EzfsInode { ctime: Err(Error::of(EIO)), ..good }), EIO);
    assert_eq!(get(EzfsInode { mtime: Err(Error::of(-75)), ..good }), -75);
    assert_eq!(get(EzfsInode { atime: Err(Error::of(-76)), ..good }), -76);
    let all = EzfsInode {
        ctime: Err(Error::of(-1)),
        mtime: Err(Error::of(-3)),
        atime: Err(Error::of(-4)),
        ..good
    };
    assert_eq!(get(all), -1);
}

#[test]
fn inodes_outside_the_store_cannot_be_got() {
    let fs = RustEzFs::new(layout());
    let folios = mapped(vec![]);
    assert!(!fs.can_iget(&super_block(), &folios, 0, &fresh()));
    assert!(fs.can_iget(&super_block(), &folios, 4, &fresh()));
    assert!(!fs.can_iget(&super_block(), &folios, 5, &fresh()));
    assert!(fs.can_iget(&super_block(), &folios, 5, &Err(Error::of(EIO))));
    let mut folios = Folios::new();
    let huge = EzfsInode { nblocks: 1 << 61, ..record(0o100644, 3, 2) };
    folios.inodes.record(4096, Ok(Some(vec![huge])));
    assert!(!fs.can_iget(&super_block(), &folios, 1, &fresh()));
}

#[test]
fn a_name_is_looked_up() {
    let fs = RustEzFs::new(layout());
    let folios = mapped(three_entries());
    let root = inode(1, record(0o040755, 2, 1));
    assert!(matches!(
        fs.lookup(&super_block(), &folios, &root, b"dir", None),
        LookupStep::GetInode { sb: 0x5000, ino: 3 }
    ));
    let found = Some(fresh());
    assert!(fs.can_lookup(&super_block(), &folios, &root, b"dir", &found));
    assert!(matches!(
        fs.lookup(&super_block(), &folios, &root, b"dir", found),
        LookupStep::InitInode(n) if n.ino() == 3
    ));
    assert!(matches!(
        fs.lookup(&super_block(), &folios, &root, b"other", None),
        LookupStep::SpliceAlias(None)
    ));
    assert!(matches!(
        fs.lookup(&super_block(), &folios, &root, b"gone", None),
        LookupStep::SpliceAlias(None)
    ));
    assert!(matches!(
        fs.lookup(&super_block(), &folios, &root, b"", None),
        LookupStep::SpliceAlias(None)
    ));
    assert!(matches!(
        fs.lookup(&super_block(), &folios, &root, b"di", None),
        LookupStep::SpliceAlias(None)
    ));
    assert!(matches!(
        fs.lookup(&super_block(), &folios, &root, b"link", Some(fresh())),
        LookupStep::Fail(e) if e == Error::of(ENOENT)
    ));
}

#[test]
fn an_inode_is_used_once_it_is_initialised() {
    let made = |ino: usize| inode(ino, record(0o040700, 5, 1));
    assert!(matches!(
        RustEzFs::iget_initialised(made(3), Ok(())),
        IgetStep::Return(Ok(n)) if n.ino() == 3
    ));
    assert!(matches!(
        RustEzFs::iget_initialised(made(3), Err(Error::of(-12))),
        IgetStep::Return(Err(e)) if e.to_errno() == -12
    ));
    assert!(matches!(
        RustEzFs::lookup_initialised(made(3), Ok(())),
        LookupStep::SpliceAlias(Some(n)) if n.ino() == 3
    ));
    assert!(matches!(
        RustEzFs::lookup_initialised(made(3), Err(Error::of(-12))),
        LookupStep::Fail(e) if e.to_errno() == -12
    ));
    let fs = RustEzFs::new(layout());
    let root = inode(1, record(0o040755, 2, 1));
    assert!(matches!(
        fs.lookup(&super_block(), &mapped(three_entries()), &root, b"dir", Some(Ok(INodeState::Existing(made(3))))),
        LookupStep::SpliceAlias(Some(n)) if n.ino() == 3
    ));
}

#[test]
fn the_first_of_two_equal_names_counts() {
    let fs = RustEzFs::new(layout());
    let folios = mapped(vec![
        entry(false, b"a", 4),
        entry(true, b"a", 3),
        entry(true, b"a", 2),
    ]);
    let root = inode(1, record(0o040755, 2, 1));
    assert!(matches!(
        fs.lookup(&super_block(), &folios, &root, b"a", None),
        LookupStep::GetInode { sb: 0x5000, ino: 3 }
    ));
}

#[test]
fn a_name_cannot_be_looked_up() {
    let fs = RustEzFs::new(layout());
    let folios = mapped(three_entries());
    let root = inode(1, record(0o040755, 2, 1));
    assert!(matches!(
        fs.lookup(&super_block(), &folios, &root, &[b'x'; 61], None),
        LookupStep::Fail(e) if e == Error::of(ENAMETOOLONG)
    ));
    assert!(matches!(
        fs.lookup(&super_block(), &folios, &root, &[b'x'; 60], None),
        LookupStep::SpliceAlias(None)
    ));
    let far = inode(1, record(0o040755, u64::MAX, 1));
    assert!(matches!(
        fs.lookup(&super_block(), &folios, &far, b"dir", None),
        LookupStep::Fail(e) if e == Error::of(EIO)
    ));
    let beyond = inode(1, record(0o040755, 1 << 51, 1));
    assert!(matches!(
        fs.lookup(&super_block(), &folios, &beyond, b"dir", None),
        LookupStep::Fail(e) if e == Error::of(EINVAL)
    ));
    let unmapped = inode(1, record(0o040755, 7, 1));
    assert!(matches!(
        fs.lookup(&super_block(), &folios, &unmapped, b"dir", None),
        LookupStep::MapFolio(FolioRequest { bdev: 0x6000, record: Record::DirEntries, offset: 28672 })
    ));
    let bad = mapped(vec![entry(true, b"bad", 9)]);
    assert!(!fs.can_lookup(&super_block(), &bad, &root, b"bad", &Some(fresh())));
    assert!(fs.can_lookup(&super_block(), &bad, &root, b"bad", &None));
}

fn no_mapping() -> Mapping {
    Mapping { bdev: None, offset: 0, length: 0, typ: iomap::Type::Hole, addr: 0 }
}

fn map(value: EzfsInode, pos: i64, length: i64, flags: u32) -> (Result<(), Error>, Mapping) {
    let sb = super_block();
    let inode = inode(2, value);
    let mut map = no_mapping();
    let mut srcmap = no_mapping();
    assert!(RustEzFs::can_begin(&inode, &sb, pos, length));
    let r = RustEzFs::begin(&inode, &sb, pos, length, flags, &mut map, &mut srcmap);
    assert_eq!(srcmap, no_mapping());
    assert_eq!(RustEzFs::end(&inode, pos, length, 0, flags, &map), Ok(()));
    (r, map)
}

#[test]
fn reads_are_mapped_to_the_blocks_of_the_file() {
    let value = record(0o100644, 3, 2);
    let (r, m) = map(value, 0, 4096, 0);
    assert_eq!(r, Ok(()));
    assert_eq!((m.bdev, m.offset, m.length), (Some(0x6000), 0, 4096));
    assert_eq!((m.typ, m.addr), (iomap::Type::Mapped, 3 * 4096));
    let (_, m) = map(value, 4096, 4096, 0);
    assert_eq!((m.typ, m.addr), (iomap::Type::Mapped, 4 * 4096));
    let (_, m) = map(value, 8191, 1, 0);
    assert_eq!((m.typ, m.offset, m.addr), (iomap::Type::Mapped, 8191, 4 * 4096));
    let (r, m) = map(value, 8192, 4096, 0);
    assert_eq!(r, Ok(()));
    assert_eq!((m.typ, m.addr), (iomap::Type::Hole, IOMAP_NULL_ADDR));
    let (_, m) = map(record(0o100644, 0, 2), 0, 4096, 0);
    assert_eq!((m.typ, m.addr), (iomap::Type::Hole, u64::MAX));
}

#[test]
fn writes_are_refused() {
    let (r, m) = map(record(0o100644, 3, 2), 0, 4096, WRITE);
    assert_eq!(r, Err(Error::of(EIO)));
    assert_eq!((m.bdev, m.offset, m.length, m.addr), (Some(0x6000), 0, 4096, 0));
}

#[test]
fn ranges_before_the_file_are_invalid() {
    let value = record(0o100644, 3, 2);
    assert_eq!(map(value, -1, 4096, 0), (Err(Error::of(EINVAL)), no_mapping()));
    assert_eq!(map(value, 0, 0, 0), (Err(Error::of(EINVAL)), no_mapping()));
    assert_eq!(map(value, 10, -20, WRITE), (Err(Error::of(EINVAL)), no_mapping()));
    let (r, m) = map(value, 5000, -10, 0);
    assert_eq!(r, Ok(()));
    assert_eq!(m.length, u64::MAX - 9);
}

#[test]
fn ranges_that_overflow_cannot_be_mapped() {
    let sb = super_block();
    let far = inode(2, record(0o100644, u64::MAX, 1));
    assert!(!RustEzFs::can_begin(&far, &sb, 4096, 1));
    assert!(RustEzFs::can_begin(&far, &sb, 0, 1));
    let near = inode(2, record(0o100644, 3, 1));
    assert!(!RustEzFs::can_begin(&near, &sb, i64::MAX, 1));
    assert!(!RustEzFs::can_begin(&near, &sb, 0, i64::MIN));
    assert!(RustEzFs::can_begin(&near, &sb, -1, i64::MIN));
    let wide = SuperBlock { blocksize_bits: 64, ..super_block() };
    assert!(!RustEzFs::can_begin(&near, &wide, 0, 1));
}

#[test]
fn the_callbacks_reach_the_operations() {
    let fs = RustEzFs::new(layout());
    let file = root_file();
    assert_eq!(
        seek_callback(&fs, &file, 9, 1),
        SeekReturn::Llseek(LlseekCall { file: 0x1000, offset: 9, whence: 1 })
    );
    assert_eq!(seek_callback(&fs, &file, 9, 5), SeekReturn::Return(EDOM as i64));
    let mut offset = 3;
    let (n, writer) = read_callback(&fs, &file, 0x8000, 16, &mut offset);
    assert_eq!((n, offset), (-22, 3));
    assert_eq!((writer.addr, writer.len), (0x8000, 16));
    assert!(writer.data.is_empty());
    let call = read_iter_callback(0xa, 0xb);
    assert_eq!((call.kiocb, call.iter), (0xa, 0xb));
    let kiocb = Kiocb { file, pos: 0 };
    let mut source = IovIterSource { count: 5 };
    assert_eq!(write_iter_callback(&fs, &kiocb, &mut source), 0);
    assert_eq!(source.count, 5);
    let mut dest = IovIterDest { count: 5 };
    assert_eq!(fs.read_iter(&kiocb, &mut dest), Err(Error::of(EINVAL)));
}

#[test]
fn operations_that_are_not_provided_are_refused() {
    let nothing = DefaultOperations::<RustEzFs> { phantom: PhantomData };
    let file = root_file();
    assert_eq!(seek_callback(&nothing, &file, 9, 1), SeekReturn::Return(-22));
    assert_eq!(seek_callback(&nothing, &file, 9, -1), SeekReturn::Return(-33));
    let mut offset = 3;
    assert_eq!(read_callback(&nothing, &file, 0, 1, &mut offset).0, -22);
    let kiocb = Kiocb { file: root_file(), pos: 0 };
    assert_eq!(write_iter_callback(&nothing, &kiocb, &mut IovIterSource { count: 1 }), -22);
    assert_eq!(nothing.read_iter(&kiocb, &mut IovIterDest { count: 1 }), Err(Error::of(EINVAL)));
    let sb = super_block();
    let folios = mapped(vec![]);
    let mut emitter = DirEmitter { pos: 2, has_actor: true };
    let run = read_dir_begin(&emitter);
    assert!(matches!(
        read_dir_callback(&nothing, &file, &sb, &folios, &mut emitter, run, ReadDirEvent::Ready),
        ReadDirReturn::Return(-22)
    ));
    let OpsTable::Table(table) = Ops::<EzfsInode>::new_file::<DefaultOperations<RustEzFs>>().inner else {
        panic!("the table is that of the operations");
    };
    assert_eq!((table.llseek, table.read), (None, None));
    assert_eq!(table.read_iter, Some(Handler::ReadIter));
    let OpsTable::Table(table) = Ops::<EzfsInode>::new_dir::<DefaultOperations<RustEzFs>>().inner else {
        panic!("the table is that of the operations");
    };
    assert_eq!(table.iterate_shared, None);
}
