use rustezfs::error::{Error, EINVAL, EIO, ENOTSUPP};
use rustezfs::ezfs::layout::Layout;
use rustezfs::ezfs::record::{EzfsInode, EzfsSuperblock, EzfsSuperblockDisk, Folios};
use rustezfs::ezfs::RustEzFs;
use rustezfs::fs::registration::{
    FsContext, KillCall, KillSbEvent, KillSbStep, MemCache, Registration, TypeHandler,
    FS_REQUIRES_DEV,
};
use rustezfs::fs::tables::{
    ContextHandler, GetTreeCall, MountEvent, MountStep, SuperHandler, Tables,
};
use rustezfs::fs::{
    FileSystem, FillSuperEvent, FillSuperStep, InitRootEvent, InitRootStep, UnspecifiedFS,
};
use rustezfs::inode::{INodeState, Timespec, Type};
use rustezfs::mapper::{FolioRequest, Mapped, Mapper, Record};
use rustezfs::sb::{DEntry, Root, SuperBlock, SuperType};

fn layout() -> Layout {
    Layout {
        block_size: 4096,
        superblock_block: 0,
        inode_store_block: 1,
        root_ino: 1,
        magic: 0x4118,
        filename_buf_size: 60,
        max_children: 16,
        dir_entry_size: 72,
    }
}

fn super_block<D>() -> SuperBlock<D> {
    SuperBlock {
        addr: 0x5000,
        magic: 0,
        blocksize_bits: 12,
        bdev: 0x6000,
        ops: None,
        fs_info: None,
        root: None,
    }
}

fn record(mode: u32) -> EzfsInode {
    let t = Ok(Timespec { secs: 1, nsecs: 2 });
    EzfsInode {
        mode,
        uid: 10,
        gid: 20,
        nlink: 1,
        data_blk_num: 2,
        file_size: 4096,
        nblocks: 1,
        ctime: t,
        mtime: t,
        atime: t,
    }
}

fn disk(magic: u64) -> EzfsSuperblock {
    EzfsSuperblock::new(EzfsSuperblockDisk { magic }, Mapper { bdev: 0x6000 })
}

#[test]
fn layouts_are_checked() {
    assert!(layout().is_valid());
    assert!(!Layout { dir_entry_size: 0, ..layout() }.is_valid());
    assert!(!Layout { dir_entry_size: usize::MAX, ..layout() }.is_valid());
    assert!(!Layout { inode_store_block: usize::MAX, ..layout() }.is_valid());
    assert!(!Layout { superblock_block: usize::MAX, ..layout() }.is_valid());
}

#[test]
fn file_system_types_describe_themselves() {
    let fs = RustEzFs::new(layout());
    assert_eq!(fs.name(), "rustezfs");
    assert_eq!(fs.super_type(), SuperType::BlockDev);
    assert!(!fs.is_unspecified());
    assert_eq!(UnspecifiedFS.name(), "unspecified");
    assert_eq!(UnspecifiedFS.super_type(), SuperType::Independent);
    assert!(UnspecifiedFS.is_unspecified());
}

#[test]
fn an_unspecified_file_system_does_nothing() {
    let mut sb = super_block::<()>();
    assert!(matches!(
        UnspecifiedFS.fill_super(&mut sb, &Mapped::new(), FillSuperEvent::Ready(None)),
        FillSuperStep::Return(Err(e)) if e == Error::of(ENOTSUPP)
    ));
    assert!(matches!(
        UnspecifiedFS.init_root(&sb, &(), InitRootEvent::Begin),
        InitRootStep::Return(Err(e)) if e == Error::of(ENOTSUPP)
    ));
}

#[test]
fn a_registration_is_filled_in_and_made_known() {
    let fs = RustEzFs::new(layout());
    let cache = Some(MemCache { addr: 0x7000 });
    let Ok(pending) = Registration::new(&fs, 0x100, Ok(cache)) else {
        panic!("there is a cache");
    };
    let t = pending.fs_type();
    assert_eq!((t.owner, t.name, t.fs_flags), (0x100, "rustezfs", FS_REQUIRES_DEV));
    assert_eq!(t.init_fs_context, Some(TypeHandler::InitFsContext));
    assert_eq!(t.kill_sb, Some(TypeHandler::KillSb));
    assert_eq!(pending.cache(), cache);
    let Ok(registration) = pending.registered(0) else {
        panic!("the type is known");
    };
    assert_eq!(registration.cache(), cache);
    let ended = registration.drop();
    assert_eq!((ended.fs.name, ended.inode_cache), ("rustezfs", cache));
}

#[test]
fn a_registration_can_fail() {
    let fs = RustEzFs::new(layout());
    assert!(matches!(
        Registration::new(&fs, 0x100, Err(Error::of(-12))),
        Err(e) if e.to_errno() == -12
    ));
    let Ok(pending) = Registration::new(&UnspecifiedFS, 0x100, Ok(None)) else {
        panic!("no cache is needed");
    };
    assert_eq!(pending.fs_type().fs_flags, 0);
    assert_eq!(pending.cache(), None);
    assert!(matches!(pending.registered(-16), Err((e, _)) if e.to_errno() == -16));
    let cache = Some(MemCache { addr: 0x7000 });
    let Ok(pending) = Registration::new(&fs, 0x100, Ok(cache)) else {
        panic!("there is a cache");
    };
    assert!(matches!(
        pending.registered(-16),
        Err((e, ended)) if e.to_errno() == -16 && ended.inode_cache == cache
    ));
}

#[test]
fn a_mount_gets_its_operations() {
    let mut fc = FsContext { ops: None };
    assert_eq!(Registration::init_fs_context_callback(&mut fc), 0);
    let ops = fc.ops.unwrap();
    assert_eq!(ops.get_tree, Some(ContextHandler::GetTree));
    assert_eq!((ops.free, ops.parse_param, ops.reconfigure), (None, None, None));
    assert_eq!((ops.parse_monolithic, ops.dup), (None, None));
}

#[test]
fn inodes_are_allocated_with_their_data() {
    let table = Tables::super_block::<RustEzFs>();
    assert_eq!(table.alloc_inode, Some(SuperHandler::AllocInode));
    assert_eq!(table.destroy_inode, Some(SuperHandler::DestroyInode));
    assert_eq!(table.statfs, None);
    let table = Tables::super_block::<UnspecifiedFS>();
    assert_eq!(table.alloc_inode, None);
    assert_eq!(table.destroy_inode, Some(SuperHandler::DestroyInode));
}

#[test]
fn superblocks_are_torn_down_as_they_were_made() {
    let fs = RustEzFs::new(layout());
    assert_eq!(Tables::get_tree_callback(&fs), GetTreeCall::GetTreeBdev);
    assert!(matches!(
        Registration::kill_sb_callback(&fs, KillSbEvent::Begin),
        KillSbStep::TearDown(KillCall::KillBlockSuper)
    ));
    assert!(matches!(
        Registration::kill_sb_callback(&fs, KillSbEvent::TornDown(Some(disk(1)))),
        KillSbStep::Free(data) if data == disk(1)
    ));
    assert!(matches!(
        Registration::kill_sb_callback(&fs, KillSbEvent::TornDown(None)),
        KillSbStep::Done
    ));
    assert_eq!(Tables::get_tree_callback(&UnspecifiedFS), GetTreeCall::GetTreeNodev);
    assert!(matches!(
        Registration::kill_sb_callback(&UnspecifiedFS, KillSbEvent::Begin),
        KillSbStep::TearDown(KillCall::KillAnonSuper)
    ));
}

#[test]
fn mounting_goes_step_by_step() {
    let fs = RustEzFs::new(layout());
    let mut sb = super_block::<EzfsSuperblock>();
    assert_eq!(
        Tables::fill_super_callback(&fs, &mut sb, MountEvent::Begin),
        MountStep::FillSuper { mapper: Some(Mapper { bdev: 0x6000 }) }
    );
    assert!(sb.ops.is_some());
    assert_eq!(
        Tables::fill_super_callback(&fs, &mut sb, MountEvent::Filled(Ok(disk(1)))),
        MountStep::InitRoot
    );
    assert_eq!(sb.fs_info, Some(disk(1)));
    let dentry = DEntry { addr: 0x9000, parent_ino: 1 };
    let foreign = Root { dentry, super_block: 0x5001 };
    assert_eq!(
        Tables::fill_super_callback(&fs, &mut sb, MountEvent::Rooted(Ok(foreign))),
        MountStep::Return(-22)
    );
    assert!(sb.root.is_none());
    let own = Root { dentry, super_block: 0x5000 };
    assert_eq!(
        Tables::fill_super_callback(&fs, &mut sb, MountEvent::Rooted(Ok(own))),
        MountStep::Return(0)
    );
    assert_eq!(sb.root, Some(dentry));
}

#[test]
fn mounting_reports_errors() {
    let fs = UnspecifiedFS;
    let mut sb = super_block::<()>();
    assert_eq!(
        Tables::fill_super_callback(&fs, &mut sb, MountEvent::Begin),
        MountStep::FillSuper { mapper: None }
    );
    assert_eq!(
        Tables::fill_super_callback(&fs, &mut sb, MountEvent::Filled(Err(Error::of(ENOTSUPP)))),
        MountStep::Return(-524)
    );
    assert_eq!(
        Tables::fill_super_callback(&fs, &mut sb, MountEvent::Rooted(Err(Error::of(EIO)))),
        MountStep::Return(-5)
    );
}

const DEVICE: Mapper = Mapper { bdev: 0x6000 };

fn ready() -> FillSuperEvent<EzfsSuperblock> {
    FillSuperEvent::Ready(Some(DEVICE))
}

#[test]
fn a_superblock_is_read_checked_and_kept() {
    let fs = RustEzFs::new(layout());
    let mut sb = super_block::<EzfsSuperblock>();
    let mut mapped = Mapped::new();
    let FillSuperStep::MapFolio(request) = fs.fill_super(&mut sb, &mapped, ready()) else {
        panic!("nothing is mapped yet");
    };
    assert_eq!(request, FolioRequest { bdev: 0x6000, record: Record::SuperBlock, offset: 0 });
    mapped.record(request.offset, Ok(Some(EzfsSuperblockDisk { magic: 0x4118 })));
    let FillSuperStep::Allocate(data) = fs.fill_super(&mut sb, &mapped, ready()) else {
        panic!("the magic number is right");
    };
    assert_eq!((data.disk.magic, data.mapper), (0x4118, DEVICE));
    assert_eq!(sb.magic, 0);
    assert!(matches!(
        fs.fill_super(&mut sb, &mapped, FillSuperEvent::Allocated(Err(Error::of(-12)))),
        FillSuperStep::Return(Err(e)) if e.to_errno() == -12
    ));
    assert_eq!(sb.magic, 0);
    assert!(matches!(
        fs.fill_super(&mut sb, &mapped, FillSuperEvent::Allocated(Ok(data))),
        FillSuperStep::Return(Ok(kept)) if kept == data
    ));
    assert_eq!(sb.magic, 0x4118);
}

#[test]
fn a_superblock_is_refused() {
    let fs = RustEzFs::new(layout());
    let mut sb = super_block::<EzfsSuperblock>();
    assert!(matches!(
        fs.fill_super(&mut sb, &Mapped::new(), FillSuperEvent::Ready(None)),
        FillSuperStep::Return(Err(e)) if e == Error::of(EINVAL)
    ));
    let mut wrong = Mapped::new();
    wrong.record(0, Ok(Some(EzfsSuperblockDisk { magic: 0x4119 })));
    assert!(matches!(
        fs.fill_super(&mut sb, &wrong, ready()),
        FillSuperStep::Return(Err(e)) if e == Error::of(EINVAL)
    ));
    let mut unreadable = Mapped::new();
    unreadable.record(0, Ok(None));
    assert!(matches!(
        fs.fill_super(&mut sb, &unreadable, ready()),
        FillSuperStep::Return(Err(e)) if e == Error::of(EIO)
    ));
    let mut broken = Mapped::new();
    broken.record(0, Err(Error::of(-12)));
    assert!(matches!(
        fs.fill_super(&mut sb, &broken, ready()),
        FillSuperStep::Return(Err(e)) if e.to_errno() == -12
    ));
    assert_eq!(sb.magic, 0);
}

#[test]
fn the_root_directory_is_made() {
    let fs = RustEzFs::new(layout());
    let sb = SuperBlock { fs_info: Some(disk(0x4118)), ..super_block() };
    let mut folios = Folios::new();
    folios.inodes.record(4096, Ok(Some(vec![record(0o040755)])));
    assert!(matches!(
        fs.init_root(&sb, &folios, InitRootEvent::Begin),
        InitRootStep::GetInode { sb: 0x5000, ino: 1 }
    ));
    let InitRootStep::InitInode(inode) =
        fs.init_root(&sb, &folios, InitRootEvent::Found(Ok(INodeState::Uninitialized)))
    else {
        panic!("the root inode is on the device");
    };
    assert_eq!(inode.ino(), 1);
    assert!(matches!(inode.params.typ, Type::Dir));
    let InitRootStep::MakeRoot(inode) =
        fs.init_root(&sb, &folios, InitRootEvent::Initialised(inode, Ok(())))
    else {
        panic!("the root inode is initialised");
    };
    assert_eq!(inode.ino(), 1);
    assert!(matches!(
        fs.init_root(&sb, &folios, InitRootEvent::Found(Ok(INodeState::Existing(inode)))),
        InitRootStep::MakeRoot(n) if n.ino() == 1
    ));
    let root = Root { dentry: DEntry { addr: 1, parent_ino: 1 }, super_block: 0x5000 };
    assert!(matches!(
        fs.init_root(&sb, &folios, InitRootEvent::Made(Ok(root))),
        InitRootStep::Return(Ok(r)) if r == root
    ));
}

#[test]
fn the_root_directory_cannot_be_made() {
    let fs = RustEzFs::new(layout());
    let sb = SuperBlock { fs_info: Some(disk(0x4118)), ..super_block() };
    let mut folios = Folios::new();
    folios.inodes.record(4096, Ok(Some(vec![record(0o040755)])));
    assert!(matches!(
        fs.init_root(&sb, &folios, InitRootEvent::Found(Err(Error::of(-12)))),
        InitRootStep::Return(Err(e)) if e.to_errno() == -12
    ));
    let InitRootStep::InitInode(inode) =
        fs.init_root(&sb, &folios, InitRootEvent::Found(Ok(INodeState::Uninitialized)))
    else {
        panic!("the root inode is on the device");
    };
    assert!(matches!(
        fs.init_root(&sb, &folios, InitRootEvent::Initialised(inode, Err(Error::of(-12)))),
        InitRootStep::Return(Err(e)) if e.to_errno() == -12
    ));
    assert!(matches!(
        fs.init_root(&sb, &folios, InitRootEvent::Made(Err(Error::of(-12)))),
        InitRootStep::Return(Err(e)) if e.to_errno() == -12
    ));
}

#[test]
fn the_root_inode_may_have_to_be_mapped() {
    let fs = RustEzFs::new(layout());
    let sb = SuperBlock { fs_info: Some(disk(0x4118)), ..super_block() };
    assert!(matches!(
        fs.init_root(&sb, &Folios::new(), InitRootEvent::Found(Ok(INodeState::Uninitialized))),
        InitRootStep::MapFolio(FolioRequest { bdev: 0x6000, record: Record::INodes, offset: 4096 })
    ));
}
