//! What mounting and registration give, said of the calls themselves: each law speaks of the
//! arguments of a call and of what comes of it.
use vstd::prelude::*;

use crate::error::{Error, EINVAL};
use crate::ezfs::record::{EzfsDirEntry, EzfsInode, EzfsSuperblock, EzfsSuperblockDisk, Folios};
use crate::fs::registration::{
    Ended, FileSystemType, FsContext, KillCall, KillSbEvent, KillSbStep, MemCache, Registration,
    TypeHandler, Unregistered,
};
use crate::fs::tables::{
    ContextHandler, ContextOperations, GetTreeCall, MountEvent, MountStep, SuperHandler,
    SuperOperations, Tables,
};
use crate::fs::{
    FileSystem, FillSuperEvent, FillSuperStep, InitRootEvent, InitRootStep, UnspecifiedFS,
};
use crate::inode::INode;
use crate::mapper::{Mapped, Mapper};
use crate::sb::{Root, SuperBlock, SuperType};

verus! {

/// Mounting begins with filling the superblock, with a mapper of its own device if the file system
/// belongs to block devices, and without one otherwise. The superblock gets its operations, and
/// nothing else of it changes.
pub proof fn law_mount_begins<T: FileSystem>(
    fs: T,
    sb: &mut SuperBlock<T::Data>,
    r: MountStep,
)
    requires
        call_ensures(
            Tables::fill_super_callback::<T>,
            (&fs, sb, MountEvent::<T::Data>::Begin),
            r,
        ),
    ensures
        fs.spec_super_type() is BlockDev ==> r == (MountStep::FillSuper {
            mapper: Some(Mapper { bdev: old(sb).bdev }),
        }),
        fs.spec_super_type() is Independent ==> r == (MountStep::FillSuper { mapper: None }),
        final(sb).ops matches Some(t) && is_super_table(
            t,
            vstd::layout::size_of::<T::INodeData>() != 0,
        ),
        final(sb).addr == old(sb).addr && final(sb).magic == old(sb).magic,
        final(sb).blocksize_bits == old(sb).blocksize_bits && final(sb).bdev == old(sb).bdev,
        final(sb).fs_info == old(sb).fs_info && final(sb).root == old(sb).root,
{
}

/// A superblock that was filled keeps its data and goes on to its root directory; an error of
/// filling it is the answer, and leaves it as it is.
pub proof fn law_mount_goes_on<T: FileSystem>(
    fs: T,
    sb: &mut SuperBlock<T::Data>,
    filled: Result<T::Data, Error>,
    r: MountStep,
)
    requires
        call_ensures(
            Tables::fill_super_callback::<T>,
            (&fs, sb, MountEvent::<T::Data>::Filled(filled)),
            r,
        ),
    ensures
        match filled {
            Ok(data) => {
                &&& r == MountStep::InitRoot
                &&& final(sb).fs_info == Some(data)
                &&& final(sb).addr == old(sb).addr && final(sb).magic == old(sb).magic
                &&& final(sb).blocksize_bits == old(sb).blocksize_bits
                &&& final(sb).bdev == old(sb).bdev && final(sb).ops == old(sb).ops
                &&& final(sb).root == old(sb).root
            },
            Err(e) => {
                &&& *final(sb) == *old(sb)
                &&& -4095 <= e.errno <= -1 ==> r == MountStep::Return(e.errno)
            },
        },
{
}

/// A root directory of this very superblock ends mounting with success and is the root of the
/// superblock. One of another superblock is refused, an error is the answer, and either leaves the
/// superblock as it is.
pub proof fn law_mount_ends<T: FileSystem>(
    fs: T,
    sb: &mut SuperBlock<T::Data>,
    rooted: Result<Root, Error>,
    r: MountStep,
)
    requires
        call_ensures(
            Tables::fill_super_callback::<T>,
            (&fs, sb, MountEvent::<T::Data>::Rooted(rooted)),
            r,
        ),
    ensures
        match rooted {
            Ok(root) => if root.super_block == old(sb).addr {
                &&& r == MountStep::Return(0)
                &&& final(sb).root == Some(root.dentry)
                &&& final(sb).addr == old(sb).addr && final(sb).magic == old(sb).magic
                &&& final(sb).blocksize_bits == old(sb).blocksize_bits
                &&& final(sb).bdev == old(sb).bdev && final(sb).ops == old(sb).ops
                &&& final(sb).fs_info == old(sb).fs_info
            } else {
                r == MountStep::Return(EINVAL) && *final(sb) == *old(sb)
            },
            Err(e) => {
                &&& *final(sb) == *old(sb)
                &&& -4095 <= e.errno <= -1 ==> r == MountStep::Return(e.errno)
            },
        },
{
}

/// Whether a table destroys inodes, allocates them if they hold data, and does nothing else.
pub open spec fn is_super_table(t: SuperOperations, has_inode_data: bool) -> bool {
    &&& t.destroy_inode == Some(SuperHandler::DestroyInode)
    &&& has_inode_data ==> t.alloc_inode == Some(SuperHandler::AllocInode)
    &&& !has_inode_data ==> t.alloc_inode is None
    &&& t.free_inode is None && t.dirty_inode is None && t.write_inode is None
    &&& t.drop_inode is None && t.evict_inode is None && t.put_super is None
    &&& t.sync_fs is None && t.freeze_super is None && t.freeze_fs is None
    &&& t.thaw_super is None && t.unfreeze_fs is None && t.statfs is None
    &&& t.remount_fs is None && t.remove_bdev is None && t.umount_begin is None
    &&& t.show_options is None && t.show_devname is None && t.show_path is None
    &&& t.show_stats is None && t.quota_read is None && t.quota_write is None
    &&& t.get_dquots is None && t.nr_cached_objects is None
    &&& t.free_cached_objects is None && t.shutdown is None
}

/// Whether a table of mount operations gets a tree and does nothing else.
pub open spec fn gets_tree_only(t: ContextOperations) -> bool {
    &&& t.get_tree == Some(ContextHandler::GetTree)
    &&& t.free is None && t.parse_param is None && t.reconfigure is None
    &&& t.parse_monolithic is None && t.dup is None
}

/// A mount that is prepared can get its tree, and the tree is made for a block device if and only
/// if the file system belongs to block devices. So is the superblock torn down.
pub proof fn law_tables_of_mounts<T: FileSystem>(
    fs: T,
    context: ContextOperations,
    fc: &mut FsContext,
    prepared: i32,
    sb_table: SuperOperations,
    tree: GetTreeCall,
    kill: KillSbStep<T::Data>,
)
    requires
        call_ensures(Tables::context, (), context),
        call_ensures(Registration::init_fs_context_callback, (fc,), prepared),
        call_ensures(Tables::super_block::<T>, (), sb_table),
        call_ensures(Tables::get_tree_callback::<T>, (&fs,), tree),
        call_ensures(
            Registration::kill_sb_callback::<T>,
            (&fs, KillSbEvent::<T::Data>::Begin),
            kill,
        ),
    ensures
        gets_tree_only(context),
        prepared == 0,
        final(fc).ops matches Some(ops) && gets_tree_only(ops),
        is_super_table(sb_table, vstd::layout::size_of::<T::INodeData>() != 0),
        fs.spec_super_type() is BlockDev ==> tree is GetTreeBdev && kill
            == KillSbStep::<T::Data>::TearDown(KillCall::KillBlockSuper),
        fs.spec_super_type() is Independent ==> tree is GetTreeNodev && kill
            == KillSbStep::<T::Data>::TearDown(KillCall::KillAnonSuper),
{
}

/// After a superblock has been torn down its data is freed, if it has any.
pub proof fn law_data_is_freed<T: FileSystem>(
    fs: T,
    data: Option<T::Data>,
    r: KillSbStep<T::Data>,
)
    requires
        call_ensures(
            Registration::kill_sb_callback::<T>,
            (&fs, KillSbEvent::<T::Data>::TornDown(data)),
            r,
        ),
    ensures
        data matches Some(d) ==> r == KillSbStep::Free(d),
        data is None ==> r == KillSbStep::<T::Data>::Done,
{
}

/// Whether a file system type is that of `fs`, which belongs to `module`.
pub open spec fn is_type_of<T: FileSystem>(t: FileSystemType, fs: &T, module: usize) -> bool {
    &&& t.owner == module
    &&& t.name@ == fs.spec_name()
    &&& t.init_fs_context == Some(TypeHandler::InitFsContext)
    &&& t.kill_sb == Some(TypeHandler::KillSb)
    &&& fs.spec_super_type() is BlockDev ==> t.fs_flags == 1
    &&& fs.spec_super_type() is Independent ==> t.fs_flags == 0
}

/// A registration is of the file system, with its cache for inodes, from when it is filled in until
/// it has ended. It fails if and only if the cache could not be made or the type is refused, with
/// the error of that, and then the cache is handed out again.
pub proof fn law_registration<T: FileSystem>(
    fs: T,
    module: usize,
    cache: Result<Option<MemCache>, Error>,
    pending: Result<Unregistered, Error>,
    shown: &FileSystemType,
    pending_cache: Option<MemCache>,
    ret: i32,
    r: Result<Registration, (Error, Ended)>,
    registered_cache: Option<MemCache>,
    ended: Ended,
)
    requires
        call_ensures(Registration::new::<T>, (&fs, module, cache), pending),
        pending matches Ok(u) ==> {
            &&& call_ensures(Unregistered::fs_type, (&u,), shown)
            &&& call_ensures(Unregistered::cache, (&u,), pending_cache)
            &&& call_ensures(Unregistered::registered, (u, ret), r)
            &&& r matches Ok(reg) ==> {
                &&& call_ensures(Registration::cache, (&reg,), registered_cache)
                &&& call_ensures(Registration::drop, (reg,), ended)
            }
        },
    ensures
        cache matches Err(e) ==> pending == Err::<Unregistered, Error>(e),
        cache matches Ok(c) ==> {
            &&& pending is Ok
            &&& is_type_of(*shown, &fs, module)
            &&& pending_cache == c
            &&& r is Ok <==> ret >= 0
            &&& r is Ok ==> {
                &&& registered_cache == c
                &&& ended.inode_cache == c
                &&& is_type_of(ended.fs, &fs, module)
            }
            &&& r matches Err(refused) ==> {
                &&& -4095 <= ret ==> refused.0.errno == ret
                &&& ret < -4095 ==> refused.0.errno == -22
                &&& refused.1.inode_cache == c
                &&& is_type_of(refused.1.fs, &fs, module)
            }
        },
{
}

/// An unspecified file system neither fills a superblock nor makes a root directory.
pub proof fn law_unspecified(
    fs: UnspecifiedFS,
    name: &'static str,
    t: SuperType,
    unspecified: bool,
    sb: &mut SuperBlock<()>,
    mapped: Mapped<()>,
    fill: FillSuperEvent<()>,
    filled: FillSuperStep<()>,
    folios: (),
    root: InitRootEvent<()>,
    rooted: InitRootStep<()>,
)
    requires
        call_ensures(<UnspecifiedFS as FileSystem>::name, (&fs,), name),
        call_ensures(<UnspecifiedFS as FileSystem>::super_type, (&fs,), t),
        call_ensures(<UnspecifiedFS as FileSystem>::is_unspecified, (&fs,), unspecified),
        call_ensures(<UnspecifiedFS as FileSystem>::fill_super, (&fs, sb, &mapped, fill), filled),
        call_ensures(
            <UnspecifiedFS as FileSystem>::init_root,
            (&fs, &*old(sb), &folios, root),
            rooted,
        ),
    ensures
        name@ == seq!['u', 'n', 's', 'p', 'e', 'c', 'i', 'f', 'i', 'e', 'd'],
        t is Independent,
        unspecified,
        filled matches FillSuperStep::Return(Err(e)) && e.errno == -524,
        *final(sb) == *old(sb),
        rooted matches InitRootStep::Return(Err(e)) && e.errno == -524,
        call_requires(<UnspecifiedFS as FileSystem>::init_root, (&fs, &*old(sb), &folios, root)),
{
    reveal_strlit("unspecified");
}

/// The values that the operations work on hold what they were made of.
pub proof fn law_values_hold_what_they_were_made_of(
    disk: EzfsSuperblockDisk,
    mapper: Mapper,
    kept: EzfsSuperblock,
    folios: Folios,
    sb: &mut SuperBlock<EzfsSuperblock>,
    magic: usize,
    data: &EzfsSuperblock,
    inode: INode<EzfsInode>,
    ino: usize,
    blocks: u64,
    value: &EzfsInode,
)
    requires
        call_ensures(EzfsSuperblock::new, (disk, mapper), kept),
        call_ensures(Folios::new, (), folios),
        call_ensures(SuperBlock::<EzfsSuperblock>::set_magic, (sb, magic), ()),
        call_ensures(SuperBlock::<EzfsSuperblock>::data, (&*old(sb),), data),
        call_ensures(INode::<EzfsInode>::ino, (&inode,), ino),
        call_ensures(INode::<EzfsInode>::blocks, (&inode,), blocks),
        call_ensures(INode::<EzfsInode>::data, (&inode,), value),
    ensures
        kept.disk == disk,
        kept.mapper == mapper,
        folios.inodes@ == Map::<i64, Result<Option<Vec<EzfsInode>>, Error>>::empty(),
        folios.entries@ == Map::<i64, Result<Option<Vec<EzfsDirEntry>>, Error>>::empty(),
        final(sb).magic == magic,
        final(sb).addr == old(sb).addr && final(sb).bdev == old(sb).bdev,
        final(sb).blocksize_bits == old(sb).blocksize_bits && final(sb).ops == old(sb).ops,
        final(sb).fs_info == old(sb).fs_info && final(sb).root == old(sb).root,
        old(sb).fs_info matches Some(d) ==> *data == d,
        ino == inode.ino,
        blocks == inode.params.blocks,
        *value == inode.params.value,
{
}

} // verus!
