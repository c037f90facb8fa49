//! Tables of operations on mounts and superblocks, and the mounting itself.
use vstd::prelude::*;

use crate::error::{from_result_i32, result_i32, Error, EINVAL};
use crate::fs::FileSystem;
use crate::mapper::Mapper;
use crate::sb::{Root, SuperBlock, SuperType};

verus! {

/// What can fill a slot of a table of mount operations.
#[derive(Copy, Clone, PartialEq, Eq, Structural, Debug)]
pub enum ContextHandler {
    /// [`Tables::get_tree_callback`].
    GetTree,
}

/// A table of mount operations.
#[derive(Copy, Clone, PartialEq, Eq, Debug)]
pub struct ContextOperations {
    pub free: Option<ContextHandler>,
    pub parse_param: Option<ContextHandler>,
    pub get_tree: Option<ContextHandler>,
    pub reconfigure: Option<ContextHandler>,
    pub parse_monolithic: Option<ContextHandler>,
    pub dup: Option<ContextHandler>,
}

/// What can fill a slot of a table of superblock operations.
#[derive(Copy, Clone, PartialEq, Eq, Structural, Debug)]
pub enum SuperHandler {
    /// Allocates an inode together with the data of the file system.
    AllocInode,
    /// Frees an inode together with the data of the file system.
    DestroyInode,
}

/// A table of superblock operations.
#[derive(Copy, Clone, PartialEq, Eq, Debug)]
pub struct SuperOperations {
    pub alloc_inode: Option<SuperHandler>,
    pub destroy_inode: Option<SuperHandler>,
    pub free_inode: Option<SuperHandler>,
    pub dirty_inode: Option<SuperHandler>,
    pub write_inode: Option<SuperHandler>,
    pub drop_inode: Option<SuperHandler>,
    pub evict_inode: Option<SuperHandler>,
    pub put_super: Option<SuperHandler>,
    pub sync_fs: Option<SuperHandler>,
    pub freeze_super: Option<SuperHandler>,
    pub freeze_fs: Option<SuperHandler>,
    pub thaw_super: Option<SuperHandler>,
    pub unfreeze_fs: Option<SuperHandler>,
    pub statfs: Option<SuperHandler>,
    pub remount_fs: Option<SuperHandler>,
    pub remove_bdev: Option<SuperHandler>,
    pub umount_begin: Option<SuperHandler>,
    pub show_options: Option<SuperHandler>,
    pub show_devname: Option<SuperHandler>,
    pub show_path: Option<SuperHandler>,
    pub show_stats: Option<SuperHandler>,
    pub quota_read: Option<SuperHandler>,
    pub quota_write: Option<SuperHandler>,
    pub get_dquots: Option<SuperHandler>,
    pub nr_cached_objects: Option<SuperHandler>,
    pub free_cached_objects: Option<SuperHandler>,
    pub shutdown: Option<SuperHandler>,
}

/// How the superblock of a mount is found or made. Either way it is filled by
/// [`Tables::fill_super_callback`].
#[derive(Copy, Clone, PartialEq, Eq, Structural, Debug)]
pub enum GetTreeCall {
    /// As one that belongs to a block device.
    GetTreeBdev,
    /// As one without a device.
    GetTreeNodev,
}

/// How the superblock of a mount is found or made.
pub open spec fn get_tree_call(t: SuperType) -> GetTreeCall {
    match t {
        SuperType::BlockDev => GetTreeCall::GetTreeBdev,
        SuperType::Independent => GetTreeCall::GetTreeNodev,
    }
}

/// What mounting goes on with.
pub enum MountEvent<D> {
    /// There is a new superblock.
    Begin,
    /// [`FileSystem::fill_super`] has come to its end.
    Filled(Result<D, Error>),
    /// [`FileSystem::init_root`] has come to its end.
    Rooted(Result<Root, Error>),
}

/// What mounting asks for.
#[derive(Copy, Clone, PartialEq, Eq, Structural, Debug)]
pub enum MountStep {
    /// [`FileSystem::fill_super`] is to be run once, with this mapper or without one.
    FillSuper { mapper: Option<Mapper> },
    /// [`FileSystem::init_root`] is to be run.
    InitRoot,
    /// Zero, or an error number.
    Return(i32),
}

/// The superblock after a step of mounting.
pub open spec fn mounted<D>(
    sb: SuperBlock<D>,
    table: SuperOperations,
    event: MountEvent<D>,
) -> SuperBlock<D> {
    match event {
        MountEvent::Begin => SuperBlock { ops: Some(table), ..sb },
        MountEvent::Filled(Ok(data)) => SuperBlock { fs_info: Some(data), ..sb },
        MountEvent::Rooted(Ok(root)) => if root.super_block == sb.addr {
            SuperBlock { root: Some(root.dentry), ..sb }
        } else {
            sb
        },
        _ => sb,
    }
}

/// The mapper that a superblock is filled with: one of its own device, where superblocks of its
/// type belong to block devices, and none otherwise.
pub open spec fn own_mapper<D>(sb: SuperBlock<D>, t: SuperType) -> Option<Mapper> {
    match t {
        SuperType::BlockDev => Some(Mapper { bdev: sb.bdev }),
        SuperType::Independent => None,
    }
}

/// What a step of mounting asks for.
pub open spec fn mount_step<D>(sb: SuperBlock<D>, t: SuperType, event: MountEvent<D>) -> MountStep {
    match event {
        MountEvent::Begin => MountStep::FillSuper { mapper: own_mapper(sb, t) },
        MountEvent::Filled(Ok(_)) => MountStep::InitRoot,
        MountEvent::Filled(Err(e)) => MountStep::Return(result_i32(Err(e))),
        MountEvent::Rooted(Ok(root)) => if root.super_block == sb.addr {
            MountStep::Return(0)
        } else {
            MountStep::Return(result_i32(Err(Error::of(EINVAL))))
        },
        MountEvent::Rooted(Err(e)) => MountStep::Return(result_i32(Err(e))),
    }
}

/// The tables of a file system type and their callbacks.
pub struct Tables;

impl Tables {
    /// The table of mount operations: a mount can get its tree, and nothing else.
    pub open spec fn context_table() -> ContextOperations {
        ContextOperations {
            free: None,
            parse_param: None,
            get_tree: Some(ContextHandler::GetTree),
            reconfigure: None,
            parse_monolithic: None,
            dup: None,
        }
    }

    /// The table of mount operations.
    pub fn context() -> (r: ContextOperations)
        ensures
            r == Tables::context_table(),
    {
        ContextOperations {
            free: None,
            parse_param: None,
            get_tree: Some(ContextHandler::GetTree),
            reconfigure: None,
            parse_monolithic: None,
            dup: None,
        }
    }

    /// The table of superblock operations: inodes are freed together with the data of the file
    /// system, and where there is such data they are allocated with it.
    pub open spec fn super_table(has_inode_data: bool) -> SuperOperations {
        SuperOperations {
            alloc_inode: if has_inode_data {
                Some(SuperHandler::AllocInode)
            } else {
                None
            },
            destroy_inode: Some(SuperHandler::DestroyInode),
            free_inode: None,
            dirty_inode: None,
            write_inode: None,
            drop_inode: None,
            evict_inode: None,
            put_super: None,
            sync_fs: None,
            freeze_super: None,
            freeze_fs: None,
            thaw_super: None,
            unfreeze_fs: None,
            statfs: None,
            remount_fs: None,
            remove_bdev: None,
            umount_begin: None,
            show_options: None,
            show_devname: None,
            show_path: None,
            show_stats: None,
            quota_read: None,
            quota_write: None,
            get_dquots: None,
            nr_cached_objects: None,
            free_cached_objects: None,
            shutdown: None,
        }
    }

    /// The table of superblock operations.
    pub fn super_block<T: FileSystem>() -> (r: SuperOperations)
        ensures
            r == Tables::super_table(vstd::layout::size_of::<T::INodeData>() != 0),
    {
        SuperOperations {
            alloc_inode: if core::mem::size_of::<T::INodeData>() != 0 {
                Some(SuperHandler::AllocInode)
            } else {
                None
            },
            destroy_inode: Some(SuperHandler::DestroyInode),
            free_inode: None,
            dirty_inode: None,
            write_inode: None,
            drop_inode: None,
            evict_inode: None,
            put_super: None,
            sync_fs: None,
            freeze_super: None,
            freeze_fs: None,
            thaw_super: None,
            unfreeze_fs: None,
            statfs: None,
            remount_fs: None,
            remove_bdev: None,
            umount_begin: None,
            show_options: None,
            show_devname: None,
            show_path: None,
            show_stats: None,
            quota_read: None,
            quota_write: None,
            get_dquots: None,
            nr_cached_objects: None,
            free_cached_objects: None,
            shutdown: None,
        }
    }

    /// Gets the tree of a mount: says how its superblock is found or made.
    pub fn get_tree_callback<T: FileSystem>(fs: &T) -> (r: GetTreeCall)
        ensures
            r == get_tree_call(fs.spec_super_type()),
    {
        match fs.super_type() {
            SuperType::BlockDev => GetTreeCall::GetTreeBdev,
            SuperType::Independent => GetTreeCall::GetTreeNodev,
        }
    }

    /// Fills a new superblock and makes its root directory, one step at a time. A root directory
    /// whose inode belongs to another superblock is refused.
    ///
    /// Once the superblock has data it keeps it, even if mounting fails after that.
    pub fn fill_super_callback<T: FileSystem>(
        fs: &T,
        sb: &mut SuperBlock<T::Data>,
        event: MountEvent<T::Data>,
    ) -> (r: MountStep)
        ensures
            r == mount_step(*old(sb), fs.spec_super_type(), event),
            *final(sb) == mounted(
                *old(sb),
                Tables::super_table(vstd::layout::size_of::<T::INodeData>() != 0),
                event,
            ),
    {
        match event {
            MountEvent::Begin => {
                sb.ops = Some(Tables::super_block::<T>());
                let mapper = match fs.super_type() {
                    SuperType::BlockDev => Some(Mapper { bdev: sb.bdev }),
                    SuperType::Independent => None,
                };
                MountStep::FillSuper { mapper }
            },
            MountEvent::Filled(Err(e)) => MountStep::Return(from_result_i32(Err(e))),
            MountEvent::Filled(Ok(data)) => {
                sb.fs_info = Some(data);
                MountStep::InitRoot
            },
            MountEvent::Rooted(Err(e)) => MountStep::Return(from_result_i32(Err(e))),
            MountEvent::Rooted(Ok(root)) => {
                if root.super_block != sb.addr {
                    return MountStep::Return(from_result_i32(Err(Error::of(EINVAL))));
                }
                sb.root = Some(root.dentry);
                MountStep::Return(from_result_i32(Ok(0)))
            },
        }
    }
}

} // verus!
