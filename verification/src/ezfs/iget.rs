//! Reading an inode from the device.
use vstd::prelude::*;

use crate::error::{to_i64_spec, to_u16_spec, u32_to_u16, u64_to_i64, Error, ENOENT};
use crate::ezfs::fetch::Fetch;
use crate::ezfs::layout::Layout;
use crate::ezfs::record::{EzfsInode, EzfsSuperblock, Folios, Volume};
use crate::ezfs::RustEzFs;
use crate::fs::file::ops::{dir_table, file_table, OpsTable};
use crate::fs::mode::{S_IFDIR, S_IFMT, S_IFREG};
use crate::inode::{AddressSpaceOps, INode, INodeOps, INodeState, Params, Timespec, Type};
use crate::mapper::FolioRequest;
use crate::sb::SuperBlock;

verus! {

/// What getting an inode asks for.
pub enum IgetStep {
    /// A folio of the device is to be mapped, and the inode, which is still uninitialised, is to
    /// be got again.
    MapFolio(FolioRequest),
    /// The fresh inode of the inode cache is to be initialised with this. What comes of that is for
    /// [`RustEzFs::iget_initialised`].
    InitInode(INode<EzfsInode>),
    /// The inode, or an error.
    Return(Result<INode<EzfsInode>, Error>),
}

/// What getting an inode comes to once the fresh inode has been initialised, or could not be.
pub open spec fn initialised(inode: INode<EzfsInode>, done: Result<(), Error>) -> IgetStep {
    match done {
        Ok(_) => IgetStep::Return(Ok(inode)),
        Err(e) => IgetStep::Return(Err(e)),
    }
}

impl EzfsInode {
    /// Whether the file type of the inode is that of a directory.
    pub open spec fn is_dir(self) -> bool {
        self.mode & S_IFMT == S_IFDIR
    }

    /// Whether the file type of the inode is that of a regular file.
    pub open spec fn is_reg(self) -> bool {
        self.mode & S_IFMT == S_IFREG
    }

    /// Why the inode cannot be had, for its type, its mode or its size.
    pub open spec fn shape_error(self) -> Option<Error> {
        if !self.is_dir() && !self.is_reg() {
            Some(Error::of(ENOENT))
        } else if to_u16_spec(self.mode as int) is Err {
            to_u16_spec(self.mode as int).err()
        } else {
            to_i64_spec(self.file_size as int).err()
        }
    }

    /// Why the inode cannot be had: the first thing that is wrong with its type, its mode, its
    /// size and its times, in this order.
    pub open spec fn error(self) -> Option<Error> {
        if self.shape_error() is Some {
            self.shape_error()
        } else if self.ctime is Err {
            self.ctime.err()
        } else if self.mtime is Err {
            self.mtime.err()
        } else {
            self.atime.err()
        }
    }

    /// Whether `inode` is what the inode `ino` is initialised with from the record.
    pub open spec fn fills(self, ino: usize, inode: INode<EzfsInode>) -> bool {
        &&& inode.ino == ino
        &&& inode.fops.inner == OpsTable::Table(
            if self.is_dir() {
                dir_table(true)
            } else {
                file_table(true, false)
            },
        )
        &&& inode.iops == INodeOps::EzFs
        &&& inode.aops == AddressSpaceOps::EzFsIomap
        &&& inode.params.typ == (if self.is_dir() {
            Type::Dir
        } else {
            Type::Reg
        })
        &&& inode.params.mode == self.mode
        &&& inode.params.size == self.file_size
        &&& inode.params.blocks == self.nblocks * 8
        &&& inode.params.nlink == self.nlink
        &&& inode.params.uid == self.uid
        &&& inode.params.gid == self.gid
        &&& self.ctime == Ok::<Timespec, Error>(inode.params.ctime)
        &&& self.mtime == Ok::<Timespec, Error>(inode.params.mtime)
        &&& self.atime == Ok::<Timespec, Error>(inode.params.atime)
        &&& inode.params.value == self
    }
}

impl Layout {
    /// When the inode `ino` can be read: it has a place in the inode store, and its size in
    /// sectors fits.
    pub open spec fn iget_defined(
        self,
        volume: Volume,
        ino: usize,
        found: Result<INodeState<EzfsInode>, Error>,
    ) -> bool {
        match (found, self.inodes_on(volume)) {
            (Ok(INodeState::Uninitialized), Fetch::Got(store)) => {
                &&& 1 <= ino <= store@.len()
                &&& store@[ino - 1].shape_error() is None ==> store@[ino - 1].nblocks * 8
                    <= u64::MAX
            },
            _ => true,
        }
    }

    /// What getting the inode `ino` comes to, where `found` is what the inode cache has.
    pub open spec fn iget_post(
        self,
        volume: Volume,
        ino: usize,
        found: Result<INodeState<EzfsInode>, Error>,
        r: IgetStep,
    ) -> bool {
        match found {
            Err(e) => r == IgetStep::Return(Err(e)),
            Ok(INodeState::Existing(inode)) => r == IgetStep::Return(Ok(inode)),
            Ok(INodeState::Uninitialized) => match self.inodes_on(volume) {
                Fetch::MapFolio(o) => r == IgetStep::MapFolio(o),
                Fetch::Fail(e) => r == IgetStep::Return(Err(e)),
                Fetch::Got(store) => match store@[ino - 1].error() {
                    Some(e) => r == IgetStep::Return(Err(e)),
                    None => r matches IgetStep::InitInode(inode) && store@[ino - 1].fills(ino, inode),
                },
            },
        }
    }
}

impl RustEzFs {
    /// Whether the inode `ino` can be got, as [`RustEzFs::iget`] requires.
    pub fn can_iget(
        &self,
        sb: &SuperBlock<EzfsSuperblock>,
        folios: &Folios,
        ino: usize,
        found: &Result<INodeState<EzfsInode>, Error>,
    ) -> (r: bool)
        ensures
            r == (sb.fs_info is Some && self.layout().iget_defined(
                Volume::of(*sb, *folios),
                ino,
                *found,
            )),
    {
        if sb.fs_info.is_none() {
            return false;
        }
        match found {
            Ok(INodeState::Uninitialized) => {},
            _ => return true,
        }
        match self.get_layout().fetch_inodes(sb, folios) {
            Fetch::Got(store) => {
                if ino < 1 || ino > store.len() {
                    return false;
                }
                let record = store[ino - 1];
                let is_known = record.mode & S_IFMT == S_IFREG || record.mode & S_IFMT == S_IFDIR;
                !is_known || u32_to_u16(record.mode).is_err() || u64_to_i64(
                    record.file_size,
                ).is_err() || record.nblocks.checked_mul(8).is_some()
            },
            _ => true,
        }
    }

    /// Gets the inode `ino` of the superblock `sb`.
    ///
    /// `found` is what came of asking the inode cache for it. An inode that the cache has is
    /// taken as it is; for a fresh one, what it is to be initialised with is read from the inode
    /// store.
    pub fn iget(
        &self,
        sb: &SuperBlock<EzfsSuperblock>,
        folios: &Folios,
        ino: usize,
        found: Result<INodeState<EzfsInode>, Error>,
    ) -> (r: IgetStep)
        requires
            sb.fs_info is Some,
            self.layout().iget_defined(Volume::of(*sb, *folios), ino, found),
        ensures
            self.layout().iget_post(Volume::of(*sb, *folios), ino, found, r),
    {
        match found {
            Err(e) => return IgetStep::Return(Err(e)),
            Ok(INodeState::Existing(inode)) => return IgetStep::Return(Ok(inode)),
            Ok(INodeState::Uninitialized) => {},
        }
        let inode_store = match self.get_layout().fetch_inodes(sb, folios) {
            Fetch::MapFolio(request) => return IgetStep::MapFolio(request),
            Fetch::Fail(e) => return IgetStep::Return(Err(e)),
            Fetch::Got(store) => store,
        };
        let ezfs_inode = inode_store[ino - 1];
        let (fops, typ) = if ezfs_inode.mode & S_IFMT == S_IFREG {
            (self.file_fops(), Type::Reg)
        } else if ezfs_inode.mode & S_IFMT == S_IFDIR {
            (self.dir_fops(), Type::Dir)
        } else {
            return IgetStep::Return(Err(Error::of(ENOENT)));
        };
        let mode: u16 = match u32_to_u16(ezfs_inode.mode) {
            Ok(mode) => mode,
            Err(e) => return IgetStep::Return(Err(e)),
        };
        let size: i64 = match u64_to_i64(ezfs_inode.file_size) {
            Ok(size) => size,
            Err(e) => return IgetStep::Return(Err(e)),
        };
        let blocks: u64 = ezfs_inode.nblocks * 8;
        let ctime = match ezfs_inode.ctime {
            Ok(t) => t,
            Err(e) => return IgetStep::Return(Err(e)),
        };
        let mtime = match ezfs_inode.mtime {
            Ok(t) => t,
            Err(e) => return IgetStep::Return(Err(e)),
        };
        let atime = match ezfs_inode.atime {
            Ok(t) => t,
            Err(e) => return IgetStep::Return(Err(e)),
        };
        IgetStep::InitInode(
            INode {
                ino,
                fops,
                iops: INodeOps::EzFs,
                aops: AddressSpaceOps::EzFsIomap,
                params: Params {
                    typ,
                    mode,
                    size,
                    blocks,
                    nlink: ezfs_inode.nlink,
                    uid: ezfs_inode.uid,
                    gid: ezfs_inode.gid,
                    ctime,
                    mtime,
                    atime,
                    value: ezfs_inode,
                },
            },
        )
    }

    /// Goes on after the fresh inode was to be initialised with `inode`: it is the inode that was
    /// asked for, and an error of initialising it is the error of getting it.
    pub fn iget_initialised(inode: INode<EzfsInode>, done: Result<(), Error>) -> (r: IgetStep)
        ensures
            r == initialised(inode, done),
    {
        match done {
            Ok(_) => IgetStep::Return(Ok(inode)),
            Err(e) => IgetStep::Return(Err(e)),
        }
    }
}

} // verus!
