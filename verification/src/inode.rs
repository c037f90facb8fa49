//! Inodes, as far as the file system reads and fills them.
use vstd::prelude::*;

use crate::fs::file::ops::Ops;

verus! {

/// A point in time.
#[derive(Copy, Clone, PartialEq, Eq, Structural, Debug)]
pub struct Timespec {
    /// Seconds since the epoch.
    pub secs: i64,
    /// Nanoseconds within the second.
    pub nsecs: u32,
}

/// The type of an inode.
#[derive(Debug)]
pub enum Type {
    /// Named pipe (first-in, first-out).
    Fifo,
    /// Character device, with its major and minor number.
    Chr(u32, u32),
    /// Directory.
    Dir,
    /// Block device, with its major and minor number.
    Blk(u32, u32),
    /// Regular file.
    Reg,
    /// Symbolic link, with its target where that is held inline.
    Lnk(Option<Vec<u8>>),
    /// Named unix-domain socket.
    Sock,
}

/// The inode operations that an inode can have.
#[derive(Copy, Clone, PartialEq, Eq, Structural, Debug)]
pub enum INodeOps {
    /// Those of the file system in [`crate::ezfs`].
    EzFs,
}

/// The address space operations that an inode can have.
#[derive(Copy, Clone, PartialEq, Eq, Structural, Debug)]
pub enum AddressSpaceOps {
    /// Those that go through the block mapping of the file system in [`crate::ezfs`].
    EzFsIomap,
}

/// What an inode is filled with when it is read for the first time.
pub struct Params<D> {
    /// The type of the inode.
    pub typ: Type,
    /// Access mode and file type bits.
    pub mode: u16,
    /// Size in bytes.
    pub size: i64,
    /// Number of 512-byte sectors.
    pub blocks: u64,
    /// Number of hard links.
    pub nlink: u32,
    /// Owner.
    pub uid: u32,
    /// Group.
    pub gid: u32,
    /// Time of the last status change.
    pub ctime: Timespec,
    /// Time of the last modification.
    pub mtime: Timespec,
    /// Time of the last access.
    pub atime: Timespec,
    /// What the file system keeps with the inode.
    pub value: D,
}

/// An initialised inode.
pub struct INode<D> {
    /// The inode number.
    pub ino: usize,
    /// The operations on files of this inode.
    pub fops: Ops<D>,
    /// The operations on the inode.
    pub iops: INodeOps,
    /// The operations on the cached pages of the inode.
    pub aops: AddressSpaceOps,
    /// The attributes of the inode.
    pub params: Params<D>,
}

impl<D> INode<D> {
    /// The inode number.
    pub fn ino(&self) -> (r: usize)
        ensures
            r == self.ino,
    {
        self.ino
    }

    /// The number of 512-byte sectors.
    pub fn blocks(&self) -> (r: u64)
        ensures
            r == self.params.blocks,
    {
        self.params.blocks
    }

    /// What the file system keeps with the inode.
    pub fn data(&self) -> (r: &D)
        ensures
            *r == self.params.value,
    {
        &self.params.value
    }
}

/// What the inode cache has under a number.
pub enum INodeState<D> {
    /// An inode that is already initialised.
    Existing(INode<D>),
    /// A fresh inode, which is yet to be initialised.
    Uninitialized,
}

} // verus!
