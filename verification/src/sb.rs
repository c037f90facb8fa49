//! Superblocks and directory cache entries, as far as the file system reads and fills them.
use vstd::prelude::*;

use crate::fs::tables::SuperOperations;

verus! {

/// How the superblocks of a file system type are keyed.
#[derive(Copy, Clone, PartialEq, Eq, Structural, Debug)]
pub enum SuperType {
    /// Each mount has a superblock of its own, without a device.
    Independent,
    /// A superblock belongs to a block device.
    BlockDev,
}

/// A directory cache entry.
#[derive(Copy, Clone, PartialEq, Eq, Structural, Debug)]
pub struct DEntry {
    /// Where the entry lies.
    pub addr: usize,
    /// The inode number of the entry's parent.
    pub parent_ino: usize,
}

/// The directory cache entry of a root directory.
#[derive(Copy, Clone, PartialEq, Eq, Structural, Debug)]
pub struct Root {
    /// The entry.
    pub dentry: DEntry,
    /// Where the superblock lies to which the root inode belongs.
    pub super_block: usize,
}

/// A superblock with data of type `D`.
pub struct SuperBlock<D> {
    /// Where the superblock lies.
    pub addr: usize,
    /// The magic number of the file system.
    pub magic: usize,
    /// The logarithm, to base two, of the block size.
    pub blocksize_bits: u8,
    /// Where the block device lies.
    pub bdev: usize,
    /// The operations on the superblock.
    pub ops: Option<SuperOperations>,
    /// What the file system keeps with the superblock.
    pub fs_info: Option<D>,
    /// The root directory.
    pub root: Option<DEntry>,
}

impl<D> SuperBlock<D> {
    /// Sets the magic number.
    pub fn set_magic(&mut self, magic: usize)
        ensures
            *final(self) == (SuperBlock { magic, ..*old(self) }),
    {
        self.magic = magic;
    }

    /// What the file system keeps with the superblock.
    pub fn data(&self) -> (r: &D)
        requires
            self.fs_info is Some,
        ensures
            *r == self.fs_info->0,
    {
        match &self.fs_info {
            Some(data) => data,
            None => {
                assert(false);
                vstd::pervasive::unreached()
            },
        }
    }
}

} // verus!
