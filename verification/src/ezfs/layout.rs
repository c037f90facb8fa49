//! Where things stand on the device, and how large they are.
use vstd::prelude::*;

verus! {

/// The layout of a device.
#[derive(Copy, Clone, PartialEq, Eq, Structural, Debug)]
pub struct Layout {
    /// The size of a block.
    pub block_size: usize,
    /// The number of the block that holds the superblock.
    pub superblock_block: usize,
    /// The number of the block that holds the inodes.
    pub inode_store_block: usize,
    /// The number of the root inode, which is the first of the inode store.
    pub root_ino: usize,
    /// The magic number of the superblock.
    pub magic: usize,
    /// The length of the longest file name.
    pub filename_buf_size: usize,
    /// How many entries a directory has at most.
    pub max_children: usize,
    /// The size of a directory entry.
    pub dir_entry_size: usize,
}

impl Layout {
    /// Whether the fixed blocks have an offset, and the size of a directory entry is that of a
    /// type.
    pub open spec fn wf(self) -> bool {
        &&& self.superblock_block * self.block_size <= usize::MAX
        &&& self.inode_store_block * self.block_size <= usize::MAX
        &&& 0 < self.dir_entry_size <= isize::MAX
    }

    /// Whether the layout is one that a file system can be made for.
    pub fn is_valid(&self) -> (r: bool)
        ensures
            r == self.wf(),
    {
        let sb = self.superblock_block.checked_mul(self.block_size);
        let store = self.inode_store_block.checked_mul(self.block_size);
        sb.is_some() && store.is_some() && 0 < self.dir_entry_size && self.dir_entry_size
            <= isize::MAX as usize
    }
}

} // verus!
