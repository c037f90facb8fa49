//! The records on the device.
use vstd::prelude::*;

use crate::error::Error;
use crate::inode::Timespec;
use crate::mapper::{Mapped, Mapper};
use crate::sb::SuperBlock;

verus! {

/// The superblock of a device.
#[derive(Copy, Clone, PartialEq, Eq, Structural, Debug)]
pub struct EzfsSuperblockDisk {
    /// The magic number.
    pub magic: u64,
}

/// An inode of the inode store.
#[derive(Copy, Clone, Debug)]
pub struct EzfsInode {
    /// Access mode and file type bits.
    pub mode: u32,
    /// Owner.
    pub uid: u32,
    /// Group.
    pub gid: u32,
    /// Number of hard links.
    pub nlink: u32,
    /// The number of the first block of the file, zero if it has none.
    pub data_blk_num: u64,
    /// The size of the file in bytes.
    pub file_size: u64,
    /// The number of blocks of the file.
    pub nblocks: u64,
    /// Time of the last status change, or why there is none.
    pub ctime: Result<Timespec, Error>,
    /// Time of the last modification, or why there is none.
    pub mtime: Result<Timespec, Error>,
    /// Time of the last access, or why there is none.
    pub atime: Result<Timespec, Error>,
}

/// A directory entry.
pub struct EzfsDirEntry {
    /// The number of the inode that the entry names.
    pub inode_no: u64,
    /// Whether the entry is in use.
    pub active: bool,
    /// The name.
    pub filename: Vec<u8>,
}

/// What is kept with a mounted file system.
#[derive(Copy, Clone, PartialEq, Eq, Structural, Debug)]
pub struct EzfsSuperblock {
    /// The superblock of the device.
    pub disk: EzfsSuperblockDisk,
    /// The mapper of the device that the superblock was read with.
    pub mapper: Mapper,
}

impl EzfsSuperblock {
    /// What is kept with a file system that was read with the given mapper.
    pub fn new(disk: EzfsSuperblockDisk, mapper: Mapper) -> (r: Self)
        ensures
            r == (EzfsSuperblock { disk, mapper }),
    {
        EzfsSuperblock { disk, mapper }
    }
}

/// What an operation on a mounted file system has mapped so far: for each offset the record that
/// the folio holds, `None` if it holds no such record, or the error of mapping it.
///
/// The records of one operation only: each begins with [`Folios::new`].
pub struct Folios {
    /// The folios that were mapped as inode stores.
    pub inodes: Mapped<Option<Vec<EzfsInode>>>,
    /// The folios that were mapped as entries of directories.
    pub entries: Mapped<Option<Vec<EzfsDirEntry>>>,
}

impl Folios {
    /// What an operation begins with: nothing has been mapped.
    pub fn new() -> (r: Self)
        ensures
            r.inodes@ == Map::<i64, Result<Option<Vec<EzfsInode>>, Error>>::empty(),
            r.entries@ == Map::<i64, Result<Option<Vec<EzfsDirEntry>>, Error>>::empty(),
    {
        Folios { inodes: Mapped::new(), entries: Mapped::new() }
    }
}

/// A mounted file system as an operation sees it: its superblock, its device, and what the
/// operation has mapped of the device so far.
pub struct Volume {
    /// Where the superblock lies.
    pub sb: usize,
    /// The mapper that is kept with the superblock.
    pub mapper: Mapper,
    /// What the operation has mapped.
    pub folios: Folios,
}

impl Volume {
    /// What an operation on `sb` sees that has mapped `folios`.
    pub open spec fn of(sb: SuperBlock<EzfsSuperblock>, folios: Folios) -> Volume {
        Volume { sb: sb.addr, mapper: sb.fs_info->0.mapper, folios }
    }
}

} // verus!
