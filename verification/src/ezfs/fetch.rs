//! Finding the superblock, the inode store and the entries of a directory on the device.
use vstd::prelude::*;

use crate::error::{to_i64_spec, u64_to_i64, usize_to_i64, Error, EIO};
use crate::ezfs::layout::Layout;
use crate::ezfs::record::{
    EzfsDirEntry, EzfsInode, EzfsSuperblock, EzfsSuperblockDisk, Folios, Volume,
};
use crate::mapper::{FolioRequest, Mapped, Mapper, Record};
use crate::sb::SuperBlock;

verus! {

/// What comes of looking for a record on the device.
pub enum Fetch<T> {
    /// This folio has to be mapped first.
    MapFolio(FolioRequest),
    /// There is no such record.
    Fail(Error),
    /// The record.
    Got(T),
}

/// What a device holds, as far as it was mapped: the outcome at each offset.
pub type Outcomes<T> = Map<i64, Result<Option<T>, Error>>;

/// The record at an offset. It is an I/O error if the folio there does not hold one.
pub open spec fn record_at<T>(
    mapper: Mapper,
    outcomes: Outcomes<T>,
    record: Record,
    offset: Result<i64, Error>,
) -> Fetch<T> {
    match offset {
        Err(e) => Fetch::Fail(e),
        Ok(o) => if !outcomes.contains_key(o) {
            Fetch::MapFolio(mapper.request(record, o))
        } else {
            match outcomes[o] {
                Err(e) => Fetch::Fail(e),
                Ok(None) => Fetch::Fail(Error::of(EIO)),
                Ok(Some(t)) => Fetch::Got(t),
            }
        },
    }
}

/// Whether `r` is `s`, with the record by reference.
pub open spec fn by_reference<T>(r: Fetch<&T>, s: Fetch<T>) -> bool {
    match r {
        Fetch::MapFolio(request) => s == Fetch::<T>::MapFolio(request),
        Fetch::Fail(e) => s == Fetch::<T>::Fail(e),
        Fetch::Got(t) => s == Fetch::Got(*t),
    }
}

/// Looks for the record at an offset.
fn fetch<'a, T>(
    mapper: &Mapper,
    mapped: &'a Mapped<Option<T>>,
    record: Record,
    offset: Result<i64, Error>,
) -> (r: Fetch<&'a T>)
    ensures
        by_reference(r, record_at(*mapper, mapped@, record, offset)),
{
    match offset {
        Err(e) => Fetch::Fail(e),
        Ok(offset) => match mapped.outcome(offset) {
            None => Fetch::MapFolio(mapper.mapped_folio(record, offset)),
            Some(Err(e)) => Fetch::Fail(*e),
            Some(Ok(None)) => Fetch::Fail(Error::of(EIO)),
            Some(Ok(Some(t))) => Fetch::Got(t),
        },
    }
}

/// The offset of the block with the number `block` and the size `size`, where `block` comes from
/// the device: it is an I/O error if the offset overflows.
pub open spec fn data_offset(block: u64, size: usize) -> Result<i64, Error> {
    if block * size > u64::MAX {
        Err(Error::of(EIO))
    } else {
        to_i64_spec(block * size)
    }
}

impl Layout {
    /// The superblock of the device of `mapper`.
    pub open spec fn superblock_on(
        self,
        mapper: Mapper,
        outcomes: Outcomes<EzfsSuperblockDisk>,
    ) -> Fetch<EzfsSuperblockDisk> {
        record_at(
            mapper,
            outcomes,
            Record::SuperBlock,
            to_i64_spec(self.superblock_block * self.block_size),
        )
    }

    /// The inode store of the device.
    pub open spec fn inodes_on(self, volume: Volume) -> Fetch<Vec<EzfsInode>> {
        record_at(
            volume.mapper,
            volume.folios.inodes@,
            Record::INodes,
            to_i64_spec(self.inode_store_block * self.block_size),
        )
    }

    /// The entries of a directory.
    pub open spec fn entries_on(self, volume: Volume, dir: EzfsInode) -> Fetch<Vec<EzfsDirEntry>> {
        record_at(
            volume.mapper,
            volume.folios.entries@,
            Record::DirEntries,
            data_offset(dir.data_blk_num, self.block_size),
        )
    }

    /// The request for the inode store.
    pub open spec fn inodes_request(self, volume: Volume) -> FolioRequest {
        volume.mapper.request(
            Record::INodes,
            to_i64_spec(self.inode_store_block * self.block_size)->Ok_0,
        )
    }

    /// The request for the entries of a directory.
    pub open spec fn entries_request(self, volume: Volume, dir: EzfsInode) -> FolioRequest {
        volume.mapper.request(
            Record::DirEntries,
            data_offset(dir.data_blk_num, self.block_size)->Ok_0,
        )
    }

    /// Looks for the superblock of the device of `mapper`.
    pub fn fetch_superblock<'a>(
        &self,
        mapper: &Mapper,
        mapped: &'a Mapped<Option<EzfsSuperblockDisk>>,
    ) -> (r: Fetch<&'a EzfsSuperblockDisk>)
        requires
            self.wf(),
        ensures
            by_reference(r, self.superblock_on(*mapper, mapped@)),
    {
        fetch(
            mapper,
            mapped,
            Record::SuperBlock,
            usize_to_i64(self.superblock_block * self.block_size),
        )
    }

    /// Looks for the inode store of the device of `sb`.
    pub fn fetch_inodes<'a>(&self, sb: &SuperBlock<EzfsSuperblock>, folios: &'a Folios) -> (r: Fetch<
        &'a Vec<EzfsInode>,
    >)
        requires
            self.wf(),
            sb.fs_info is Some,
        ensures
            by_reference(r, self.inodes_on(Volume::of(*sb, *folios))),
    {
        fetch(
            &sb.data().mapper,
            &folios.inodes,
            Record::INodes,
            usize_to_i64(self.inode_store_block * self.block_size),
        )
    }

    /// Looks for the entries of a directory on the device of `sb`.
    pub fn fetch_entries<'a>(
        &self,
        sb: &SuperBlock<EzfsSuperblock>,
        folios: &'a Folios,
        dir: &EzfsInode,
    ) -> (r: Fetch<&'a Vec<EzfsDirEntry>>)
        requires
            sb.fs_info is Some,
        ensures
            by_reference(r, self.entries_on(Volume::of(*sb, *folios), *dir)),
    {
        let offset = match dir.data_blk_num.checked_mul(self.block_size as u64) {
            None => Err(Error::of(EIO)),
            Some(offset) => u64_to_i64(offset),
        };
        fetch(&sb.data().mapper, &folios.entries, Record::DirEntries, offset)
    }
}

/// Whether an operation maps the entries of the directory `dir` and then the inode store: it has
/// mapped nothing at first, then the entries, then both.
pub open spec fn maps_in_turn(
    layout: Layout,
    none: Volume,
    some: Volume,
    all: Volume,
    dir: EzfsInode,
    entries: Vec<EzfsDirEntry>,
    store: Vec<EzfsInode>,
) -> bool {
    let first = layout.entries_request(none, dir).offset;
    let second = layout.inodes_request(none).offset;
    &&& data_offset(dir.data_blk_num, layout.block_size) is Ok
    &&& to_i64_spec(layout.inode_store_block * layout.block_size) is Ok
    &&& (some.sb, some.mapper) == (none.sb, none.mapper)
    &&& (all.sb, all.mapper) == (none.sb, none.mapper)
    &&& none.folios.entries@ == Outcomes::<Vec<EzfsDirEntry>>::empty()
    &&& none.folios.inodes@ == Outcomes::<Vec<EzfsInode>>::empty()
    &&& some.folios.entries@ == none.folios.entries@.insert(first, Ok(Some(entries)))
    &&& some.folios.inodes@ == none.folios.inodes@
    &&& all.folios.entries@ == some.folios.entries@
    &&& all.folios.inodes@ == some.folios.inodes@.insert(second, Ok(Some(store)))
}

} // verus!
