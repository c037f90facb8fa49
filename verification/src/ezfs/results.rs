//! What the operations of the file system give, said of the calls themselves: each law speaks of
//! the arguments of a call and of what comes of it.
use vstd::prelude::*;

use crate::error::{Error, EINVAL, EIO, ENAMETOOLONG, ENOENT};
use crate::ezfs::fetch::Fetch;
use crate::ezfs::iget::IgetStep;
use crate::ezfs::layout::Layout;
use crate::ezfs::laws::lemma_first_named;
use crate::ezfs::lookup::{find_entry, first_named, LookupStep};
use crate::ezfs::mount::SuperFolio;
use crate::ezfs::record::{EzfsDirEntry, EzfsInode, EzfsSuperblock, EzfsSuperblockDisk, Folios};
use crate::ezfs::RustEzFs;
use crate::fs::file::ops::{FileOperations, Handler, OpsTable};
use crate::fs::{FileSystem, FillSuperEvent, FillSuperStep, InitRootEvent, InitRootStep};
use crate::inode::{AddressSpaceOps, INode, INodeOps, INodeState, Timespec};
use crate::mapper::{FolioRequest, Mapped, Mapper, Record};
use crate::sb::{SuperBlock, SuperType};

verus! {

/// A file system that is made for a layout has that layout, and a layout is one that a file system
/// can be made for if and only if its fixed blocks have an offset and its entries a size.
pub proof fn law_layout_is_kept(layout: Layout, valid: bool, fs: RustEzFs)
    requires
        call_ensures(Layout::is_valid, (&layout,), valid),
        valid ==> call_ensures(RustEzFs::new, (layout,), fs),
    ensures
        valid <==> layout.superblock_block * layout.block_size <= usize::MAX
            && layout.inode_store_block * layout.block_size <= usize::MAX && layout.dir_entry_size
            >= 1 && layout.dir_entry_size <= isize::MAX,
        valid ==> fs.layout() == layout && call_requires(RustEzFs::new, (layout,)),
{
}

/// The entries of a directory are those that the block of the directory holds: they are read from
/// the byte at which this block begins.
pub proof fn law_entries_of_block(
    layout: Layout,
    sb: SuperBlock<EzfsSuperblock>,
    folios: Folios,
    dir: EzfsInode,
    r: Fetch<&Vec<EzfsDirEntry>>,
)
    requires
        call_ensures(Layout::fetch_entries, (&layout, &sb, &folios, &dir), r),
    ensures
        ({
            let begin = dir.data_blk_num * layout.block_size;
            if begin > u64::MAX {
                r == Fetch::<&Vec<EzfsDirEntry>>::Fail(Error { errno: EIO })
            } else if begin > i64::MAX {
                r == Fetch::<&Vec<EzfsDirEntry>>::Fail(Error { errno: EINVAL })
            } else if !folios.entries@.contains_key(begin as i64) {
                &&& r matches Fetch::MapFolio(request)
                &&& request.offset == dir.data_blk_num * layout.block_size
                &&& request.record == Record::DirEntries
                &&& request.bdev == sb.fs_info->0.mapper.bdev
            } else {
                match folios.entries@[begin as i64] {
                    Err(e) => r == Fetch::<&Vec<EzfsDirEntry>>::Fail(e),
                    Ok(None) => r == Fetch::<&Vec<EzfsDirEntry>>::Fail(Error { errno: EIO }),
                    Ok(Some(entries)) => r matches Fetch::Got(got) && *got == entries,
                }
            }
        }),
{
}

/// Directories of different blocks are read from different places: as many blocks apart as their
/// blocks are.
pub proof fn law_directories_apart(
    layout: Layout,
    sb: SuperBlock<EzfsSuperblock>,
    folios: Folios,
    dir: EzfsInode,
    other: EzfsInode,
    request: FolioRequest,
    other_request: FolioRequest,
)
    requires
        call_ensures(
            Layout::fetch_entries,
            (&layout, &sb, &folios, &dir),
            Fetch::<&Vec<EzfsDirEntry>>::MapFolio(request),
        ),
        call_ensures(
            Layout::fetch_entries,
            (&layout, &sb, &folios, &other),
            Fetch::<&Vec<EzfsDirEntry>>::MapFolio(other_request),
        ),
    ensures
        other_request.offset - request.offset == (other.data_blk_num - dir.data_blk_num)
            * layout.block_size,
        request.offset == other_request.offset && layout.block_size > 0 ==> dir.data_blk_num
            == other.data_blk_num,
{
    let a = dir.data_blk_num as int;
    let b = other.data_blk_num as int;
    let size = layout.block_size as int;
    assert((b - a) * size == b * size - a * size) by (nonlinear_arith);
    assert(size > 0 && a * size == b * size ==> a == b) by (nonlinear_arith);
}

/// The inode store is what its block holds: it is read from the byte at which this block begins.
pub proof fn law_inodes_of_block(
    layout: Layout,
    sb: SuperBlock<EzfsSuperblock>,
    folios: Folios,
    r: Fetch<&Vec<EzfsInode>>,
)
    requires
        call_ensures(Layout::fetch_inodes, (&layout, &sb, &folios), r),
    ensures
        ({
            let begin = layout.inode_store_block * layout.block_size;
            if begin > i64::MAX {
                r == Fetch::<&Vec<EzfsInode>>::Fail(Error { errno: EINVAL })
            } else if !folios.inodes@.contains_key(begin as i64) {
                &&& r matches Fetch::MapFolio(request)
                &&& request.offset == layout.inode_store_block * layout.block_size
                &&& request.record == Record::INodes
                &&& request.bdev == sb.fs_info->0.mapper.bdev
            } else {
                match folios.inodes@[begin as i64] {
                    Err(e) => r == Fetch::<&Vec<EzfsInode>>::Fail(e),
                    Ok(None) => r == Fetch::<&Vec<EzfsInode>>::Fail(Error { errno: EIO }),
                    Ok(Some(store)) => r matches Fetch::Got(got) && *got == store,
                }
            }
        }),
{
}

/// The superblock is what its block holds: it is read from the byte at which this block begins.
pub proof fn law_superblock_of_block(
    layout: Layout,
    mapper: Mapper,
    mapped: Mapped<SuperFolio>,
    r: Fetch<&EzfsSuperblockDisk>,
)
    requires
        call_ensures(Layout::fetch_superblock, (&layout, &mapper, &mapped), r),
    ensures
        ({
            let begin = layout.superblock_block * layout.block_size;
            if begin > i64::MAX {
                r == Fetch::<&EzfsSuperblockDisk>::Fail(Error { errno: EINVAL })
            } else if !mapped@.contains_key(begin as i64) {
                &&& r matches Fetch::MapFolio(request)
                &&& request.offset == layout.superblock_block * layout.block_size
                &&& request.record == Record::SuperBlock
                &&& request.bdev == mapper.bdev
            } else {
                match mapped@[begin as i64] {
                    Err(e) => r == Fetch::<&EzfsSuperblockDisk>::Fail(e),
                    Ok(None) => r == Fetch::<&EzfsSuperblockDisk>::Fail(Error { errno: EIO }),
                    Ok(Some(disk)) => r matches Fetch::Got(got) && *got == disk,
                }
            }
        }),
{
}

/// A table that lists a directory and does nothing else.
pub open spec fn lists_only(t: FileOperations) -> bool {
    &&& t.iterate_shared == Some(Handler::ReadDir)
    &&& t.llseek is None && t.read is None && t.write is None
    &&& t.read_iter is None && t.write_iter is None
    &&& t.mmap is None && t.splice_read is None
    &&& rest_is_empty(t)
}

/// A table that seeks, reads and writes buffers, maps and splices, and does nothing else.
pub open spec fn regular_only(t: FileOperations) -> bool {
    &&& t.llseek == Some(Handler::Seek)
    &&& t.read_iter == Some(Handler::ReadIter)
    &&& t.write_iter == Some(Handler::WriteIter)
    &&& t.mmap == Some(Handler::GenericFileMmap)
    &&& t.splice_read == Some(Handler::FilemapSpliceRead)
    &&& t.iterate_shared is None && t.read is None && t.write is None
    &&& rest_is_empty(t)
}

/// Whether the slots that no table of this library fills are empty.
pub open spec fn rest_is_empty(t: FileOperations) -> bool {
    &&& t.owner is None && t.iopoll is None && t.poll is None
    &&& t.unlocked_ioctl is None && t.fop_flags == 0 && t.compat_ioctl is None
    &&& t.mmap_prepare is None && t.open is None && t.flush is None
    &&& t.release is None && t.fsync is None && t.fasync is None
    &&& t.lock is None && t.get_unmapped_area is None && t.check_flags is None
    &&& t.flock is None && t.splice_write is None && t.splice_eof is None
    &&& t.setlease is None && t.fallocate is None && t.show_fdinfo is None
    &&& t.copy_file_range is None && t.remap_file_range is None && t.fadvise is None
    &&& t.uring_cmd is None && t.uring_cmd_iopoll is None
}

/// Whether `inode` has, attribute by attribute, what the record `rec` says of the inode `ino`.
pub open spec fn same_attributes(rec: EzfsInode, ino: usize, inode: INode<EzfsInode>) -> bool {
    &&& inode.ino == ino
    &&& inode.params.size == rec.file_size
    &&& inode.params.mode == rec.mode
    &&& inode.params.blocks == 8 * rec.nblocks
    &&& inode.params.nlink == rec.nlink
    &&& inode.params.uid == rec.uid
    &&& inode.params.gid == rec.gid
    &&& rec.ctime is Ok && inode.params.ctime == rec.ctime->Ok_0
    &&& rec.mtime is Ok && inode.params.mtime == rec.mtime->Ok_0
    &&& rec.atime is Ok && inode.params.atime == rec.atime->Ok_0
    &&& inode.params.value.data_blk_num == rec.data_blk_num
    &&& inode.params.value == rec
    &&& inode.params.typ is Dir || inode.params.typ is Reg
    &&& inode.params.typ is Dir <==> rec.mode & 0o170000 == 0o040000
    &&& inode.params.typ is Reg <==> rec.mode & 0o170000 == 0o100000
    &&& inode.iops == INodeOps::EzFs
    &&& inode.aops == AddressSpaceOps::EzFsIomap
    &&& inode.fops.inner matches OpsTable::Table(t)
    &&& inode.params.typ is Dir ==> lists_only(t)
    &&& inode.params.typ is Reg ==> regular_only(t)
}

/// Why no inode can be made of the record `rec`: the first of its type, its mode, its size and its
/// times that is no good.
pub open spec fn flaw(rec: EzfsInode) -> Option<Error> {
    if rec.mode & 0o170000 != 0o040000 && rec.mode & 0o170000 != 0o100000 {
        Some(Error { errno: ENOENT })
    } else if rec.mode > 65535 || rec.file_size > i64::MAX {
        Some(Error { errno: EINVAL })
    } else if rec.ctime is Err {
        Some(rec.ctime->Err_0)
    } else if rec.mtime is Err {
        Some(rec.mtime->Err_0)
    } else if rec.atime is Err {
        Some(rec.atime->Err_0)
    } else {
        None
    }
}

/// An inode that the inode cache has is given as it is, whatever it is, and an error of the inode
/// cache is the error.
pub proof fn law_iget_takes_what_is_cached(
    fs: RustEzFs,
    sb: SuperBlock<EzfsSuperblock>,
    folios: Folios,
    ino: usize,
    found: Result<INodeState<EzfsInode>, Error>,
    r: IgetStep,
)
    requires
        call_ensures(RustEzFs::iget, (&fs, &sb, &folios, ino, found), r),
    ensures
        found matches Err(e) ==> r == IgetStep::Return(Err(e)),
        found matches Ok(INodeState::Existing(inode)) ==> r == IgetStep::Return(Ok(inode)),
        r matches IgetStep::Return(Ok(inode)) ==> found == Ok::<INodeState<EzfsInode>, Error>(
            INodeState::Existing(inode),
        ),
{
}

/// A fresh inode is initialised with what its place in the inode store says: the record at the
/// number of the inode, counted from one. Its size is the size of the file in bytes, and so on for
/// each attribute. It is refused if and only if something is wrong with the record.
pub proof fn law_iget_gives_the_record(
    fs: RustEzFs,
    sb: SuperBlock<EzfsSuperblock>,
    folios: Folios,
    ino: usize,
    store: Vec<EzfsInode>,
    r: IgetStep,
)
    requires
        call_ensures(
            RustEzFs::iget,
            (&fs, &sb, &folios, ino, Ok::<INodeState<EzfsInode>, Error>(INodeState::Uninitialized)),
            r,
        ),
        1 <= ino <= store@.len(),
        fs.layout().inode_store_block * fs.layout().block_size <= i64::MAX,
        ({
            let begin = (fs.layout().inode_store_block * fs.layout().block_size) as i64;
            folios.inodes@.contains_key(begin) && folios.inodes@[begin] == Ok::<
                Option<Vec<EzfsInode>>,
                Error,
            >(Some(store))
        }),
    ensures
        match flaw(store@[ino - 1]) {
            Some(e) => r == IgetStep::Return(Err(e)),
            None => r matches IgetStep::InitInode(inode) && same_attributes(
                store@[ino - 1],
                ino,
                inode,
            ),
        },
{
    assert(0o040000u32 != 0o100000u32);
}

/// A fresh inode that is initialised has the attributes of its record: the size of the file in
/// bytes, its blocks in sectors of which eight make a block, and the mode, the links, the owner,
/// the group and the times as they are. A directory and a regular file are told apart by the mode.
pub proof fn law_iget_keeps_the_attributes(
    fs: RustEzFs,
    sb: SuperBlock<EzfsSuperblock>,
    folios: Folios,
    ino: usize,
    begin: i64,
    store: Vec<EzfsInode>,
    inode: INode<EzfsInode>,
)
    requires
        call_ensures(
            RustEzFs::iget,
            (&fs, &sb, &folios, ino, Ok::<INodeState<EzfsInode>, Error>(INodeState::Uninitialized)),
            IgetStep::InitInode(inode),
        ),
        1 <= ino <= store@.len(),
        begin == fs.layout().inode_store_block * fs.layout().block_size,
        folios.inodes@.contains_key(begin),
        folios.inodes@[begin] == Ok::<Option<Vec<EzfsInode>>, Error>(Some(store)),
    ensures
        inode.ino == ino,
        inode.params.size == store@[ino - 1].file_size,
        inode.params.blocks == store@[ino - 1].nblocks * 8,
        inode.params.mode == store@[ino - 1].mode,
        inode.params.nlink == store@[ino - 1].nlink,
        inode.params.uid == store@[ino - 1].uid,
        inode.params.gid == store@[ino - 1].gid,
        Ok::<Timespec, Error>(inode.params.ctime) == store@[ino - 1].ctime,
        Ok::<Timespec, Error>(inode.params.mtime) == store@[ino - 1].mtime,
        Ok::<Timespec, Error>(inode.params.atime) == store@[ino - 1].atime,
        inode.params.value.data_blk_num == store@[ino - 1].data_blk_num,
        inode.params.value == store@[ino - 1],
        inode.params.typ is Dir <==> store@[ino - 1].mode & 0o170000 == 0o040000,
        inode.params.typ is Reg <==> store@[ino - 1].mode & 0o170000 == 0o100000,
        inode.params.typ is Dir ==> inode.fops.inner->Table_0.iterate_shared == Some(
            Handler::ReadDir,
        ),
        inode.params.typ is Reg ==> inode.fops.inner->Table_0.read_iter == Some(Handler::ReadIter),
{
    assert(0o040000u32 != 0o100000u32);
}

/// As long as the inode store is not there, a fresh inode asks for it, or fails for what is wrong
/// with it.
pub proof fn law_iget_needs_the_store(
    fs: RustEzFs,
    sb: SuperBlock<EzfsSuperblock>,
    folios: Folios,
    ino: usize,
    r: IgetStep,
)
    requires
        call_ensures(
            RustEzFs::iget,
            (&fs, &sb, &folios, ino, Ok::<INodeState<EzfsInode>, Error>(INodeState::Uninitialized)),
            r,
        ),
    ensures
        ({
            let begin = fs.layout().inode_store_block * fs.layout().block_size;
            if begin > i64::MAX {
                r == IgetStep::Return(Err(Error { errno: EINVAL }))
            } else if !folios.inodes@.contains_key(begin as i64) {
                r == IgetStep::MapFolio(
                    FolioRequest {
                        bdev: sb.fs_info->0.mapper.bdev,
                        record: Record::INodes,
                        offset: begin as i64,
                    },
                )
            } else {
                match folios.inodes@[begin as i64] {
                    Err(e) => r == IgetStep::Return(Err(e)),
                    Ok(None) => r == IgetStep::Return(Err(Error { errno: EIO })),
                    Ok(Some(_)) => !(r is MapFolio),
                }
            }
        }),
{
}

/// An inode that could be initialised is the inode that was asked for, and an error of initialising
/// it is the error.
pub proof fn law_iget_initialised(
    inode: INode<EzfsInode>,
    done: Result<(), Error>,
    r: IgetStep,
    looked: LookupStep,
)
    requires
        call_ensures(RustEzFs::iget_initialised, (inode, done), r),
        call_ensures(RustEzFs::lookup_initialised, (inode, done), looked),
    ensures
        done is Ok ==> r == IgetStep::Return(Ok(inode)),
        done is Ok ==> looked == LookupStep::SpliceAlias(Some(inode)),
        done matches Err(e) ==> r == IgetStep::Return(Err(e)) && looked == LookupStep::Fail(e),
{
}

/// An inode can be got whenever it need not be read, and whenever it can: it has a place in the
/// inode store, and its size in sectors fits, if it comes to that. This is what `can_iget` tests.
pub proof fn law_iget_is_possible(
    fs: RustEzFs,
    sb: SuperBlock<EzfsSuperblock>,
    folios: Folios,
    ino: usize,
    found: Result<INodeState<EzfsInode>, Error>,
    can: bool,
)
    requires
        call_ensures(RustEzFs::can_iget, (&fs, &sb, &folios, ino, &found), can),
    ensures
        can ==> call_requires(RustEzFs::iget, (&fs, &sb, &folios, ino, found)),
        sb.fs_info is None ==> !can,
        sb.fs_info is Some ==> {
            let begin = fs.layout().inode_store_block * fs.layout().block_size;
            match (found, folios.inodes@[begin as i64]) {
                (Ok(INodeState::Uninitialized), Ok(Some(store))) => if begin <= i64::MAX
                    && folios.inodes@.contains_key(begin as i64) {
                    let rec = store@[ino - 1];
                    can <==> 1 <= ino <= store@.len() && (rec.nblocks * 8 <= u64::MAX || (rec.mode
                        & 0o170000 != 0o040000 && rec.mode & 0o170000 != 0o100000) || rec.mode
                        > 65535 || rec.file_size > i64::MAX)
                } else {
                    can
                },
                _ => can,
            }
        },
{
}

/// The entry of a directory that a name stands for: the first that is active and has the name.
pub open spec fn is_first_named(entries: Seq<EzfsDirEntry>, name: Seq<u8>, j: int) -> bool {
    &&& 0 <= j < entries.len()
    &&& entries[j].active && entries[j].filename@ == name
    &&& forall|k: int| 0 <= k < j ==> !(#[trigger] entries[k].active && entries[k].filename@ == name)
}

/// The first active entry with a name is found, and none is found only where there is none.
pub proof fn law_find_entry(entries: Vec<EzfsDirEntry>, name: &[u8], r: Option<usize>)
    requires
        call_ensures(find_entry, (&entries, name), r),
    ensures
        match r {
            Some(j) => is_first_named(entries@, name@, j as int),
            None => forall|k: int|
                0 <= k < entries@.len() ==> !(#[trigger] entries@[k].active
                    && entries@[k].filename@ == name@),
        },
{
    lemma_first_named(entries@, name@, 0);
}

/// Whether the operation has the entries of the directory `dir`: they are recorded under the byte
/// at which the block of the directory begins.
pub open spec fn has_entries(
    layout: Layout,
    folios: Folios,
    dir: EzfsInode,
    entries: Vec<EzfsDirEntry>,
) -> bool {
    let begin = dir.data_blk_num * layout.block_size;
    &&& begin <= i64::MAX
    &&& folios.entries@.contains_key(begin as i64)
    &&& folios.entries@[begin as i64] == Ok::<Option<Vec<EzfsDirEntry>>, Error>(Some(entries))
}

/// Whether the operation has the inode store: it is recorded under the byte at which its block
/// begins.
pub open spec fn has_store(layout: Layout, folios: Folios, store: Vec<EzfsInode>) -> bool {
    let begin = layout.inode_store_block * layout.block_size;
    &&& begin <= i64::MAX
    &&& folios.inodes@.contains_key(begin as i64)
    &&& folios.inodes@[begin as i64] == Ok::<Option<Vec<EzfsInode>>, Error>(Some(store))
}

/// A name that an active entry has is looked up as the inode of the first such entry. The inode
/// cache of the superblock is asked for it, and an inode that the cache has is the answer, whatever
/// it is.
pub proof fn law_lookup_finds(
    fs: RustEzFs,
    sb: SuperBlock<EzfsSuperblock>,
    folios: Folios,
    parent: INode<EzfsInode>,
    name: &[u8],
    found: Option<Result<INodeState<EzfsInode>, Error>>,
    r: LookupStep,
    entries: Vec<EzfsDirEntry>,
    j: int,
)
    requires
        call_ensures(RustEzFs::lookup, (&fs, &sb, &folios, &parent, name, found), r),
        name@.len() <= fs.layout().filename_buf_size,
        has_entries(fs.layout(), folios, parent.params.value, entries),
        is_first_named(entries@, name@, j),
    ensures
        r != LookupStep::SpliceAlias(None),
        entries@[j].inode_no > usize::MAX ==> r == LookupStep::Fail(Error { errno: EINVAL }),
        entries@[j].inode_no <= usize::MAX ==> match found {
            None => r matches LookupStep::GetInode { sb: at, ino } && at == sb.addr && ino
                == entries@[j].inode_no,
            Some(Err(e)) => r == LookupStep::Fail(e),
            Some(Ok(INodeState::Existing(inode))) => r == LookupStep::SpliceAlias(Some(inode)),
            Some(Ok(INodeState::Uninitialized)) => !(r is SpliceAlias) && !(r is GetInode),
        },
{
    lemma_first_named(entries@, name@, 0);
    match first_named(entries@, name@, 0) {
        Some(k) => {
            if k < j {
                assert(!(entries@[k].active && entries@[k].filename@ == name@));
            } else if j < k {
                assert(!(entries@[j].active && entries@[j].filename@ == name@));
            }
        },
        None => {
            assert(!(entries@[j].active && entries@[j].filename@ == name@));
        },
    }
}

/// A name whose inode is fresh is looked up as what getting that inode comes to: its record is what
/// the inode is initialised with, and what is wrong with the record is the error.
pub proof fn law_lookup_reads_the_inode(
    fs: RustEzFs,
    sb: SuperBlock<EzfsSuperblock>,
    folios: Folios,
    parent: INode<EzfsInode>,
    name: &[u8],
    r: LookupStep,
    entries: Vec<EzfsDirEntry>,
    j: int,
    ino: usize,
)
    requires
        call_ensures(
            RustEzFs::lookup,
            (
                &fs,
                &sb,
                &folios,
                &parent,
                name,
                Some(Ok::<INodeState<EzfsInode>, Error>(INodeState::Uninitialized)),
            ),
            r,
        ),
        name@.len() <= fs.layout().filename_buf_size,
        has_entries(fs.layout(), folios, parent.params.value, entries),
        is_first_named(entries@, name@, j),
        entries@[j].inode_no == ino,
    ensures
        ({
            let begin = fs.layout().inode_store_block * fs.layout().block_size;
            if begin > i64::MAX {
                r == LookupStep::Fail(Error { errno: EINVAL })
            } else if !folios.inodes@.contains_key(begin as i64) {
                r == LookupStep::MapFolio(
                    FolioRequest {
                        bdev: sb.fs_info->0.mapper.bdev,
                        record: Record::INodes,
                        offset: begin as i64,
                    },
                )
            } else {
                match folios.inodes@[begin as i64] {
                    Err(e) => r == LookupStep::Fail(e),
                    Ok(None) => r == LookupStep::Fail(Error { errno: EIO }),
                    Ok(Some(store)) => 1 <= ino <= store@.len() ==> match flaw(store@[ino - 1]) {
                        Some(e) => r == LookupStep::Fail(e),
                        None => r matches LookupStep::InitInode(inode) && same_attributes(
                            store@[ino - 1],
                            ino,
                            inode,
                        ),
                    },
                }
            }
        }),
{
    lemma_first_named(entries@, name@, 0);
    match first_named(entries@, name@, 0) {
        Some(k) => {
            if k < j {
                assert(!(entries@[k].active && entries@[k].filename@ == name@));
            } else if j < k {
                assert(!(entries@[j].active && entries@[j].filename@ == name@));
            }
        },
        None => {
            assert(!(entries@[j].active && entries@[j].filename@ == name@));
        },
    }
    assert(0o040000u32 != 0o100000u32);
}

/// That there is no such name is the answer if and only if the name is not too long, the entries of
/// the directory are there, and no active entry has the name.
pub proof fn law_lookup_finds_nothing(
    fs: RustEzFs,
    sb: SuperBlock<EzfsSuperblock>,
    folios: Folios,
    parent: INode<EzfsInode>,
    name: &[u8],
    found: Option<Result<INodeState<EzfsInode>, Error>>,
    r: LookupStep,
)
    requires
        call_ensures(RustEzFs::lookup, (&fs, &sb, &folios, &parent, name, found), r),
    ensures
        r == LookupStep::SpliceAlias(None) <==> {
            &&& name@.len() <= fs.layout().filename_buf_size
            &&& exists|entries: Vec<EzfsDirEntry>|
                {
                    &&& #[trigger] has_entries(fs.layout(), folios, parent.params.value, entries)
                    &&& forall|k: int|
                        0 <= k < entries@.len() ==> !(#[trigger] entries@[k].active
                            && entries@[k].filename@ == name@)
                }
        },
{
    let dir = parent.params.value;
    let begin = dir.data_blk_num * fs.layout().block_size;
    if begin <= i64::MAX && folios.entries@.contains_key(begin as i64) {
        match folios.entries@[begin as i64] {
            Ok(Some(entries)) => {
                lemma_first_named(entries@, name@, 0);
                assert(has_entries(fs.layout(), folios, dir, entries));
            },
            _ => {},
        }
    }
}

/// A name that is too long is refused before anything is read. As long as the entries of the
/// directory are not there, a lookup asks for the block of the directory, or fails for what is
/// wrong with it.
pub proof fn law_lookup_needs_the_entries(
    fs: RustEzFs,
    sb: SuperBlock<EzfsSuperblock>,
    folios: Folios,
    parent: INode<EzfsInode>,
    name: &[u8],
    found: Option<Result<INodeState<EzfsInode>, Error>>,
    r: LookupStep,
)
    requires
        call_ensures(RustEzFs::lookup, (&fs, &sb, &folios, &parent, name, found), r),
    ensures
        ({
            let begin = parent.params.value.data_blk_num * fs.layout().block_size;
            if name@.len() > fs.layout().filename_buf_size {
                r == LookupStep::Fail(Error { errno: ENAMETOOLONG })
            } else if begin > u64::MAX {
                r == LookupStep::Fail(Error { errno: EIO })
            } else if begin > i64::MAX {
                r == LookupStep::Fail(Error { errno: EINVAL })
            } else if !folios.entries@.contains_key(begin as i64) {
                r == LookupStep::MapFolio(
                    FolioRequest {
                        bdev: sb.fs_info->0.mapper.bdev,
                        record: Record::DirEntries,
                        offset: begin as i64,
                    },
                )
            } else {
                match folios.entries@[begin as i64] {
                    Err(e) => r == LookupStep::Fail(e),
                    Ok(None) => r == LookupStep::Fail(Error { errno: EIO }),
                    Ok(Some(_)) => true,
                }
            }
        }),
{
}

/// A name can be looked up if and only if its inode can be got, where it comes to that.
pub proof fn law_lookup_is_possible(
    fs: RustEzFs,
    sb: SuperBlock<EzfsSuperblock>,
    folios: Folios,
    parent: INode<EzfsInode>,
    name: &[u8],
    found: Option<Result<INodeState<EzfsInode>, Error>>,
    can: bool,
    entries: Vec<EzfsDirEntry>,
    j: int,
    ino: usize,
    can_get: bool,
)
    requires
        call_ensures(RustEzFs::can_lookup, (&fs, &sb, &folios, &parent, name, &found), can),
        sb.fs_info is Some,
    ensures
        can ==> call_requires(RustEzFs::lookup, (&fs, &sb, &folios, &parent, name, found)),
        found is None ==> can,
        name@.len() > fs.layout().filename_buf_size ==> can,
        (forall|es: Vec<EzfsDirEntry>, k: int|
            has_entries(fs.layout(), folios, parent.params.value, es) ==> !#[trigger] is_first_named(
                es@,
                name@,
                k,
            )) ==> can,
        name@.len() <= fs.layout().filename_buf_size && has_entries(
            fs.layout(),
            folios,
            parent.params.value,
            entries,
        ) && is_first_named(entries@, name@, j) && entries@[j].inode_no == ino && found is Some
            && call_ensures(RustEzFs::can_iget, (&fs, &sb, &folios, ino, &found->0), can_get) ==> can
            == can_get,
{
    let dir = parent.params.value;
    let begin = dir.data_blk_num * fs.layout().block_size;
    if begin <= i64::MAX && folios.entries@.contains_key(begin as i64) {
        match folios.entries@[begin as i64] {
            Ok(Some(es)) => {
                lemma_first_named(es@, name@, 0);
                assert(has_entries(fs.layout(), folios, dir, es));
                match first_named(es@, name@, 0) {
                    Some(k) => {
                        assert(is_first_named(es@, name@, k));
                        if is_first_named(es@, name@, j) {
                            if k < j {
                                assert(!(es@[k].active && es@[k].filename@ == name@));
                            } else if j < k {
                                assert(!(es@[j].active && es@[j].filename@ == name@));
                            }
                        }
                    },
                    None => {
                        if is_first_named(es@, name@, j) {
                            assert(!(es@[j].active && es@[j].filename@ == name@));
                        }
                    },
                }
            },
            _ => {},
        }
    }
}

/// A superblock is filled from its device. Without a device it cannot be; with one, the superblock
/// of the device is read, and it is what is kept, with the mapper of the device, if and only if it
/// has the magic number.
pub proof fn law_fill_super(
    fs: RustEzFs,
    sb: &mut SuperBlock<EzfsSuperblock>,
    mapped: Mapped<SuperFolio>,
    mapper: Option<Mapper>,
    r: FillSuperStep<EzfsSuperblock>,
)
    requires
        call_ensures(
            <RustEzFs as FileSystem>::fill_super,
            (&fs, sb, &mapped, FillSuperEvent::<EzfsSuperblock>::Ready(mapper)),
            r,
        ),
    ensures
        *final(sb) == *old(sb),
        mapper is None ==> r == FillSuperStep::<EzfsSuperblock>::Return(
            Err(Error { errno: EINVAL }),
        ),
        mapper matches Some(m) ==> {
            let begin = fs.layout().superblock_block * fs.layout().block_size;
            if begin > i64::MAX {
                r == FillSuperStep::<EzfsSuperblock>::Return(Err(Error { errno: EINVAL }))
            } else if !mapped@.contains_key(begin as i64) {
                r == FillSuperStep::<EzfsSuperblock>::MapFolio(
                    FolioRequest {
                        bdev: m.bdev,
                        record: Record::SuperBlock,
                        offset: begin as i64,
                    },
                )
            } else {
                match mapped@[begin as i64] {
                    Err(e) => r == FillSuperStep::<EzfsSuperblock>::Return(Err(e)),
                    Ok(None) => r == FillSuperStep::<EzfsSuperblock>::Return(
                        Err(Error { errno: EIO }),
                    ),
                    Ok(Some(disk)) => if disk.magic == fs.layout().magic {
                        &&& r matches FillSuperStep::Allocate(data)
                        &&& data.disk == disk
                        &&& data.mapper == m
                    } else {
                        r == FillSuperStep::<EzfsSuperblock>::Return(Err(Error { errno: EINVAL }))
                    },
                }
            }
        },
{
}

/// Once there is room for its data the superblock has the magic number, and nothing else of it
/// changes; where there is none, it does not change.
pub proof fn law_fill_super_ends(
    fs: RustEzFs,
    sb: &mut SuperBlock<EzfsSuperblock>,
    mapped: Mapped<SuperFolio>,
    allocated: Result<EzfsSuperblock, Error>,
    r: FillSuperStep<EzfsSuperblock>,
)
    requires
        call_ensures(
            <RustEzFs as FileSystem>::fill_super,
            (&fs, sb, &mapped, FillSuperEvent::Allocated(allocated)),
            r,
        ),
    ensures
        r == FillSuperStep::Return(allocated),
        allocated is Err ==> *final(sb) == *old(sb),
        allocated is Ok ==> {
            &&& final(sb).magic == fs.layout().magic
            &&& final(sb).addr == old(sb).addr
            &&& final(sb).blocksize_bits == old(sb).blocksize_bits
            &&& final(sb).bdev == old(sb).bdev
            &&& final(sb).ops == old(sb).ops
            &&& final(sb).fs_info == old(sb).fs_info
            &&& final(sb).root == old(sb).root
        },
{
}

/// The root directory is made of the root inode of the superblock: of what the inode cache has, or
/// of the record of the root inode once it has been initialised with that. Every error on the way
/// is the error.
pub proof fn law_init_root(
    fs: RustEzFs,
    sb: SuperBlock<EzfsSuperblock>,
    folios: Folios,
    event: InitRootEvent<EzfsInode>,
    r: InitRootStep<EzfsInode>,
)
    requires
        call_ensures(<RustEzFs as FileSystem>::init_root, (&fs, &sb, &folios, event), r),
    ensures
        match event {
            InitRootEvent::Begin => r matches InitRootStep::GetInode { sb: at, ino } && at == sb.addr
                && ino == fs.layout().root_ino,
            InitRootEvent::Found(Err(e)) => r == InitRootStep::<EzfsInode>::Return(Err(e)),
            InitRootEvent::Found(Ok(INodeState::Existing(inode))) => r == InitRootStep::MakeRoot(
                inode,
            ),
            InitRootEvent::Found(Ok(INodeState::Uninitialized)) => {
                let begin = fs.layout().inode_store_block * fs.layout().block_size;
                let root = fs.layout().root_ino;
                if begin > i64::MAX {
                    r == InitRootStep::<EzfsInode>::Return(Err(Error { errno: EINVAL }))
                } else if !folios.inodes@.contains_key(begin as i64) {
                    r == InitRootStep::<EzfsInode>::MapFolio(
                        FolioRequest {
                            bdev: sb.fs_info->0.mapper.bdev,
                            record: Record::INodes,
                            offset: begin as i64,
                        },
                    )
                } else {
                    match folios.inodes@[begin as i64] {
                        Err(e) => r == InitRootStep::<EzfsInode>::Return(Err(e)),
                        Ok(None) => r == InitRootStep::<EzfsInode>::Return(
                            Err(Error { errno: EIO }),
                        ),
                        Ok(Some(store)) => 1 <= root <= store@.len() ==> match flaw(
                            store@[root - 1],
                        ) {
                            Some(e) => r == InitRootStep::<EzfsInode>::Return(Err(e)),
                            None => r matches InitRootStep::InitInode(inode) && same_attributes(
                                store@[root - 1],
                                root,
                                inode,
                            ),
                        },
                    }
                }
            },
            InitRootEvent::Initialised(inode, Ok(_)) => r == InitRootStep::MakeRoot(inode),
            InitRootEvent::Initialised(_, Err(e)) => r == InitRootStep::<EzfsInode>::Return(Err(e)),
            InitRootEvent::Made(made) => r == InitRootStep::<EzfsInode>::Return(made),
        },
{
    assert(0o040000u32 != 0o100000u32);
}

/// Making the root directory goes on from every event, except that a fresh root inode must be one
/// that can be got.
pub proof fn law_init_root_is_possible(
    fs: RustEzFs,
    sb: SuperBlock<EzfsSuperblock>,
    folios: Folios,
    event: InitRootEvent<EzfsInode>,
    can: bool,
)
    requires
        event matches InitRootEvent::Found(found) ==> can && call_ensures(
            RustEzFs::can_iget,
            (&fs, &sb, &folios, fs.layout().root_ino, &found),
            can,
        ),
    ensures
        call_requires(<RustEzFs as FileSystem>::init_root, (&fs, &sb, &folios, event)),
{
}

/// The file system is called `rustezfs` and belongs to block devices.
pub proof fn law_type_of_file_system(
    fs: RustEzFs,
    name: &'static str,
    t: SuperType,
    unspecified: bool,
)
    requires
        call_ensures(<RustEzFs as FileSystem>::name, (&fs,), name),
        call_ensures(<RustEzFs as FileSystem>::super_type, (&fs,), t),
        call_ensures(<RustEzFs as FileSystem>::is_unspecified, (&fs,), unspecified),
    ensures
        name@ == seq!['r', 'u', 's', 't', 'e', 'z', 'f', 's'],
        t == SuperType::BlockDev,
        !unspecified,
{
    reveal_strlit("rustezfs");
}

} // verus!
