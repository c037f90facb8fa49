//! What holds between the operations of the file system.
use vstd::prelude::*;

use crate::error::{to_i64_spec, Error, EIO};
use crate::ezfs::fetch::{data_offset, maps_in_turn, record_at, Fetch, Outcomes};
use crate::ezfs::iget::{initialised, IgetStep};
use crate::ezfs::layout::Layout;
use crate::ezfs::listing::lemma_first_active;
use crate::ezfs::lookup::{first_named, lookup_step, LookupStep, Named};
use crate::ezfs::map::{block_of, device_addr, mapping, mapping_result};
use crate::ezfs::mount::root_step;
use crate::ezfs::read_dir::answered;
use crate::ezfs::record::{
    EzfsDirEntry, EzfsInode, EzfsSuperblock, EzfsSuperblockDisk, Folios, Volume,
};
use crate::ezfs::RustEzFs;
use crate::fs::file::dir::{DirEmitter, DirEntryType};
use crate::fs::file::ops::{
    dir_table, file_table, Operations, OpsTable, ReadDirCursor, ReadDirEventView, ReadDirStepView,
    SeekStep,
};
use crate::fs::file::{File, LlseekCall, Whence};
use crate::fs::mode::{S_IFDIR, S_IFREG};
use crate::fs::tables::{mounted, own_mapper, MountEvent, SuperOperations};
use crate::fs::{FillSuperEvent, FillSuperStep, InitRootStep};
use crate::inode::{INode, INodeState};
use crate::iomap::{Mapping, WRITE};
use crate::mapper::{Mapper, Record};
use crate::sb::{SuperBlock, SuperType};
use vstd::arithmetic::power2::{lemma_pow2_pos, pow2};
use vstd::bits::lemma_u64_shl_is_mul;
use vstd::std_specs::convert::{FromSpec, TryFromSpec};

verus! {

/// What the search for a name gives: the first active entry that has the name.
pub(crate) proof fn lemma_first_named(entries: Seq<EzfsDirEntry>, name: Seq<u8>, from: int)
    requires
        0 <= from,
    ensures
        match first_named(entries, name, from) {
            Some(j) => {
                &&& from <= j < entries.len()
                &&& entries[j].active && entries[j].filename@ == name
                &&& forall|k: int|
                    from <= k < j ==> !(#[trigger] entries[k].active && entries[k].filename@
                        == name)
            },
            None => forall|k: int|
                from <= k < entries.len() ==> !(#[trigger] entries[k].active
                    && entries[k].filename@ == name),
        },
    decreases entries.len() - from,
{
    if from < entries.len() && !(entries[from].active && entries[from].filename@ == name) {
        lemma_first_named(entries, name, from + 1);
    }
}

/// A name that is not too long is absent from a directory if and only if no active entry has it.
pub proof fn law_absent(
    layout: Layout,
    volume: Volume,
    dir: EzfsInode,
    entries: Vec<EzfsDirEntry>,
    name: Seq<u8>,
)
    requires
        layout.entries_on(volume, dir) == Fetch::Got(entries),
        name.len() <= layout.filename_buf_size,
    ensures
        layout.named(volume, dir, name) == Named::Absent <==> forall|k: int|
            0 <= k < entries@.len() ==> !(#[trigger] entries@[k].active && entries@[k].filename@
                == name),
{
    lemma_first_named(entries@, name, 0);
}

/// What a listing shows is found: a name that is that of one active entry only is looked up as
/// the inode of that entry, which is the inode number that a listing hands out with the name.
pub proof fn law_listed_name_is_found(
    layout: Layout,
    volume: Volume,
    dir: EzfsInode,
    entries: Vec<EzfsDirEntry>,
    store: Vec<EzfsInode>,
    j: int,
    pos: int,
)
    requires
        layout.entries_on(volume, dir) == Fetch::Got(entries),
        0 <= j < entries@.len(),
        entries@[j].active,
        entries@[j].filename@.len() <= layout.filename_buf_size,
        entries@[j].inode_no <= usize::MAX,
        forall|k: int|
            0 <= k < entries@.len() && k != j && #[trigger] entries@[k].active
                ==> entries@[k].filename@ != entries@[j].filename@,
    ensures
        ({
            let record = layout.record(entries@, store@, j, pos);
            layout.named(volume, dir, record.name) == Named::Present(record.ino as usize)
        }),
{
    lemma_first_named(entries@, entries@[j].filename@, 0);
}

/// The type that a listing shows for an entry is the type that its inode gets when it is read,
/// provided that the root inode has the number one.
pub proof fn law_types_agree(
    layout: Layout,
    entry: EzfsDirEntry,
    store: Seq<EzfsInode>,
    inode: INode<EzfsInode>,
)
    requires
        layout.root_ino == 1,
        1 <= entry.inode_no <= usize::MAX,
        store[entry.inode_no - 1].error() is None,
        store[entry.inode_no - 1].fills(entry.inode_no as usize, inode),
    ensures
        layout.entry_type(entry, store) == DirEntryType::from_spec(&inode.params.typ),
{
    assert(S_IFDIR != S_IFREG);
}

/// An inode that was read has the operations that go with its type: those of a directory, or those
/// of a regular file, and never both.
pub proof fn law_operations_fit(record: EzfsInode, ino: usize, inode: INode<EzfsInode>)
    requires
        record.error() is None,
        record.fills(ino, inode),
    ensures
        inode.params.typ is Dir <==> inode.fops.inner == OpsTable::Table(dir_table(true)),
        inode.params.typ is Reg <==> inode.fops.inner == OpsTable::Table(file_table(true, false)),
        inode.params.typ is Dir || inode.params.typ is Reg,
{
}

/// A folio that was asked for is not asked for again once the outcome of mapping it is recorded,
/// and what was found before is still found.
pub proof fn law_mapping_progresses<T>(
    mapper: Mapper,
    outcomes: Outcomes<T>,
    record: Record,
    asked: i64,
    outcome: Result<Option<T>, Error>,
    offset: Result<i64, Error>,
)
    requires
        !outcomes.contains_key(asked),
    ensures
        ({
            let more = outcomes.insert(asked, outcome);
            &&& record_at(mapper, more, record, offset) != Fetch::<T>::MapFolio(
                mapper.request(record, asked),
            )
            &&& !(record_at(mapper, outcomes, record, offset) is MapFolio) ==> record_at(
                mapper,
                more,
                record,
                offset,
            ) == record_at(mapper, outcomes, record, offset)
        }),
{
}

/// Nothing that an earlier operation mapped is used: an operation that begins, with nothing
/// recorded, asks for every folio that it needs.
pub proof fn law_operations_map_anew(
    layout: Layout,
    volume: Volume,
    ino: usize,
    dir: EzfsInode,
    name: Seq<u8>,
    emitter: DirEmitter,
    from: usize,
    store_offset: i64,
    dir_offset: i64,
    got: IgetStep,
    looked: LookupStep,
)
    requires
        volume.folios.inodes@ == Map::<i64, Result<Option<Vec<EzfsInode>>, Error>>::empty(),
        volume.folios.entries@ == Map::<i64, Result<Option<Vec<EzfsDirEntry>>, Error>>::empty(),
        to_i64_spec(layout.inode_store_block * layout.block_size) == Ok::<i64, Error>(store_offset),
        data_offset(dir.data_blk_num, layout.block_size) == Ok::<i64, Error>(dir_offset),
        layout.iget_post(volume, ino, Ok(INodeState::Uninitialized), got),
        name.len() <= layout.filename_buf_size,
        layout.lookup_post(volume, dir, name, None, looked),
    ensures
        got == IgetStep::MapFolio(volume.mapper.request(Record::INodes, store_offset)),
        looked == LookupStep::MapFolio(volume.mapper.request(Record::DirEntries, dir_offset)),
        layout.slot_step(volume, dir, emitter, from) == (ReadDirStepView::MapFolio {
            request: volume.mapper.request(Record::DirEntries, dir_offset),
            cursor: ReadDirCursor::Slot(from),
        }),
{
}

/// A lookup that begins with nothing mapped asks for the entries of the directory. With them it
/// knows whether the name is there, and asks the inode cache of the superblock for its inode. If
/// that is fresh, it asks for the inode store, and with it initialises the inode, or fails for what
/// is wrong with it.
pub proof fn law_lookup_from_nothing(
    layout: Layout,
    none: Volume,
    some: Volume,
    all: Volume,
    dir: EzfsInode,
    entries: Vec<EzfsDirEntry>,
    store: Vec<EzfsInode>,
    name: Seq<u8>,
    steps: (LookupStep, LookupStep, LookupStep, LookupStep),
)
    requires
        maps_in_turn(layout, none, some, all, dir, entries, store),
        name.len() <= layout.filename_buf_size,
        layout.lookup_post(none, dir, name, None, steps.0),
        layout.lookup_post(some, dir, name, None, steps.1),
        layout.lookup_post(some, dir, name, Some(Ok(INodeState::Uninitialized)), steps.2),
        layout.lookup_post(all, dir, name, Some(Ok(INodeState::Uninitialized)), steps.3),
    ensures
        steps.0 == LookupStep::MapFolio(layout.entries_request(none, dir)),
        match layout.named(all, dir, name) {
            Named::MapFolio(_) => false,
            Named::Fail(e) => steps.1 == LookupStep::Fail(e),
            Named::Absent => steps.1 == LookupStep::SpliceAlias(None),
            Named::Present(ino) => {
                &&& steps.1 == (LookupStep::GetInode { sb: none.sb, ino })
                &&& steps.2 == LookupStep::MapFolio(layout.inodes_request(none))
                &&& match store@[ino - 1].error() {
                    Some(e) => steps.3 == LookupStep::Fail(e),
                    None => steps.3 matches LookupStep::InitInode(inode) && store@[ino - 1].fills(
                        ino,
                        inode,
                    ),
                }
            },
        },
{
}

/// Making the root directory with nothing mapped, where its inode is fresh, asks for the inode
/// store, and with it initialises the inode, or fails for what is wrong with it.
pub proof fn law_root_from_nothing(
    layout: Layout,
    none: Volume,
    all: Volume,
    store: Vec<EzfsInode>,
    steps: (IgetStep, IgetStep),
)
    requires
        to_i64_spec(layout.inode_store_block * layout.block_size) is Ok,
        none.folios.inodes@ == Outcomes::<Vec<EzfsInode>>::empty(),
        all.folios.inodes@ == none.folios.inodes@.insert(
            layout.inodes_request(none).offset,
            Ok(Some(store)),
        ),
        layout.iget_post(none, layout.root_ino, Ok(INodeState::Uninitialized), steps.0),
        layout.iget_post(all, layout.root_ino, Ok(INodeState::Uninitialized), steps.1),
    ensures
        root_step(steps.0) == InitRootStep::<EzfsInode>::MapFolio(layout.inodes_request(none)),
        match store@[layout.root_ino - 1].error() {
            Some(e) => root_step(steps.1) == InitRootStep::<EzfsInode>::Return(Err(e)),
            None => root_step(steps.1) matches InitRootStep::InitInode(inode)
                && store@[layout.root_ino - 1].fills(layout.root_ino, inode),
        },
{
}

/// A mounted file system uses its own device and its own superblock: filling the superblock,
/// getting inodes, looking names up and listing directories ask for folios of the device of the
/// superblock that is mounted, and for inodes of that superblock.
pub proof fn law_own_device(
    layout: Layout,
    sb: SuperBlock<EzfsSuperblock>,
    table: SuperOperations,
    mapper: Mapper,
    before: Outcomes<EzfsSuperblockDisk>,
    outcomes: Outcomes<EzfsSuperblockDisk>,
    data: EzfsSuperblock,
    folios: Folios,
    dir: EzfsInode,
)
    requires
        own_mapper(sb, SuperType::BlockDev) == Some(mapper),
        layout.fill_super_step(outcomes, FillSuperEvent::Ready(Some(mapper)))
            == FillSuperStep::Allocate(data),
    ensures
        layout.fill_super_step(before, FillSuperEvent::Ready(Some(mapper))) matches
            FillSuperStep::MapFolio(request) ==> request.bdev == sb.bdev,
        ({
            let volume = Volume::of(mounted(sb, table, MountEvent::Filled(Ok(data))), folios);
            &&& volume.sb == sb.addr
            &&& volume.mapper.bdev == sb.bdev
            &&& layout.inodes_on(volume) matches Fetch::MapFolio(request) ==> request.bdev == sb.bdev
            &&& layout.entries_on(volume, dir) matches Fetch::MapFolio(request) ==> request.bdev
                == sb.bdev
            &&& forall|ino: usize, found: Result<INodeState<EzfsInode>, Error>, r: IgetStep|
                #[trigger] layout.iget_post(volume, ino, found, r) ==> (r matches IgetStep::MapFolio(
                    request,
                ) ==> request.bdev == sb.bdev)
            &&& forall|
                name: Seq<u8>,
                found: Option<Result<INodeState<EzfsInode>, Error>>,
                r: LookupStep,
            |
                #[trigger] layout.lookup_post(volume, dir, name, found, r) ==> match r {
                    LookupStep::MapFolio(request) => request.bdev == sb.bdev,
                    LookupStep::GetInode { sb: addr, ino } => addr == sb.addr,
                    _ => true,
                }
            &&& forall|emitter: DirEmitter, from: usize|
                #[trigger] layout.slot_step(volume, dir, emitter, from) matches
                    ReadDirStepView::MapFolio { request, cursor } ==> request.bdev == sb.bdev
        }),
{
}

/// An inode is put into the directory cache, or made the root directory, only once it has been
/// initialised: a fresh inode that a lookup or the making of the root comes to is first to be
/// initialised, and if that fails, the error is the answer of both.
pub proof fn law_initialised_first(
    layout: Layout,
    volume: Volume,
    ino: usize,
    step: IgetStep,
    inode: INode<EzfsInode>,
    e: Error,
)
    requires
        layout.iget_post(volume, ino, Ok(INodeState::Uninitialized), step),
    ensures
        !(lookup_step(step) is SpliceAlias),
        !(root_step(step) is MakeRoot),
        lookup_step(initialised(inode, Ok(()))) == LookupStep::SpliceAlias(Some(inode)),
        root_step(initialised(inode, Ok(()))) == InitRootStep::MakeRoot(inode),
        lookup_step(initialised(inode, Err(e))) == LookupStep::Fail(e),
        root_step(initialised(inode, Err(e))) == InitRootStep::<EzfsInode>::Return(Err(e)),
{
}

/// A device whose superblock does not have the magic number is not mounted. What is kept with one
/// that is mounted is its superblock and the mapper that it was read with.
pub proof fn law_magic(
    layout: Layout,
    outcomes: Outcomes<EzfsSuperblockDisk>,
    mapper: Mapper,
    data: EzfsSuperblock,
)
    requires
        layout.fill_super_step(outcomes, FillSuperEvent::Ready(Some(mapper))) == FillSuperStep::<
            EzfsSuperblock,
        >::Allocate(data),
    ensures
        data.disk.magic == layout.magic,
        data.mapper == mapper,
        layout.superblock_on(mapper, outcomes) == Fetch::Got(data.disk),
{
}

/// On a device where every active entry of a directory names an inode of the inode store, every
/// step of every listing of that directory can be taken.
pub proof fn law_listing_defined(
    layout: Layout,
    volume: Volume,
    dir: EzfsInode,
    emitter: DirEmitter,
    cursor: ReadDirCursor,
    event: ReadDirEventView,
)
    requires
        match (layout.entries_on(volume, dir), layout.inodes_on(volume)) {
            (Fetch::Got(entries), Fetch::Got(store)) => forall|j: int|
                0 <= j < entries@.len() && #[trigger] entries@[j].active ==> layout.in_store(
                    entries@[j],
                    store@,
                ),
            _ => true,
        },
    ensures
        layout.read_dir_defined(volume, dir, emitter, cursor, event),
{
    match (
        layout.next_slot(answered(emitter, event), cursor),
        layout.entries_on(volume, dir),
    ) {
        (Some(from), Fetch::Got(entries)) => {
            lemma_first_active(entries@, from as int);
        },
        _ => {},
    }
}

/// On a device where, besides, the root inode has the number one and the size of every inode in
/// sectors fits, every name can be looked up.
pub proof fn law_lookup_defined(
    layout: Layout,
    volume: Volume,
    dir: EzfsInode,
    name: Seq<u8>,
    found: Option<Result<INodeState<EzfsInode>, Error>>,
)
    requires
        layout.root_ino == 1,
        match (layout.entries_on(volume, dir), layout.inodes_on(volume)) {
            (Fetch::Got(entries), Fetch::Got(store)) => {
                &&& forall|j: int|
                    0 <= j < entries@.len() && #[trigger] entries@[j].active ==> layout.in_store(
                        entries@[j],
                        store@,
                    )
                &&& forall|i: int|
                    0 <= i < store@.len() ==> #[trigger] store@[i].nblocks * 8 <= u64::MAX
            },
            _ => true,
        },
    ensures
        layout.lookup_defined(volume, dir, name, found),
{
    match layout.entries_on(volume, dir) {
        Fetch::Got(entries) => {
            lemma_first_named(entries@, name, 0);
        },
        _ => {},
    }
}

/// The number of a `whence` reaches the generic seek unchanged, with the file and the offset.
pub proof fn law_seek_call(
    fs: RustEzFs,
    file: File<EzfsInode>,
    offset: i64,
    number: i32,
    whence: Whence,
    step: SeekStep,
)
    requires
        Whence::try_from_spec(number) == Ok::<Whence, Error>(whence),
        fs.seek_post(file, offset, whence, step),
    ensures
        step == SeekStep::Llseek(LlseekCall { file: file.local().addr, offset, whence: number }),
{
}

/// Reading maps a position of an inode that was read from the inode store if and only if the file
/// has a first block and the block of the position is one of its blocks; any other position is a
/// hole. Writing is never mapped.
pub proof fn law_mapped_blocks(
    record: EzfsInode,
    ino: usize,
    inode: INode<EzfsInode>,
    sb: SuperBlock<EzfsSuperblock>,
    pos: i64,
    length: i64,
    flags: u32,
    map: Mapping,
)
    requires
        record.fills(ino, inode),
        0 <= pos,
        0 < length,
    ensures
        ({
            let m = mapping(inode, sb, pos, length, flags, map);
            let in_file = record.data_blk_num > 0 && block_of(pos as int, sb.blocksize_bits)
                < record.nblocks;
            &&& flags & WRITE == 0 ==> mapping_result(pos, length, flags) == Ok::<(), Error>(())
            &&& flags & WRITE == 0 ==> (m.typ is Mapped <==> in_file)
            &&& flags & WRITE == 0 ==> (m.typ is Hole <==> !in_file)
            &&& flags & WRITE != 0 ==> mapping_result(pos, length, flags) == Err::<(), Error>(
                Error::of(EIO),
            )
        }),
{
    assert(inode.params.blocks / 8 == record.nblocks);
}

/// The address of a position is that of its block: the first block of the file and the number of
/// the position's block, in blocks.
pub proof fn law_device_address(blk_num: u64, pos: i64, bits: u8)
    requires
        bits < 64,
        0 <= pos,
        (blk_num + block_of(pos as int, bits)) * pow2(bits as nat) <= u64::MAX,
    ensures
        device_addr(blk_num, pos, bits) == (blk_num + block_of(pos as int, bits)) * pow2(
            bits as nat,
        ),
{
    lemma_pow2_pos(bits as nat);
    let block = blk_num + block_of(pos as int, bits);
    let size = pow2(bits as nat) as int;
    assert(block_of(pos as int, bits) >= 0) by (nonlinear_arith)
        requires
            pos >= 0,
            size > 0,
            block_of(pos as int, bits) == pos as int / size,
    ;
    assert(block <= block * size) by (nonlinear_arith)
        requires
            block >= 0,
            size >= 1,
    ;
    lemma_u64_shl_is_mul(block as u64, bits as u64);
    let b = block as u64;
    assert(b << bits == b << (bits as u64)) by (bit_vector)
        requires
            bits < 64,
    ;
}

/// Positions of different blocks of a file lie at least a block apart on the device.
pub proof fn law_blocks_apart(blk_num: u64, pos: i64, later: i64, bits: u8)
    requires
        bits < 64,
        0 <= pos,
        block_of(pos as int, bits) < block_of(later as int, bits),
        0 <= later,
        (blk_num + block_of(later as int, bits)) * pow2(bits as nat) <= u64::MAX,
    ensures
        device_addr(blk_num, pos, bits) + pow2(bits as nat) <= device_addr(blk_num, later, bits),
{
    let a = blk_num + block_of(pos as int, bits);
    let b = blk_num + block_of(later as int, bits);
    let size = pow2(bits as nat) as int;
    lemma_pow2_pos(bits as nat);
    assert(a * size + size <= b * size) by (nonlinear_arith)
        requires
            a + 1 <= b,
            size > 0,
    ;
    law_device_address(blk_num, pos, bits);
    law_device_address(blk_num, later, bits);
}

} // verus!
