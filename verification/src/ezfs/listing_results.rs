//! What listing a directory gives, said of the calls themselves: each law speaks of the arguments
//! of a step and of what comes of it.
use vstd::prelude::*;

use crate::error::{Error, EINVAL, EIO, ENOENT};
use crate::ezfs::read_dir::{first_active, next_active};
use crate::ezfs::record::{EzfsDirEntry, EzfsInode, EzfsSuperblock, Folios};
use crate::ezfs::results::{has_entries, has_store};
use crate::ezfs::RustEzFs;
use crate::fs::file::dir::{ActorCall, DirEmitter};
use crate::fs::file::ops::{Operations, ReadDirCursor, ReadDirEvent, ReadDirStep, ReadDirStepView};
use crate::fs::file::File;
use crate::mapper::{FolioRequest, Record};
use crate::sb::SuperBlock;

verus! {

/// The first active entry at or after the slot `from`.
pub open spec fn is_first_active(entries: Seq<EzfsDirEntry>, from: int, j: int) -> bool {
    &&& from <= j < entries.len()
    &&& entries[j].active
    &&& forall|k: int| from <= k < j ==> !#[trigger] entries[k].active
}

/// What the search for an active entry gives.
proof fn lemma_is_first_active(entries: Seq<EzfsDirEntry>, from: int)
    requires
        0 <= from,
    ensures
        match first_active(entries, from) {
            Some(j) => is_first_active(entries, from, j),
            None => forall|k: int| from <= k < entries.len() ==> !#[trigger] entries[k].active,
        },
    decreases entries.len() - from,
{
    if from < entries.len() && !entries[from].active {
        lemma_is_first_active(entries, from + 1);
    }
}

/// The next active entry is found, and none is found only where there is none.
pub proof fn law_next_active(entries: Vec<EzfsDirEntry>, from: usize, r: Option<usize>)
    requires
        call_ensures(next_active, (&entries, from), r),
    ensures
        match r {
            Some(j) => is_first_active(entries@, from as int, j as int),
            None => forall|k: int| from <= k < entries@.len() ==> !#[trigger] entries@[k].active,
        },
{
    lemma_is_first_active(entries@, from as int);
}

/// The position of the reader once an event has been taken in: an entry that was taken moves it to
/// the position after the entry, and nothing else moves it.
pub open spec fn position(emitter: DirEmitter, event: ReadDirEvent) -> i64 {
    match event {
        ReadDirEvent::Answered { call, taken } => if taken {
            call.new_pos
        } else {
            emitter.pos
        },
        ReadDirEvent::Ready => emitter.pos,
    }
}

/// Whether an event says that an entry was not taken.
pub open spec fn declined(event: ReadDirEvent) -> bool {
    event matches ReadDirEvent::Answered { call, taken } && !taken
}

/// Whether a listing that stands at `cursor`, with the reader at `pos`, is to go on with the slot
/// `from`: each slot takes as many positions as an entry has bytes, and they begin at position 2.
pub open spec fn due(fs: RustEzFs, cursor: ReadDirCursor, pos: i64, from: int) -> bool {
    ||| cursor == ReadDirCursor::Slot(from as usize) && 0 <= from <= usize::MAX
    ||| {
        &&& cursor == ReadDirCursor::Start
        &&& pos == 2 + from * fs.layout().dir_entry_size
        &&& 0 <= from < fs.layout().max_children
        &&& pos <= usize::MAX
    }
}

/// The number of the type of a directory entry for an inode with the given mode: the four bits of
/// the file type, where these stand for a type, and zero otherwise.
pub open spec fn type_number(mode: u32) -> int {
    let n = (mode as int / 4096) % 16;
    if n == 1 || n == 2 || n == 4 || n == 6 || n == 8 || n == 10 || n == 12 || n == 14 {
        n
    } else {
        0
    }
}

/// A listing moves the reader to the position after an entry that was taken, and never otherwise.
/// An entry that was not taken ends it.
pub proof fn law_read_dir_moves_the_reader(
    fs: RustEzFs,
    file: File<EzfsInode>,
    sb: SuperBlock<EzfsSuperblock>,
    folios: Folios,
    emitter: &mut DirEmitter,
    cursor: ReadDirCursor,
    event: ReadDirEvent,
    r: ReadDirStep,
)
    requires
        call_ensures(
            <RustEzFs as Operations>::read_dir,
            (&fs, &file, &sb, &folios, emitter, cursor, event),
            r,
        ),
    ensures
        final(emitter).pos == position(*old(emitter), event),
        final(emitter).has_actor == old(emitter).has_actor,
        declined(event) ==> r == ReadDirStep::Return(Ok(())),
{
}

/// The slot of a position is found again from it.
proof fn lemma_due(fs: RustEzFs, cursor: ReadDirCursor, pos: i64, from: int)
    requires
        due(fs, cursor, pos, from),
        fs.layout().dir_entry_size > 0,
        cursor == ReadDirCursor::Start,
    ensures
        pos >= 2,
        (pos - 2) % (fs.layout().dir_entry_size as int) == 0,
        (pos - 2) / (fs.layout().dir_entry_size as int) == from,
{
    let size = fs.layout().dir_entry_size as int;
    assert(from * size >= 0) by (nonlinear_arith)
        requires
            from >= 0,
            size > 0,
    ;
    vstd::arithmetic::div_mod::lemma_fundamental_div_mod_converse(pos - 2, size, from, 0);
}

/// The bits of a mode that hold the file type, as a number.
proof fn lemma_type_number(mode: u32)
    ensures
        (mode & 0o170000) / 4096 == (mode / 4096) % 16,
        (mode & 0o170000) % 4096 == 0,
        mode & 0o170000 == ((mode / 4096) % 16) * 4096,
{
    assert((mode & 0o170000) / 4096 == (mode / 4096) % 16 && (mode & 0o170000) % 4096 == 0 && mode
        & 0o170000 == ((mode / 4096) % 16) * 4096) by (bit_vector);
}

/// A listing hands out the first active entry from its slot on: under its name, at the position of
/// the reader, with its inode number and with the type of the inode that it names. It is one
/// entry's size from there to the next position, and the listing goes on with the slot behind the
/// entry.
pub proof fn law_read_dir_hands_out_the_next_entry(
    fs: RustEzFs,
    file: File<EzfsInode>,
    sb: SuperBlock<EzfsSuperblock>,
    folios: Folios,
    emitter: &mut DirEmitter,
    cursor: ReadDirCursor,
    event: ReadDirEvent,
    r: ReadDirStep,
    entries: Vec<EzfsDirEntry>,
    store: Vec<EzfsInode>,
    from: int,
    j: int,
)
    requires
        call_ensures(
            <RustEzFs as Operations>::read_dir,
            (&fs, &file, &sb, &folios, emitter, cursor, event),
            r,
        ),
        fs.layout().dir_entry_size > 0,
        !declined(event),
        due(fs, cursor, position(*old(emitter), event), from),
        has_entries(fs.layout(), folios, file.local().inode.params.value, entries),
        has_store(fs.layout(), folios, store),
        is_first_active(entries@, from, j),
        fs.layout().dir_entry_size <= isize::MAX,
    ensures
        ({
            let pos = position(*old(emitter), event);
            let size = fs.layout().dir_entry_size;
            let entry = entries@[j];
            if entry.inode_no > usize::MAX {
                r == ReadDirStep::Return(Err(Error { errno: EINVAL }))
            } else if entry.filename@.len() > i32::MAX || !old(emitter).has_actor || pos + size
                > i64::MAX {
                r == ReadDirStep::Return(Ok(()))
            } else {
                &&& r matches ReadDirStep::Emit { call, cursor: next }
                &&& call.name@ == entry.filename@
                &&& call.name_len == entry.filename@.len()
                &&& call.pos == pos
                &&& call.new_pos == pos + size
                &&& call.ino == entry.inode_no
                &&& call.dtype == type_number(store@[entry.inode_no - fs.layout().root_ino].mode)
                &&& next == ReadDirCursor::Slot((j + 1) as usize)
                &&& j + 1 <= usize::MAX
            }
        }),
{
    let pos = position(*old(emitter), event);
    if cursor == ReadDirCursor::Start {
        lemma_due(fs, cursor, pos, from);
    }
    lemma_is_first_active(entries@, from);
    match first_active(entries@, from) {
        Some(k) => {
            if k < j {
                assert(!entries@[k].active);
            } else if j < k {
                assert(!entries@[j].active);
            }
        },
        None => {
            assert(!entries@[j].active);
        },
    }
    assert(entries.len() <= usize::MAX);
    lemma_type_number(store@[entries@[j].inode_no - fs.layout().root_ino].mode);
}

/// A listing without an active entry from its slot on ends.
pub proof fn law_read_dir_ends_after_the_last_entry(
    fs: RustEzFs,
    file: File<EzfsInode>,
    sb: SuperBlock<EzfsSuperblock>,
    folios: Folios,
    emitter: &mut DirEmitter,
    cursor: ReadDirCursor,
    event: ReadDirEvent,
    r: ReadDirStep,
    entries: Vec<EzfsDirEntry>,
    store: Vec<EzfsInode>,
    from: int,
)
    requires
        call_ensures(
            <RustEzFs as Operations>::read_dir,
            (&fs, &file, &sb, &folios, emitter, cursor, event),
            r,
        ),
        fs.layout().dir_entry_size > 0,
        !declined(event),
        due(fs, cursor, position(*old(emitter), event), from),
        has_entries(fs.layout(), folios, file.local().inode.params.value, entries),
        has_store(fs.layout(), folios, store),
        forall|k: int| from <= k < entries@.len() ==> !#[trigger] entries@[k].active,
    ensures
        r == ReadDirStep::Return(Ok(())),
{
    if cursor == ReadDirCursor::Start {
        lemma_due(fs, cursor, position(*old(emitter), event), from);
    }
    lemma_is_first_active(entries@, from);
}

/// As long as the entries of the directory are not there, a listing asks for the block of the
/// directory, and then for the block of the inode store, or fails for what is wrong with them. It
/// goes on with the same slot.
pub proof fn law_read_dir_needs_entries_and_store(
    fs: RustEzFs,
    file: File<EzfsInode>,
    sb: SuperBlock<EzfsSuperblock>,
    folios: Folios,
    emitter: &mut DirEmitter,
    cursor: ReadDirCursor,
    event: ReadDirEvent,
    r: ReadDirStep,
    from: int,
)
    requires
        call_ensures(
            <RustEzFs as Operations>::read_dir,
            (&fs, &file, &sb, &folios, emitter, cursor, event),
            r,
        ),
        fs.layout().dir_entry_size > 0,
        !declined(event),
        due(fs, cursor, position(*old(emitter), event), from),
    ensures
        ({
            let block = file.local().inode.params.value.data_blk_num * fs.layout().block_size;
            let store = fs.layout().inode_store_block * fs.layout().block_size;
            if block > u64::MAX {
                r == ReadDirStep::Return(Err(Error { errno: EIO }))
            } else if block > i64::MAX {
                r == ReadDirStep::Return(Err(Error { errno: EINVAL }))
            } else if !folios.entries@.contains_key(block as i64) {
                r == (ReadDirStep::MapFolio {
                    request: FolioRequest {
                        bdev: sb.fs_info->0.mapper.bdev,
                        record: Record::DirEntries,
                        offset: block as i64,
                    },
                    cursor: ReadDirCursor::Slot(from as usize),
                })
            } else {
                match folios.entries@[block as i64] {
                    Err(e) => r == ReadDirStep::Return(Err(e)),
                    Ok(None) => r == ReadDirStep::Return(Err(Error { errno: EIO })),
                    Ok(Some(_)) => if store > i64::MAX {
                        r == ReadDirStep::Return(Err(Error { errno: EINVAL }))
                    } else if !folios.inodes@.contains_key(store as i64) {
                        r == (ReadDirStep::MapFolio {
                            request: FolioRequest {
                                bdev: sb.fs_info->0.mapper.bdev,
                                record: Record::INodes,
                                offset: store as i64,
                            },
                            cursor: ReadDirCursor::Slot(from as usize),
                        })
                    } else {
                        match folios.inodes@[store as i64] {
                            Err(e) => r == ReadDirStep::Return(Err(e)),
                            Ok(None) => r == ReadDirStep::Return(Err(Error { errno: EIO })),
                            Ok(Some(_)) => !(r is MapFolio),
                        }
                    },
                }
            }
        }),
{
    if cursor == ReadDirCursor::Start {
        lemma_due(fs, cursor, position(*old(emitter), event), from);
    }
}

/// A listing that begins at a position that is none is refused; one that begins behind the last
/// slot ends.
pub proof fn law_read_dir_checks_the_position(
    fs: RustEzFs,
    file: File<EzfsInode>,
    sb: SuperBlock<EzfsSuperblock>,
    folios: Folios,
    emitter: &mut DirEmitter,
    r: ReadDirStep,
)
    requires
        call_ensures(
            <RustEzFs as Operations>::read_dir,
            (&fs, &file, &sb, &folios, emitter, ReadDirCursor::Start, ReadDirEvent::Ready),
            r,
        ),
        fs.layout().dir_entry_size > 0,
    ensures
        ({
            let pos = old(emitter).pos;
            let size = fs.layout().dir_entry_size as int;
            &&& pos < 0 || pos > usize::MAX ==> r == ReadDirStep::Return(
                Err(Error { errno: ENOENT }),
            )
            &&& 2 <= pos <= usize::MAX && (forall|slot: int|
                pos != 2 + #[trigger] (slot * size)) ==> r == ReadDirStep::Return(
                Err(Error { errno: ENOENT }),
            )
            &&& forall|slot: int|
                2 <= pos <= usize::MAX && pos == 2 + #[trigger] (slot * size) && slot
                    >= fs.layout().max_children ==> r == ReadDirStep::Return(Ok(()))
        }),
{
    let pos = old(emitter).pos;
    let size = fs.layout().dir_entry_size as int;
    if 2 <= pos {
        let q = (pos - 2) / size;
        vstd::arithmetic::div_mod::lemma_fundamental_div_mod(pos - 2, size);
        assert(size * q == q * size) by (nonlinear_arith);
        if (pos - 2) % size == 0 {
            assert(pos == 2 + q * size);
        }
        assert forall|slot: int|
            2 <= pos <= usize::MAX && pos == 2 + #[trigger] (slot * size) && slot
                >= fs.layout().max_children implies r == ReadDirStep::Return(Ok(())) by {
            vstd::arithmetic::div_mod::lemma_fundamental_div_mod_converse(pos - 2, size, slot, 0);
        }
    }
}

/// Whether a step hands out an entry of a directory for itself or for its parent: the name is that
/// many dots, the position that of the reader, and the next position one further.
pub open spec fn hands_out_dots(call: ActorCall, dots: nat, pos: i64, ino: usize) -> bool {
    &&& call.name@.len() == dots
    &&& forall|i: int| 0 <= i < dots ==> #[trigger] call.name@[i] == 46u8
    &&& call.name_len == dots
    &&& call.pos == pos
    &&& call.new_pos == pos + 1
    &&& call.ino == ino
    &&& call.dtype == 4
}

/// At position 0 a listing hands out the directory itself, and at position 1 the directory that
/// holds it, whether it begins there or comes there. After them it ends with an error, which the
/// callback passes over since the reader has moved.
pub proof fn law_read_dir_hands_out_the_dots(
    fs: RustEzFs,
    file: File<EzfsInode>,
    sb: SuperBlock<EzfsSuperblock>,
    folios: Folios,
    emitter: &mut DirEmitter,
    cursor: ReadDirCursor,
    event: ReadDirEvent,
    r: ReadDirStep,
)
    requires
        call_ensures(
            <RustEzFs as Operations>::read_dir,
            (&fs, &file, &sb, &folios, emitter, cursor, event),
            r,
        ),
        !declined(event),
        ({
            let pos = position(*old(emitter), event);
            cursor == ReadDirCursor::Dots || (cursor == ReadDirCursor::Start && 0 <= pos < 2)
        }),
    ensures
        ({
            let pos = position(*old(emitter), event);
            if pos != 0 && pos != 1 {
                r == ReadDirStep::Return(Err(Error { errno: ENOENT }))
            } else if !old(emitter).has_actor {
                r == ReadDirStep::Return(Ok(()))
            } else {
                &&& r matches ReadDirStep::Emit { call, cursor: next }
                &&& next == ReadDirCursor::Dots
                &&& pos == 0 ==> hands_out_dots(call, 1, 0, file.local().inode.ino)
                &&& pos == 1 ==> hands_out_dots(call, 2, 1, file.local().dentry.parent_ino)
            }
        }),
{
}

/// A step of a listing can be taken unless the entry that is due names an inode that has no place
/// in the inode store. This is what `can_read_dir` tests.
pub proof fn law_read_dir_is_possible(
    fs: RustEzFs,
    file: File<EzfsInode>,
    sb: SuperBlock<EzfsSuperblock>,
    folios: Folios,
    emitter: &mut DirEmitter,
    cursor: ReadDirCursor,
    event: ReadDirEvent,
    can: bool,
)
    requires
        call_ensures(
            RustEzFs::can_read_dir,
            (&fs, &file, &sb, &folios, &*old(emitter), cursor, &event),
            can,
        ),
        fs.layout().dir_entry_size > 0,
        sb.fs_info is Some,
    ensures
        can ==> call_requires(
            <RustEzFs as Operations>::read_dir,
            (&fs, &file, &sb, &folios, emitter, cursor, event),
        ),
        declined(event) ==> can,
        cursor == ReadDirCursor::Dots ==> can,
        !can ==> exists|entries: Vec<EzfsDirEntry>, store: Vec<EzfsInode>, from: int, j: int|
            {
                &&& #[trigger] has_entries(
                    fs.layout(),
                    folios,
                    file.local().inode.params.value,
                    entries,
                )
                &&& #[trigger] has_store(fs.layout(), folios, store)
                &&& #[trigger] is_first_active(entries@, from, j)
                &&& due(fs, cursor, position(*old(emitter), event), from)
                &&& entries@[j].inode_no <= usize::MAX
                &&& !(fs.layout().root_ino <= entries@[j].inode_no < fs.layout().root_ino
                    + store@.len())
            },
{
    let dir = file.local().inode.params.value;
    let pos = position(*old(emitter), event);
    let size = fs.layout().dir_entry_size as int;
    let block = dir.data_blk_num * fs.layout().block_size;
    let begin = fs.layout().inode_store_block * fs.layout().block_size;
    if !can {
        let from = match cursor {
            ReadDirCursor::Slot(from) => from as int,
            _ => (pos - 2) / size,
        };
        vstd::arithmetic::div_mod::lemma_fundamental_div_mod(pos - 2, size);
        assert(size * ((pos - 2) / size) == ((pos - 2) / size) * size) by (nonlinear_arith);
        match (folios.entries@[block as i64], folios.inodes@[begin as i64]) {
            (Ok(Some(entries)), Ok(Some(store))) => {
                lemma_is_first_active(entries@, from);
                let j = first_active(entries@, from)->0;
                assert(has_entries(fs.layout(), folios, dir, entries));
                assert(has_store(fs.layout(), folios, store));
                assert(is_first_active(entries@, from, j));
            },
            _ => {},
        }
    }
}

/// What the callback is promised of a step of a listing is what comes of the step, and nothing
/// else.
pub proof fn law_read_dir_promises_its_step(
    fs: RustEzFs,
    file: File<EzfsInode>,
    sb: SuperBlock<EzfsSuperblock>,
    folios: Folios,
    emitter: &mut DirEmitter,
    cursor: ReadDirCursor,
    event: ReadDirEvent,
    r: ReadDirStep,
    promised: DirEmitter,
    s: ReadDirStepView,
)
    requires
        call_ensures(
            <RustEzFs as Operations>::read_dir,
            (&fs, &file, &sb, &folios, emitter, cursor, event),
            r,
        ),
        fs.read_dir_post(file, sb, folios, *old(emitter), cursor, event@, promised, s),
    ensures
        promised == *final(emitter),
        s == r@,
{
}

} // verus!
