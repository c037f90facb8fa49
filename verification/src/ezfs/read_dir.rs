//! The operations on files, above all listing a directory.
use vstd::prelude::*;

use crate::error::{to_usize_spec, u64_to_usize, Error, ENOENT};
use crate::ezfs::fetch::Fetch;
use crate::ezfs::layout::Layout;
use crate::ezfs::record::{EzfsDirEntry, EzfsInode, EzfsSuperblock, Folios, Volume};
use crate::ezfs::RustEzFs;
use crate::fs::file::dir::{DirEmitter, DirEntryType, DotsStep, DotsStepView};
use crate::fs::file::ops::{
    unsupported, IovIterDest, IovIterSource, Kiocb, Operations, ReadDirCursor, ReadDirEvent,
    ReadDirEventView, ReadDirStep, ReadDirStepView, SeekStep, Writer,
};
use crate::fs::file::{generic_seek, File, LlseekCall, LocalFile, Whence};
use crate::fs::Offset;
use crate::sb::SuperBlock;

verus! {

/// The index of the first active entry at or after `from`.
pub open spec fn first_active(entries: Seq<EzfsDirEntry>, from: int) -> Option<int>
    decreases entries.len() - from,
{
    if from < 0 || from >= entries.len() {
        None
    } else if entries[from].active {
        Some(from)
    } else {
        first_active(entries, from + 1)
    }
}

/// Finds the first active entry at or after `from`.
pub fn next_active(entries: &Vec<EzfsDirEntry>, from: usize) -> (r: Option<usize>)
    ensures
        match r {
            Some(j) => first_active(entries@, from as int) == Some(j as int) && from <= j
                < entries@.len() && entries@[j as int].active,
            None => first_active(entries@, from as int) is None,
        },
{
    let mut i: usize = from;
    while i < entries.len()
        invariant
            from <= i,
            first_active(entries@, from as int) == first_active(entries@, i as int),
        decreases entries.len() - i,
    {
        if entries[i].active {
            return Some(i);
        }
        i = i + 1;
    }
    None
}

impl Layout {
    /// Whether the inode that an entry names has a place in the inode store. (A number that is too
    /// large for an index is not looked up.)
    pub open spec fn in_store(self, entry: EzfsDirEntry, store: Seq<EzfsInode>) -> bool {
        entry.inode_no <= usize::MAX ==> 0 <= entry.inode_no - self.root_ino < store.len()
    }

    /// The type of an entry: that of the inode that it names.
    pub open spec fn entry_type(self, entry: EzfsDirEntry, store: Seq<EzfsInode>) -> DirEntryType {
        DirEntryType::of_mode(store[entry.inode_no - self.root_ino].mode)
    }

    /// Hands the first active entry at or after the slot `from` to the reader.
    pub open spec fn entry_step(
        self,
        entries: Seq<EzfsDirEntry>,
        store: Seq<EzfsInode>,
        emitter: DirEmitter,
        from: int,
    ) -> ReadDirStepView {
        match first_active(entries, from) {
            None => ReadDirStepView::Return(Ok(())),
            Some(j) => match to_usize_spec(entries[j].inode_no as int) {
                Err(e) => ReadDirStepView::Return(Err(e)),
                Ok(_) => match emitter.call_for(
                    self.dir_entry_size as i64,
                    entries[j].filename@,
                    entries[j].inode_no,
                    self.entry_type(entries[j], store),
                ) {
                    None => ReadDirStepView::Return(Ok(())),
                    Some(call) => ReadDirStepView::Emit {
                        call,
                        cursor: ReadDirCursor::Slot((j + 1) as usize),
                    },
                },
            },
        }
    }

    /// Goes on with the entries of the directory `dir` from the slot `from` on.
    pub open spec fn slot_step(
        self,
        volume: Volume,
        dir: EzfsInode,
        emitter: DirEmitter,
        from: usize,
    ) -> ReadDirStepView {
        let cursor = ReadDirCursor::Slot(from);
        match self.entries_on(volume, dir) {
            Fetch::MapFolio(request) => ReadDirStepView::MapFolio { request, cursor },
            Fetch::Fail(e) => ReadDirStepView::Return(Err(e)),
            Fetch::Got(entries) => match self.inodes_on(volume) {
                Fetch::MapFolio(request) => ReadDirStepView::MapFolio { request, cursor },
                Fetch::Fail(e) => ReadDirStepView::Return(Err(e)),
                Fetch::Got(store) => self.entry_step(entries@, store@, emitter, from as int),
            },
        }
    }

    /// Goes on with the entries of a directory for itself and for its parent. After them the
    /// listing ends.
    pub open spec fn dots_step<D>(self, file: LocalFile<D>, emitter: DirEmitter) -> ReadDirStepView {
        dots_listed(emitter.dots_step(file.inode.ino, file.dentry.parent_ino))
    }

    /// Begins a listing at the position of the reader: 0 and 1 are the entries of a directory for
    /// itself and for its parent, and after them each slot takes as many positions as an entry
    /// has bytes.
    pub open spec fn start_step(
        self,
        volume: Volume,
        file: LocalFile<EzfsInode>,
        emitter: DirEmitter,
    ) -> ReadDirStepView {
        let pos = emitter.pos;
        if pos < 0 || pos > usize::MAX {
            ReadDirStepView::Return(Err(Error::of(ENOENT)))
        } else if pos < 2 {
            self.dots_step(file, emitter)
        } else if (pos - 2) % (self.dir_entry_size as int) != 0 {
            ReadDirStepView::Return(Err(Error::of(ENOENT)))
        } else if (pos - 2) / (self.dir_entry_size as int) >= self.max_children {
            ReadDirStepView::Return(Ok(()))
        } else {
            self.slot_step(
                volume,
                file.inode.params.value,
                emitter,
                ((pos - 2) / (self.dir_entry_size as int)) as usize,
            )
        }
    }

    /// The step that a listing takes at `cursor`.
    pub open spec fn cursor_step(
        self,
        volume: Volume,
        file: LocalFile<EzfsInode>,
        emitter: DirEmitter,
        cursor: ReadDirCursor,
    ) -> ReadDirStepView {
        match cursor {
            ReadDirCursor::Start => self.start_step(volume, file, emitter),
            ReadDirCursor::Dots => self.dots_step(file, emitter),
            ReadDirCursor::Slot(from) => self.slot_step(
                volume,
                file.inode.params.value,
                emitter,
                from,
            ),
        }
    }

    /// The slot from which the listing goes on with the entries of the directory, if it gets that
    /// far.
    pub open spec fn next_slot(self, emitter: DirEmitter, cursor: ReadDirCursor) -> Option<usize> {
        match cursor {
            ReadDirCursor::Slot(from) => Some(from),
            ReadDirCursor::Start => {
                let pos = emitter.pos;
                if 2 <= pos <= usize::MAX && (pos - 2) % (self.dir_entry_size as int) == 0 && (pos
                    - 2) / (self.dir_entry_size as int) < self.max_children {
                    Some(((pos - 2) / (self.dir_entry_size as int)) as usize)
                } else {
                    None
                }
            },
            ReadDirCursor::Dots => None,
        }
    }

    /// When a step of a listing can be taken: the entry that is due names an inode of the inode
    /// store.
    pub open spec fn read_dir_defined(
        self,
        volume: Volume,
        dir: EzfsInode,
        emitter: DirEmitter,
        cursor: ReadDirCursor,
        event: ReadDirEventView,
    ) -> bool {
        !refused(event) ==> match (
            self.next_slot(answered(emitter, event), cursor),
            self.entries_on(volume, dir),
            self.inodes_on(volume),
        ) {
            (Some(from), Fetch::Got(entries), Fetch::Got(store)) => match first_active(
                entries@,
                from as int,
            ) {
                Some(j) => self.in_store(entries@[j], store@),
                None => true,
            },
            _ => true,
        }
    }

    /// The step that a listing takes at `cursor` on `event`. An entry that the actor does not take
    /// ends the listing.
    pub open spec fn read_dir_step(
        self,
        volume: Volume,
        file: LocalFile<EzfsInode>,
        emitter: DirEmitter,
        cursor: ReadDirCursor,
        event: ReadDirEventView,
    ) -> ReadDirStepView {
        if refused(event) {
            ReadDirStepView::Return(Ok(()))
        } else {
            self.cursor_step(volume, file, answered(emitter, event), cursor)
        }
    }

    /// The slot at the position of the reader, if there is one.
    fn slot_of(&self, emitter: &DirEmitter) -> (r: Option<usize>)
        requires
            self.wf(),
        ensures
            r == self.next_slot(*emitter, ReadDirCursor::Start),
    {
        if emitter.pos() < 2 || emitter.pos() as u64 > usize::MAX as u64 {
            return None;
        }
        let disk_pos: usize = emitter.pos() as usize - 2;
        if disk_pos % self.dir_entry_size != 0 {
            return None;
        }
        let index: usize = disk_pos / self.dir_entry_size;
        if index < self.max_children {
            Some(index)
        } else {
            None
        }
    }

    /// Goes on with the entries of the directory `dir` from the slot `from` on.
    fn list_from(
        &self,
        sb: &SuperBlock<EzfsSuperblock>,
        folios: &Folios,
        dir: &EzfsInode,
        emitter: &DirEmitter,
        from: usize,
    ) -> (r: ReadDirStep)
        requires
            self.wf(),
            sb.fs_info is Some,
            self.read_dir_defined(
                Volume::of(*sb, *folios),
                *dir,
                *emitter,
                ReadDirCursor::Slot(from),
                ReadDirEventView::Ready,
            ),
        ensures
            r@ == self.slot_step(Volume::of(*sb, *folios), *dir, *emitter, from),
    {
        let cursor = ReadDirCursor::Slot(from);
        let dir_entries = match self.fetch_entries(sb, folios, dir) {
            Fetch::MapFolio(request) => return ReadDirStep::MapFolio { request, cursor },
            Fetch::Fail(e) => return ReadDirStep::Return(Err(e)),
            Fetch::Got(entries) => entries,
        };
        let inode_store = match self.fetch_inodes(sb, folios) {
            Fetch::MapFolio(request) => return ReadDirStep::MapFolio { request, cursor },
            Fetch::Fail(e) => return ReadDirStep::Return(Err(e)),
            Fetch::Got(store) => store,
        };
        let index: usize = match next_active(dir_entries, from) {
            None => return ReadDirStep::Return(Ok(())),
            Some(j) => j,
        };
        assert(index < dir_entries.len());
        let entry = &dir_entries[index];
        let ino: usize = match u64_to_usize(entry.inode_no) {
            Err(e) => return ReadDirStep::Return(Err(e)),
            Ok(ino) => ino,
        };
        let entry_inode = inode_store[ino - self.root_ino];
        let etype = DirEntryType::from_mode(entry_inode.mode);
        match emitter.emit(
            self.dir_entry_size as i64,
            entry.filename.as_slice(),
            entry.inode_no,
            etype,
        ) {
            None => ReadDirStep::Return(Ok(())),
            Some(call) => ReadDirStep::Emit { call, cursor: ReadDirCursor::Slot(index + 1) },
        }
    }
}

/// What a step with the entries of a directory for itself and for its parent means for a listing.
pub open spec fn dots_listed(step: DotsStepView) -> ReadDirStepView {
    match step {
        DotsStepView::Call(call) => ReadDirStepView::Emit { call, cursor: ReadDirCursor::Dots },
        DotsStepView::Return(false) => ReadDirStepView::Return(Ok(())),
        DotsStepView::Return(true) => ReadDirStepView::Return(Err(Error::of(ENOENT))),
    }
}

/// Whether the actor has answered that it does not take the entry.
pub open spec fn refused(event: ReadDirEventView) -> bool {
    event matches ReadDirEventView::Answered { call, taken } && !taken
}

/// The emitter after an event.
pub open spec fn answered(emitter: DirEmitter, event: ReadDirEventView) -> DirEmitter {
    match event {
        ReadDirEventView::Ready => emitter,
        ReadDirEventView::Answered { call, taken } => emitter.completed(call, taken),
    }
}

/// What a step with the entries of a directory for itself and for its parent means for a listing.
/// After them the listing ends.
fn list_dots(step: DotsStep) -> (r: ReadDirStep)
    ensures
        r@ == dots_listed(step@),
{
    match step {
        DotsStep::Call(call) => ReadDirStep::Emit { call, cursor: ReadDirCursor::Dots },
        DotsStep::Return(done) => if done {
            ReadDirStep::Return(Err(Error::of(ENOENT)))
        } else {
            ReadDirStep::Return(Ok(()))
        },
    }
}

impl RustEzFs {
    /// Whether a step of a listing can be taken, as [`Operations::read_dir`] requires.
    pub fn can_read_dir(
        &self,
        file: &File<EzfsInode>,
        sb: &SuperBlock<EzfsSuperblock>,
        folios: &Folios,
        emitter: &DirEmitter,
        cursor: ReadDirCursor,
        event: &ReadDirEvent,
    ) -> (r: bool)
        ensures
            r == self.read_dir_pre(*file, *sb, *folios, *emitter, cursor, event@),
    {
        if sb.fs_info.is_none() {
            return false;
        }
        let mut next = *emitter;
        match event {
            ReadDirEvent::Ready => {},
            ReadDirEvent::Answered { call, taken } => {
                if !next.complete(call, *taken) {
                    return true;
                }
            },
        }
        let layout = self.get_layout();
        let from: usize = match cursor {
            ReadDirCursor::Dots => return true,
            ReadDirCursor::Slot(from) => from,
            ReadDirCursor::Start => match layout.slot_of(&next) {
                None => return true,
                Some(from) => from,
            },
        };
        match layout.fetch_entries(sb, folios, file.inode().data()) {
            Fetch::Got(entries) => match layout.fetch_inodes(sb, folios) {
                Fetch::Got(store) => match next_active(entries, from) {
                    None => true,
                    Some(j) => {
                        let ino: u64 = entries[j].inode_no;
                        ino > usize::MAX as u64 || (ino >= layout.root_ino as u64 && ino
                            - (layout.root_ino as u64) < store.len() as u64)
                    },
                },
                _ => true,
            },
            _ => true,
        }
    }
}

impl Operations for RustEzFs {
    type FileSystem = RustEzFs;

    open spec fn provides_read() -> bool {
        false
    }

    open spec fn provides_read_iter() -> bool {
        false
    }

    open spec fn provides_write_iter() -> bool {
        true
    }

    open spec fn provides_seek() -> bool {
        true
    }

    open spec fn provides_read_dir() -> bool {
        true
    }

    open spec fn read_post(
        &self,
        file: File<EzfsInode>,
        buffer: Writer,
        offset: Offset,
        new_buffer: Writer,
        new_offset: Offset,
        r: Result<usize, Error>,
    ) -> bool {
        false
    }

    open spec fn read_iter_post(
        &self,
        kiocb: Kiocb<EzfsInode>,
        iov: IovIterDest,
        new_iov: IovIterDest,
        r: Result<usize, Error>,
    ) -> bool {
        false
    }

    /// Nothing is written.
    open spec fn write_iter_post(
        &self,
        kiocb: Kiocb<EzfsInode>,
        iov: IovIterSource,
        new_iov: IovIterSource,
        r: Result<usize, Error>,
    ) -> bool {
        &&& r == Ok::<usize, Error>(0)
        &&& new_iov == iov
    }

    /// The generic seek is called.
    open spec fn seek_post(
        &self,
        file: File<EzfsInode>,
        offset: Offset,
        whence: Whence,
        r: SeekStep,
    ) -> bool {
        r == SeekStep::Llseek(
            LlseekCall { file: file.local().addr, offset, whence: whence.spec_number() },
        )
    }

    open spec fn read_dir_pre(
        &self,
        file: File<EzfsInode>,
        sb: SuperBlock<EzfsSuperblock>,
        folios: Folios,
        emitter: DirEmitter,
        cursor: ReadDirCursor,
        event: ReadDirEventView,
    ) -> bool {
        &&& sb.fs_info is Some
        &&& self.layout().read_dir_defined(
            Volume::of(sb, folios),
            file.local().inode.params.value,
            emitter,
            cursor,
            event,
        )
    }

    open spec fn read_dir_post(
        &self,
        file: File<EzfsInode>,
        sb: SuperBlock<EzfsSuperblock>,
        folios: Folios,
        emitter: DirEmitter,
        cursor: ReadDirCursor,
        event: ReadDirEventView,
        new_emitter: DirEmitter,
        r: ReadDirStepView,
    ) -> bool {
        &&& new_emitter == answered(emitter, event)
        &&& r == self.layout().read_dir_step(
            Volume::of(sb, folios),
            file.local(),
            emitter,
            cursor,
            event,
        )
    }

    fn has_read() -> (r: bool) {
        false
    }

    fn has_seek() -> (r: bool) {
        true
    }

    fn has_read_dir() -> (r: bool) {
        true
    }

    fn read(&self, file: &File<EzfsInode>, buffer: &mut Writer, offset: &mut Offset) -> (r: Result<
        usize,
        Error,
    >) {
        unsupported()
    }

    fn read_iter(&self, kiocb: &Kiocb<EzfsInode>, iov: &mut IovIterDest) -> (r: Result<
        usize,
        Error,
    >) {
        unsupported()
    }

    fn write_iter(&self, kiocb: &Kiocb<EzfsInode>, iov: &mut IovIterSource) -> (r: Result<
        usize,
        Error,
    >)
        ensures
            r == Ok::<usize, Error>(0),
            *final(iov) == *old(iov),
    {
        Ok(0)
    }

    fn seek(&self, file: &File<EzfsInode>, offset: Offset, whence: Whence) -> (r: SeekStep)
        ensures
            self.seek_post(*file, offset, whence, r),
    {
        SeekStep::Llseek(generic_seek(file, offset, whence))
    }

    fn read_dir(
        &self,
        file: &File<EzfsInode>,
        sb: &SuperBlock<EzfsSuperblock>,
        folios: &Folios,
        emitter: &mut DirEmitter,
        cursor: ReadDirCursor,
        event: ReadDirEvent,
    ) -> (r: ReadDirStep)
        ensures
            *final(emitter) == answered(*old(emitter), event@),
            r@ == self.layout().read_dir_step(
                Volume::of(*sb, *folios),
                file.local(),
                *old(emitter),
                cursor,
                event@,
            ),
    {
        match event {
            ReadDirEvent::Ready => {},
            ReadDirEvent::Answered { call, taken } => {
                if let ReadDirCursor::Dots = cursor {
                    return list_dots(emitter.dots_answered(file, &call, taken));
                }
                if !emitter.complete(&call, taken) {
                    return ReadDirStep::Return(Ok(()));
                }
            },
        }
        let layout = self.get_layout();
        let dir = file.inode().data();
        match cursor {
            ReadDirCursor::Dots => list_dots(emitter.emit_dots(file)),
            ReadDirCursor::Slot(from) => layout.list_from(sb, folios, dir, emitter, from),
            ReadDirCursor::Start => {
                if emitter.pos() < 0 || emitter.pos() as u64 > usize::MAX as u64 {
                    return ReadDirStep::Return(Err(Error::of(ENOENT)));
                }
                let pos: usize = emitter.pos() as usize;
                if pos < 2 {
                    return list_dots(emitter.emit_dots(file));
                }
                let disk_pos: usize = pos - 2;
                if disk_pos % layout.dir_entry_size != 0 {
                    return ReadDirStep::Return(Err(Error::of(ENOENT)));
                }
                let index: usize = disk_pos / layout.dir_entry_size;
                if index >= layout.max_children {
                    return ReadDirStep::Return(Ok(()));
                }
                layout.list_from(sb, folios, dir, emitter, index)
            },
        }
    }
}

} // verus!
