//! What the file layer gives, said of the calls themselves: each law speaks of the arguments of a
//! call and of what comes of it.
use vstd::prelude::*;

use crate::error::{Error, EINVAL};
use crate::ezfs::record::EzfsInode;
use crate::ezfs::results::{lists_only, regular_only, rest_is_empty};
use crate::ezfs::RustEzFs;
use crate::fs::file::callback::{
    count_out, listing_return, read_allowed, read_callback, read_dir_begin, read_dir_callback,
    read_iter_callback, return_count, seek_callback, seek_callback_result, seek_return,
    write_iter_callback, GenericReadIterCall, ReadDirReturn, ReadDirRun, SeekReturn,
};
use crate::fs::file::dir::{ActorCall, DirEmitter, DirEntryType, DotsStep};
use crate::fs::file::ops::{
    unsupported, DefaultOperations, Handler, IovIterDest, IovIterSource, Kiocb, Operations, Ops,
    OpsTable, ReadDirCursor, ReadDirEvent, ReadDirEventView, ReadDirStep, ReadDirStepView, SeekStep,
    Writer,
};
use crate::fs::file::{
    flags, generic_seek, generic_seek_result, ARef, BadFdError, Credential, DescriptorCall, File,
    FileCall, FileDescriptorReservation, LlseekCall, LocalFile, Whence,
};
use crate::fs::mode;
use crate::fs::{FileSystem, Offset};
use crate::inode::{INode, Type};
use crate::sb::{DEntry, SuperBlock};

verus! {

/// What a number of bytes, or an error, is answered with: the number itself if it fits, and the
/// error number otherwise.
pub open spec fn answers(r: Result<usize, Error>, n: isize) -> bool {
    match r {
        Ok(count) => n == if count <= isize::MAX { count as int } else { -22 },
        Err(e) => -4095 <= e.errno <= -1 ==> n == e.errno,
    }
}

/// A number of bytes is handed outside as exactly that number, and an error as its number.
pub proof fn law_count_is_handed_out(r: Result<usize, Error>, n: isize)
    requires
        call_ensures(return_count, (r,), n),
    ensures
        match r {
            Ok(count) => {
                &&& count <= isize::MAX ==> n as int == count as int
                &&& count > isize::MAX ==> n == -22
            },
            Err(e) => -4095 <= e.errno <= -1 ==> n as int == e.errno as int,
        },
{
}

/// Reading is answered with what the implementation returns: the number of bytes that it has read,
/// or its error. It reads into an empty buffer with the caller's memory, from the caller's offset,
/// and what it leaves there is handed out.
pub proof fn law_read_is_answered<T: Operations>(
    ops: T,
    file: File<<T::FileSystem as FileSystem>::INodeData>,
    addr: usize,
    len: usize,
    offset: &mut Offset,
    r: (isize, Writer),
)
    requires
        call_ensures(read_callback::<T>, (&ops, &file, addr, len, offset), r),
    ensures
        T::provides_read() ==> exists|buffer: Writer, read: Result<usize, Error>|
            {
                &&& #[trigger] ops.read_post(
                    file,
                    buffer,
                    *old(offset),
                    r.1,
                    *final(offset),
                    read,
                )
                &&& buffer.addr == addr && buffer.len == len && buffer.data@.len() == 0
                &&& answers(read, r.0)
            },
        !T::provides_read() ==> {
            &&& r.0 == -22
            &&& *final(offset) == *old(offset)
            &&& r.1.addr == addr && r.1.len == len && r.1.data@.len() == 0
        },
{
    let (buffer, read) = choose|buffer: Writer, read: Result<usize, Error>|
        {
            &&& buffer.addr == addr && buffer.len == len && buffer.data@ == Seq::<u8>::empty()
            &&& #[trigger] read_allowed(
                &ops,
                file,
                buffer,
                *old(offset),
                r.1,
                *final(offset),
                read,
            )
            &&& r.0 == count_out(read)
        };
    assert(T::provides_read() ==> ops.read_post(
        file,
        buffer,
        *old(offset),
        r.1,
        *final(offset),
        read,
    ));
}

/// An implementation that always reads `n` bytes is answered with `n`.
pub proof fn law_read_count_arrives<T: Operations>(
    ops: T,
    file: File<<T::FileSystem as FileSystem>::INodeData>,
    addr: usize,
    len: usize,
    offset: &mut Offset,
    r: (isize, Writer),
    n: usize,
)
    requires
        call_ensures(read_callback::<T>, (&ops, &file, addr, len, offset), r),
        T::provides_read(),
        n <= isize::MAX,
        forall|b: Writer, o: Offset, c: Writer, p: Offset, read: Result<usize, Error>|
            #[trigger] ops.read_post(file, b, o, c, p, read) ==> read == Ok::<usize, Error>(n),
    ensures
        r.0 == n,
{
    law_read_is_answered(ops, file, addr, len, offset, r);
}

/// Writing is answered with what the implementation returns: the number of bytes that it has
/// written, or its error. What it leaves of the buffers is what is left.
pub proof fn law_write_is_answered<T: Operations>(
    ops: T,
    kiocb: Kiocb<<T::FileSystem as FileSystem>::INodeData>,
    iov: &mut IovIterSource,
    r: isize,
)
    requires
        call_ensures(write_iter_callback::<T>, (&ops, &kiocb, iov), r),
    ensures
        T::provides_write_iter() ==> exists|written: Result<usize, Error>|
            {
                &&& #[trigger] ops.write_iter_post(kiocb, *old(iov), *final(iov), written)
                &&& answers(written, r)
            },
        !T::provides_write_iter() ==> r == -22 && *final(iov) == *old(iov),
{
    let written = choose|written: Result<usize, Error>|
        {
            &&& T::provides_write_iter() ==> ops.write_iter_post(
                kiocb,
                *old(iov),
                *final(iov),
                written,
            )
            &&& !T::provides_write_iter() ==> written == Err::<usize, Error>(Error { errno: EINVAL })
                && *final(iov) == *old(iov)
            &&& r == #[trigger] count_out(written)
        };
    assert(T::provides_write_iter() ==> ops.write_iter_post(
        kiocb,
        *old(iov),
        *final(iov),
        written,
    ));
}

/// A read into a sequence of buffers is passed on to the page cache, for the same request and the
/// same buffers.
pub proof fn law_read_iter_is_passed_on(kiocb: usize, iter: usize, r: GenericReadIterCall)
    requires
        call_ensures(read_iter_callback, (kiocb, iter), r),
    ensures
        r.kiocb == kiocb,
        r.iter == iter,
{
}

/// The value of a `whence` that has the number `n`.
pub open spec fn whence_of(n: i32, w: Whence) -> bool {
    &&& w is Start <==> n == 0
    &&& w is Cur <==> n == 1
    &&& w is End <==> n == 2
    &&& w is Data <==> n == 3
    &&& w is Hole <==> n == 4
}

/// Seeking is answered with what the implementation asks for or returns, for the caller's offset
/// and the value that the caller's number stands for; a number that stands for none is refused.
pub proof fn law_seek_is_answered<T: Operations>(
    ops: T,
    file: File<<T::FileSystem as FileSystem>::INodeData>,
    offset: Offset,
    whence: i32,
    r: SeekReturn,
)
    requires
        call_ensures(seek_callback::<T>, (&ops, &file, offset, whence), r),
    ensures
        whence < 0 || whence > 4 ==> (r matches SeekReturn::Return(n) && n == -33),
        0 <= whence <= 4 && !T::provides_seek() ==> (r matches SeekReturn::Return(n) && n
            == -22),
        0 <= whence <= 4 && T::provides_seek() ==> exists|w: Whence, s: SeekStep|
            {
                &&& whence_of(whence, w)
                &&& #[trigger] ops.seek_post(file, offset, w, s)
                &&& match s {
                    SeekStep::Llseek(call) => r == SeekReturn::Llseek(call),
                    SeekStep::Return(Ok(pos)) => r == SeekReturn::Return(pos),
                    SeekStep::Return(Err(e)) => -4095 <= e.errno <= -1 ==> r
                        == SeekReturn::Return(e.errno as i64),
                }
            },
{
    if 0 <= whence <= 4 {
        let w = if whence == 0 {
            Whence::Start
        } else if whence == 1 {
            Whence::Cur
        } else if whence == 2 {
            Whence::End
        } else if whence == 3 {
            Whence::Data
        } else {
            Whence::Hole
        };
        assert(whence_of(whence, w));
        let s = choose|s: SeekStep|
            {
                &&& T::provides_seek() ==> ops.seek_post(file, offset, w, s)
                &&& !T::provides_seek() ==> s == SeekStep::Return(
                    Err::<i64, Error>(Error { errno: EINVAL }),
                )
                &&& r == #[trigger] seek_return(s)
            };
        assert(T::provides_seek() ==> ops.seek_post(file, offset, w, s));
    }
}

/// The file system seeks a file in the generic way: the same file, the same offset and the same
/// number. It writes nothing, and takes nothing from the buffers that it is given.
pub proof fn law_file_system_seeks_generically(
    fs: RustEzFs,
    file: File<EzfsInode>,
    offset: Offset,
    whence: i32,
    r: SeekReturn,
    kiocb: Kiocb<EzfsInode>,
    iov: &mut IovIterSource,
    written: isize,
)
    requires
        call_ensures(seek_callback::<RustEzFs>, (&fs, &file, offset, whence), r),
        call_ensures(write_iter_callback::<RustEzFs>, (&fs, &kiocb, iov), written),
    ensures
        0 <= whence <= 4 ==> r == SeekReturn::Llseek(
            LlseekCall { file: file.local().addr, offset, whence },
        ),
        written == 0,
        *final(iov) == *old(iov),
{
    law_seek_is_answered(fs, file, offset, whence, r);
    law_write_is_answered(fs, kiocb, iov, written);
}

/// The answer of the generic seek is the answer: a position as it is, and an error number too.
pub proof fn law_generic_seek(
    file: File<EzfsInode>,
    offset: Offset,
    whence: Whence,
    call: LlseekCall,
    n: i64,
    r: Result<Offset, Error>,
    out: i64,
    number: i32,
)
    requires
        call_ensures(generic_seek::<EzfsInode>, (&file, offset, whence), call),
        call_ensures(generic_seek_result, (n,), r),
        call_ensures(seek_callback_result, (n,), out),
        call_ensures(Whence::number, (whence,), number),
    ensures
        call.file == file.local().addr,
        call.offset == offset,
        whence_of(call.whence, whence),
        number == call.whence,
        n >= 0 ==> r == Ok::<Offset, Error>(n) && out == n,
        -4095 <= n < 0 ==> (r matches Err(e) && e.errno == n) && out == n,
        n < -4095 ==> (r matches Err(e) && e.errno == -22) && out == -22,
{
}

/// The numbers of the values of `Whence` and back.
pub proof fn law_whence_numbers(n: i32, r: Result<Whence, Error>)
    requires
        call_ensures(<Whence as TryFrom<i32>>::try_from, (n,), r),
    ensures
        match r {
            Ok(w) => 0 <= n <= 4 && whence_of(n, w),
            Err(e) => (n < 0 || n > 4) && e.errno == -33,
        },
{
}

/// A listing begins at the position of the reader. It asks for what the implementation asks for,
/// and is answered with zero, or with the error of the implementation if the reader has not moved.
pub proof fn law_read_dir_is_answered<T: Operations>(
    ops: T,
    file: File<<T::FileSystem as FileSystem>::INodeData>,
    sb: SuperBlock<<T::FileSystem as FileSystem>::Data>,
    folios: <T::FileSystem as FileSystem>::Folios,
    emitter: &mut DirEmitter,
    run: ReadDirRun,
    event: ReadDirEvent,
    r: ReadDirReturn,
    begun: ReadDirRun,
)
    requires
        call_ensures(
            read_dir_callback::<T>,
            (&ops, &file, &sb, &folios, emitter, run, event),
            r,
        ),
        call_ensures(read_dir_begin, (&*old(emitter),), begun),
    ensures
        begun.orig_pos == old(emitter).pos,
        begun.cursor == ReadDirCursor::Start,
        !T::provides_read_dir() ==> *final(emitter) == *old(emitter),
        !T::provides_read_dir() ==> r == ReadDirReturn::Return(
            if old(emitter).pos == run.orig_pos {
                EINVAL
            } else {
                0
            },
        ),
        T::provides_read_dir() ==> exists|s: ReadDirStepView|
            {
                &&& #[trigger] ops.read_dir_post(
                    file,
                    sb,
                    folios,
                    *old(emitter),
                    run.cursor,
                    event@,
                    *final(emitter),
                    s,
                )
                &&& match s {
                    ReadDirStepView::MapFolio { request, cursor } => r == (
                    ReadDirReturn::MapFolio {
                        request,
                        run: ReadDirRun { orig_pos: run.orig_pos, cursor },
                    }),
                    ReadDirStepView::Emit { call, cursor } => {
                        &&& r matches ReadDirReturn::Emit { call: made, run: next }
                        &&& made.name@ == call.name && made.name_len == call.name_len
                        &&& made.pos == call.pos && made.new_pos == call.new_pos
                        &&& made.ino == call.ino && made.dtype == call.dtype
                        &&& next.orig_pos == run.orig_pos && next.cursor == cursor
                    },
                    ReadDirStepView::Return(Ok(_)) => r == ReadDirReturn::Return(0),
                    ReadDirStepView::Return(Err(e)) => {
                        &&& final(emitter).pos != run.orig_pos ==> r == ReadDirReturn::Return(0)
                        &&& final(emitter).pos == run.orig_pos && -4095 <= e.errno <= -1 ==> r
                            == ReadDirReturn::Return(e.errno)
                    },
                }
            },
{
    let s = choose|s: ReadDirStepView|
        {
            &&& T::provides_read_dir() ==> ops.read_dir_post(
                file,
                sb,
                folios,
                *old(emitter),
                run.cursor,
                event@,
                *final(emitter),
                s,
            )
            &&& !T::provides_read_dir() ==> s == ReadDirStepView::Return(
                Err(Error { errno: EINVAL }),
            ) && *final(emitter) == *old(emitter)
            &&& r@ == #[trigger] listing_return(
                s,
                run.orig_pos,
                final(emitter).pos,
            )
        };
    assert(T::provides_read_dir() ==> ops.read_dir_post(
        file,
        sb,
        folios,
        *old(emitter),
        run.cursor,
        event@,
        *final(emitter),
        s,
    ));
}

/// The views of the steps and events of a listing say what these hold.
pub proof fn law_view_says_what_the_step_is(s: ReadDirStep, event: ReadDirEvent, call: ActorCall)
    ensures
        match s {
            ReadDirStep::MapFolio { request, cursor } => s@ == (ReadDirStepView::MapFolio {
                request,
                cursor,
            }),
            ReadDirStep::Emit { call, cursor } => s@ == (ReadDirStepView::Emit {
                call: call@,
                cursor,
            }),
            ReadDirStep::Return(r) => s@ == ReadDirStepView::Return(r),
        },
        match event {
            ReadDirEvent::Ready => event@ is Ready,
            ReadDirEvent::Answered { call, taken } => event@ matches
                ReadDirEventView::Answered { call: c, taken: t } && c == call@
                && t == taken,
        },
        call@.name == call.name@ && call@.name_len == call.name_len,
        call@.pos == call.pos && call@.new_pos == call.new_pos,
        call@.ino == call.ino && call@.dtype == call.dtype,
{
}

/// An operation that is not provided fails with `EINVAL` and leaves everything as it is.
pub proof fn law_unprovided_operations<F: FileSystem>(
    ops: DefaultOperations<F>,
    r: Result<usize, Error>,
    kiocb: Kiocb<F::INodeData>,
    dest: &mut IovIterDest,
    read: Result<usize, Error>,
)
    requires
        call_ensures(unsupported::<usize>, (), r),
        call_ensures(<DefaultOperations<F> as Operations>::read_iter, (&ops, &kiocb, dest), read),
    ensures
        r matches Err(e) && e.errno == -22,
        read matches Err(e) && e.errno == -22,
        *final(dest) == *old(dest),
        !<DefaultOperations<F> as Operations>::provides_read(),
        !<DefaultOperations<F> as Operations>::provides_read_iter(),
        !<DefaultOperations<F> as Operations>::provides_write_iter(),
        !<DefaultOperations<F> as Operations>::provides_seek(),
        !<DefaultOperations<F> as Operations>::provides_read_dir(),
{
}

/// The file system seeks, lists and writes, and has no reading of its own.
pub proof fn law_operations_of_the_file_system(
    fs: RustEzFs,
    kiocb: Kiocb<EzfsInode>,
    dest: &mut IovIterDest,
    read: Result<usize, Error>,
    has: (bool, bool, bool),
)
    requires
        call_ensures(<RustEzFs as Operations>::read_iter, (&fs, &kiocb, dest), read),
        call_ensures(<RustEzFs as Operations>::has_read, (), has.0),
        call_ensures(<RustEzFs as Operations>::has_seek, (), has.1),
        call_ensures(<RustEzFs as Operations>::has_read_dir, (), has.2),
    ensures
        read matches Err(e) && e.errno == -22,
        *final(dest) == *old(dest),
        has == (false, true, true),
        !<RustEzFs as Operations>::provides_read(),
        !<RustEzFs as Operations>::provides_read_iter(),
        <RustEzFs as Operations>::provides_write_iter(),
        <RustEzFs as Operations>::provides_seek(),
        <RustEzFs as Operations>::provides_read_dir(),
{
}

/// The table of a kind of file has a handler for what the implementation provides, and for nothing
/// else; a table for the file system is that of its files or of its directories.
pub proof fn law_tables_hold_what_is_provided<U: Operations>(
    file: Ops<<U::FileSystem as FileSystem>::INodeData>,
    dir: Ops<<U::FileSystem as FileSystem>::INodeData>,
    ro: Ops<<U::FileSystem as FileSystem>::INodeData>,
)
    requires
        call_ensures(Ops::<<U::FileSystem as FileSystem>::INodeData>::new_file::<U>, (), file),
        call_ensures(Ops::<<U::FileSystem as FileSystem>::INodeData>::new_dir::<U>, (), dir),
        call_ensures(Ops::<<U::FileSystem as FileSystem>::INodeData>::generic_ro_file, (), ro),
    ensures
        ro.inner == OpsTable::GenericRo,
        ({
            &&& file.inner matches OpsTable::Table(t)
            &&& t.llseek == if U::provides_seek() { Some(Handler::Seek) } else { None }
            &&& t.read == if U::provides_read() { Some(Handler::Read) } else { None }
            &&& t.write is None && t.iterate_shared is None
            &&& t.read_iter == Some(Handler::ReadIter)
            &&& t.write_iter == Some(Handler::WriteIter)
            &&& t.mmap == Some(Handler::GenericFileMmap)
            &&& t.splice_read == Some(Handler::FilemapSpliceRead)
            &&& rest_is_empty(t)
        }),
        ({
            &&& dir.inner matches OpsTable::Table(t)
            &&& t.iterate_shared == if U::provides_read_dir() { Some(Handler::ReadDir) } else {
                None
            }
            &&& t.llseek is None && t.read is None && t.write is None && t.read_iter is None
            &&& t.write_iter is None && t.mmap is None && t.splice_read is None
            &&& rest_is_empty(t)
        }),
{
}

/// The tables that the file system gives its files and its directories.
pub proof fn law_tables_of_the_file_system(
    fs: RustEzFs,
    file: Ops<EzfsInode>,
    dir: Ops<EzfsInode>,
)
    requires
        call_ensures(RustEzFs::file_fops, (&fs,), file),
        call_ensures(RustEzFs::dir_fops, (&fs,), dir),
    ensures
        file.inner matches OpsTable::Table(t) && regular_only(t),
        dir.inner matches OpsTable::Table(t) && lists_only(t),
{
}

/// An entry is handed to the actor as it is, at the position of the reader, and with the position
/// that follows by the increment. It is not handed over if and only if its name is too long, there
/// is no actor, or the position does not fit.
pub proof fn law_emit(
    emitter: DirEmitter,
    pos_inc: Offset,
    name: &[u8],
    ino: u64,
    etype: DirEntryType,
    r: Option<ActorCall>,
    number: u32,
    pos: Offset,
)
    requires
        call_ensures(DirEmitter::emit, (&emitter, pos_inc, name, ino, etype), r),
        call_ensures(DirEntryType::number, (etype,), number),
        call_ensures(DirEmitter::pos, (&emitter,), pos),
    ensures
        pos == emitter.pos,
        r is None <==> name@.len() > i32::MAX || !emitter.has_actor || emitter.pos + pos_inc
            > i64::MAX || emitter.pos + pos_inc < i64::MIN,
        r matches Some(call) ==> {
            &&& call.name@ == name@
            &&& call.name_len == name@.len()
            &&& call.pos == emitter.pos
            &&& call.new_pos == emitter.pos + pos_inc
            &&& call.ino == ino
            &&& call.dtype == number
        },
{
}

/// An entry that was taken moves the reader to the position after it, and one that was not leaves
/// it where it is.
pub proof fn law_emit_is_completed(
    emitter: &mut DirEmitter,
    call: ActorCall,
    taken: bool,
    r: bool,
)
    requires
        call_ensures(DirEmitter::complete, (emitter, &call, taken), r),
    ensures
        r == taken,
        final(emitter).pos == if taken { call.new_pos } else { old(emitter).pos },
        final(emitter).has_actor == old(emitter).has_actor,
{
}

/// What is due of the entries of a directory for itself and for its parent, with the reader at
/// `pos`: one dot and the directory at position 0, two dots and its parent at position 1, and
/// nothing elsewhere.
pub open spec fn dots_due<D>(
    pos: Offset,
    has_actor: bool,
    file: LocalFile<D>,
    r: DotsStep,
) -> bool {
    if pos != 0 && pos != 1 {
        r == DotsStep::Return(true)
    } else if !has_actor {
        r == DotsStep::Return(false)
    } else {
        &&& r matches DotsStep::Call(call)
        &&& call.name@.len() == pos + 1
        &&& forall|i: int| 0 <= i <= pos ==> #[trigger] call.name@[i] == 46u8
        &&& call.name_len == pos + 1
        &&& call.pos == pos
        &&& call.new_pos == pos + 1
        &&& call.ino == if pos == 0 { file.inode.ino } else { file.dentry.parent_ino }
        &&& call.dtype == 4
    }
}

/// The entries of a directory for itself and for its parent come in turn, each until it is taken or
/// declined; one that is declined ends them and leaves the reader where it is.
pub proof fn law_dots<D>(
    emitter: &mut DirEmitter,
    file: File<D>,
    call: ActorCall,
    taken: bool,
    first: DotsStep,
    r: DotsStep,
)
    requires
        call_ensures(DirEmitter::emit_dots::<D>, (&*old(emitter), &file), first),
        call_ensures(DirEmitter::dots_answered::<D>, (emitter, &file, &call, taken), r),
    ensures
        dots_due(old(emitter).pos, old(emitter).has_actor, file.local(), first),
        !taken ==> r == DotsStep::Return(false) && *final(emitter) == *old(emitter),
        taken ==> {
            &&& final(emitter).pos == call.new_pos
            &&& final(emitter).has_actor == old(emitter).has_actor
            &&& dots_due(call.new_pos, old(emitter).has_actor, file.local(), r)
        },
{
}

/// The number of each type of directory entry.
pub open spec fn entry_number(t: DirEntryType) -> int {
    match t {
        DirEntryType::Unknown => 0,
        DirEntryType::Fifo => 1,
        DirEntryType::Chr => 2,
        DirEntryType::Dir => 4,
        DirEntryType::Blk => 6,
        DirEntryType::Reg => 8,
        DirEntryType::Lnk => 10,
        DirEntryType::Sock => 12,
        DirEntryType::Wht => 14,
    }
}

/// The types of directory entries and their numbers belong to each other. The type for a mode is
/// the one whose number the file type bits of the mode are, and unknown if there is none.
pub proof fn law_entry_types(
    t: DirEntryType,
    n: u32,
    v: u32,
    read: Result<DirEntryType, Error>,
    mode: u32,
    of: DirEntryType,
)
    requires
        call_ensures(DirEntryType::number, (t,), n),
        call_ensures(<DirEntryType as TryFrom<u32>>::try_from, (v,), read),
        call_ensures(DirEntryType::from_mode, (mode,), of),
    ensures
        n == entry_number(t),
        match read {
            Ok(u) => entry_number(u) == v,
            Err(e) => e.errno == -33 && entry_number(t) != v,
        },
        entry_number(of) == (mode / 4096) % 16 || (of is Unknown && (forall|u: DirEntryType|
            #[trigger] entry_number(u) != (mode / 4096) % 16)),
{
    assert(mode & 0o170000 == ((mode / 4096) % 16) * 4096 && (mode / 4096) % 16 < 16) by (bit_vector);
}

/// The type of a directory entry for an inode is the one that is called like the type of the inode.
pub proof fn law_entry_type_for_inode(typ: Type, t: DirEntryType)
    requires
        call_ensures(<DirEntryType as From<&Type>>::from, (&typ,), t),
    ensures
        t is Fifo <==> typ is Fifo,
        t is Chr <==> typ is Chr,
        t is Dir <==> typ is Dir,
        t is Blk <==> typ is Blk,
        t is Reg <==> typ is Reg,
        t is Lnk <==> typ is Lnk,
        t is Sock <==> typ is Sock,
{
}

/// What was read from an open file is what its getters give, for a file that can be shared too.
pub proof fn law_file_is_what_was_read<D>(
    raw: LocalFile<D>,
    local: LocalFile<D>,
    file: File<D>,
    seen: &LocalFile<D>,
    addr: usize,
    cred: &Credential,
    file_flags: u32,
    inode: &INode<D>,
    dentry: &DEntry,
    parent: usize,
)
    requires
        call_ensures(LocalFile::<D>::from_raw_file, (raw,), local),
        call_ensures(File::<D>::from_raw_file, (raw,), file),
        call_ensures(<File<D> as core::ops::Deref>::deref, (&file,), seen),
        call_ensures(LocalFile::<D>::as_ptr, (seen,), addr),
        call_ensures(LocalFile::<D>::cred, (seen,), cred),
        call_ensures(LocalFile::<D>::flags, (seen,), file_flags),
        call_ensures(LocalFile::<D>::inode, (seen,), inode),
        call_ensures(LocalFile::<D>::dentry, (seen,), dentry),
        call_ensures(LocalFile::<D>::parent_ino, (seen,), parent),
    ensures
        local == raw,
        *seen == raw,
        file.local() == raw,
        addr == raw.addr,
        *cred == raw.cred,
        file_flags == raw.flags,
        *inode == raw.inode,
        *dentry == raw.dentry,
        parent == raw.dentry.parent_ino,
        !raw.pos_unlocked ==> call_requires(File::<D>::from_raw_file, (raw,)),
{
}

/// References are added to and given back of the file itself.
pub proof fn law_references_of_the_file<D>(
    raw: LocalFile<D>,
    file: File<D>,
    calls: (FileCall, FileCall, FileCall, FileCall),
)
    requires
        call_ensures(File::<D>::from_raw_file, (raw,), file),
        call_ensures(LocalFile::<D>::inc_ref, (&raw,), calls.0),
        call_ensures(LocalFile::<D>::dec_ref, (&raw,), calls.1),
        call_ensures(File::<D>::inc_ref, (&file,), calls.2),
        call_ensures(File::<D>::dec_ref, (&file,), calls.3),
    ensures
        calls.0 == FileCall::GetFile(raw.addr),
        calls.1 == FileCall::Fput(raw.addr),
        calls.2 == FileCall::GetFile(raw.addr),
        calls.3 == FileCall::Fput(raw.addr),
{
}

/// A descriptor is looked up under its own number. A file that is found is what the handle refers
/// to, also once it is taken for one that can be shared, and no file is `EBADF`.
pub proof fn law_descriptor_lookup<D>(
    fd: u32,
    call: DescriptorCall,
    found: usize,
    r: Result<ARef<LocalFile<D>>, BadFdError>,
    now: LocalFile<D>,
    shared: ARef<File<D>>,
    e: Error,
    printed: &'static str,
)
    requires
        call_ensures(LocalFile::<D>::fget, (fd,), call),
        call_ensures(LocalFile::<D>::fget_result, (found,), r),
        r matches Ok(handle) ==> call_ensures(
            LocalFile::<D>::assume_no_fdget_pos,
            (handle, &now),
            shared,
        ),
        call_ensures(<Error as From<BadFdError>>::from, (BadFdError,), e),
        call_ensures(BadFdError::name, (&BadFdError,), printed),
    ensures
        call == DescriptorCall::Fget(fd),
        r is Err <==> found == 0,
        r matches Ok(handle) ==> handle.addr == found && shared.addr == found,
        r matches Ok(handle) ==> (now.addr == found && !now.pos_unlocked ==> call_requires(
            LocalFile::<D>::assume_no_fdget_pos,
            (handle, &now),
        )),
        e.errno == -9,
        printed@ == seq!['E', 'B', 'A', 'D', 'F'],
{
    reveal_strlit("EBADF");
}

/// A reservation is for the descriptor that the request was answered with: that descriptor is
/// shown, bound to the file, or given back. An error of the request is the error.
pub proof fn law_reservation_keeps_its_descriptor<D>(
    wanted: u32,
    call: DescriptorCall,
    ret: i32,
    r: Result<FileDescriptorReservation, Error>,
    shown: u32,
    file: ARef<File<D>>,
    installed: FileCall,
    dropped: FileCall,
)
    requires
        call_ensures(FileDescriptorReservation::get_unused_fd_flags, (wanted,), call),
        call_ensures(FileDescriptorReservation::from_unused_fd, (ret,), r),
        r matches Ok(it) ==> {
            &&& call_ensures(FileDescriptorReservation::reserved_fd, (&it,), shown)
            &&& call_ensures(FileDescriptorReservation::fd_install::<D>, (it, file), installed)
            &&& call_ensures(FileDescriptorReservation::drop, (it,), dropped)
        },
    ensures
        call == DescriptorCall::GetUnusedFdFlags(wanted),
        r is Ok <==> ret >= 0,
        r is Ok ==> {
            &&& shown == ret
            &&& installed matches FileCall::FdInstall { fd, file: at } && fd == ret && at == file.addr
            &&& dropped matches FileCall::PutUnusedFd(fd) && fd == ret
        },
        r matches Err(e) ==> e.errno == if ret >= -4095 { ret as int } else { -22 },
{
}

/// The file type bits of a mode, and the flags of an open file.
pub proof fn law_modes_and_flags()
    ensures
        mode::S_IFMT == 15 * 4096 && mode::S_IFIFO == 4096 && mode::S_IFCHR == 2 * 4096,
        mode::S_IFDIR == 4 * 4096 && mode::S_IFBLK == 6 * 4096 && mode::S_IFREG == 8 * 4096,
        mode::S_IFLNK == 10 * 4096 && mode::S_IFSOCK == 12 * 4096,
        flags::O_RDONLY == 0 && flags::O_WRONLY == 1 && flags::O_RDWR == 2,
        flags::O_ACCMODE == 3 && flags::O_CREAT == 0x40 && flags::O_EXCL == 0x80,
        flags::O_NOCTTY == 0x100 && flags::O_TRUNC == 0x200 && flags::O_APPEND == 0x400,
        flags::O_NONBLOCK == 0x800 && flags::O_NDELAY == flags::O_NONBLOCK,
        flags::O_DSYNC == 0x1000 && flags::O_ASYNC == 0x2000 && flags::O_DIRECT == 0x4000,
        flags::O_LARGEFILE == 0x8000 && flags::O_DIRECTORY == 0x10000,
        flags::O_NOFOLLOW == 0x20000 && flags::O_NOATIME == 0x40000 && flags::O_CLOEXEC == 0x80000,
        flags::O_SYNC == 0x100000 + flags::O_DSYNC && flags::O_PATH == 0x200000,
        flags::O_TMPFILE == 0x400000 + flags::O_DIRECTORY,
{
}

} // verus!
