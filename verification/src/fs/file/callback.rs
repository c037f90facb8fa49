//! The callbacks that stand in the tables of file operations.
//!
//! A callback turns what comes in as numbers into arguments of an operation, and what an operation
//! returns into a number again: an error becomes its error number.
use vstd::prelude::*;

use crate::error::{
    from_result_i32, from_result_i64, from_result_isize, result_i32, result_i64, result_isize,
    to_isize_spec, usize_to_isize, Error,
};
use crate::fs::file::dir::{ActorCall, DirEmitter, DirRecord};
use crate::fs::file::ops::{
    unsupported_read, unsupported_spec, IovIterSource, Kiocb, Operations, ReadDirCursor,
    ReadDirEvent, ReadDirStep, ReadDirStepView, SeekStep, Writer,
};
use crate::fs::file::{generic_seek_result, seek_result, File, LlseekCall, Whence};
use crate::fs::{FileSystem, Offset};
use crate::mapper::FolioRequest;
use crate::sb::SuperBlock;
use vstd::std_specs::convert::TryFromSpec;

verus! {

/// What the callback for seeking asks for.
#[derive(Copy, Clone, PartialEq, Eq, Structural, Debug)]
pub enum SeekReturn {
    /// The generic seek is to be called; [`seek_callback_result`] reads its answer.
    Llseek(LlseekCall),
    /// The new position, or an error number.
    Return(i64),
}

/// What the callback makes of a step of the operation.
pub open spec fn seek_return(s: SeekStep) -> SeekReturn {
    match s {
        SeekStep::Llseek(call) => SeekReturn::Llseek(call),
        SeekStep::Return(r) => SeekReturn::Return(result_i64(r)),
    }
}

/// Seeks a file: a `whence` that is none is refused, the rest is up to the operation.
pub fn seek_callback<T: Operations>(
    ops: &T,
    file: &File<<T::FileSystem as FileSystem>::INodeData>,
    offset: Offset,
    whence: i32,
) -> (r: SeekReturn)
    ensures
        match Whence::try_from_spec(whence) {
            Err(e) => r == SeekReturn::Return(result_i64(Err(e))),
            Ok(w) => exists|s: SeekStep|
                {
                    &&& T::provides_seek() ==> ops.seek_post(*file, offset, w, s)
                    &&& !T::provides_seek() ==> s == SeekStep::Return(unsupported_spec())
                    &&& r == #[trigger] seek_return(s)
                },
        },
{
    match Whence::try_from(whence) {
        Err(e) => SeekReturn::Return(from_result_i64(Err(e))),
        Ok(w) => {
            let s = ops.seek(file, offset, w);
            let r = match s {
                SeekStep::Llseek(call) => SeekReturn::Llseek(call),
                SeekStep::Return(r) => SeekReturn::Return(from_result_i64(r)),
            };
            assert(r == seek_return(s));
            r
        },
    }
}

/// Reads the answer of a generic seek for the callback.
pub fn seek_callback_result(n: i64) -> (r: i64)
    ensures
        r == result_i64(seek_result(n)),
{
    from_result_i64(generic_seek_result(n))
}

/// What a callback makes of a number of bytes: one that is too large for the answer is `EINVAL`.
pub open spec fn count_out(r: Result<usize, Error>) -> isize {
    match r {
        Ok(n) => result_isize(to_isize_spec(n as int)),
        Err(e) => result_isize(Err(e)),
    }
}

/// Hands a number of bytes outside.
pub fn return_count(r: Result<usize, Error>) -> (n: isize)
    ensures
        n == count_out(r),
{
    match r {
        Ok(n) => from_result_isize(usize_to_isize(n)),
        Err(e) => from_result_isize(Err(e)),
    }
}

/// What may come of a read of `file`: what the implementation says, or that it does not provide
/// reading.
pub open spec fn read_allowed<T: Operations>(
    ops: &T,
    file: File<<T::FileSystem as FileSystem>::INodeData>,
    buffer: Writer,
    offset: Offset,
    new_buffer: Writer,
    new_offset: Offset,
    r: Result<usize, Error>,
) -> bool {
    if T::provides_read() {
        ops.read_post(file, buffer, offset, new_buffer, new_offset, r)
    } else {
        unsupported_read(buffer, offset, new_buffer, new_offset, r)
    }
}

/// Reads from a file into the `len` bytes of memory at `addr`. Returns, beside the answer, what is
/// to be put there.
pub fn read_callback<T: Operations>(
    ops: &T,
    file: &File<<T::FileSystem as FileSystem>::INodeData>,
    addr: usize,
    len: usize,
    offset: &mut Offset,
) -> (r: (isize, Writer))
    ensures
        exists|buffer: Writer, read: Result<usize, Error>|
            {
                &&& buffer.addr == addr && buffer.len == len && buffer.data@ == Seq::<u8>::empty()
                &&& #[trigger] read_allowed(
                    ops,
                    *file,
                    buffer,
                    *old(offset),
                    r.1,
                    *final(offset),
                    read,
                )
                &&& r.0 == count_out(read)
            },
{
    let mut writer = Writer { addr, len, data: Vec::new() };
    let ghost buffer = writer;
    let read = ops.read(file, &mut writer, offset);
    let r = (return_count(read), writer);
    assert(read_allowed(ops, *file, buffer, *old(offset), r.1, *final(offset), read));
    r
}

/// A call of the generic read out of the page cache, which answers a read into a sequence of
/// buffers.
#[derive(Copy, Clone, PartialEq, Eq, Structural, Debug)]
pub struct GenericReadIterCall {
    /// Where the request lies.
    pub kiocb: usize,
    /// Where the sequence of buffers lies.
    pub iter: usize,
}

/// Reads from a file into a sequence of buffers: the page cache does it, and its answer is the
/// answer.
pub fn read_iter_callback(kiocb: usize, iter: usize) -> (r: GenericReadIterCall)
    ensures
        r == (GenericReadIterCall { kiocb, iter }),
{
    GenericReadIterCall { kiocb, iter }
}

/// Writes from a sequence of buffers into a file.
pub fn write_iter_callback<T: Operations>(
    ops: &T,
    kiocb: &Kiocb<<T::FileSystem as FileSystem>::INodeData>,
    iov: &mut IovIterSource,
) -> (r: isize)
    ensures
        exists|written: Result<usize, Error>|
            {
                &&& T::provides_write_iter() ==> ops.write_iter_post(
                    *kiocb,
                    *old(iov),
                    *final(iov),
                    written,
                )
                &&& !T::provides_write_iter() ==> written == unsupported_spec::<usize>()
                    && *final(iov) == *old(iov)
                &&& r == #[trigger] count_out(written)
            },
{
    let written = ops.write_iter(kiocb, iov);
    return_count(written)
}

/// A listing of a directory on its way.
#[derive(Copy, Clone, PartialEq, Eq, Structural, Debug)]
pub struct ReadDirRun {
    /// The position at which the listing began.
    pub orig_pos: i64,
    /// Where the listing stands.
    pub cursor: ReadDirCursor,
}

/// What the callback for listing asks for.
pub enum ReadDirReturn {
    /// A folio of the device is to be mapped.
    MapFolio { request: FolioRequest, run: ReadDirRun },
    /// The actor is to be called.
    Emit { call: ActorCall, run: ReadDirRun },
    /// Zero, or an error number.
    Return(i32),
}

/// What a [`ReadDirReturn`] says.
pub enum ReadDirReturnView {
    MapFolio { request: FolioRequest, run: ReadDirRun },
    Emit { call: DirRecord, run: ReadDirRun },
    Return(i32),
}

impl View for ReadDirReturn {
    type V = ReadDirReturnView;

    open spec fn view(&self) -> ReadDirReturnView {
        match *self {
            ReadDirReturn::MapFolio { request, run } => ReadDirReturnView::MapFolio {
                request,
                run,
            },
            ReadDirReturn::Emit { call, run } => ReadDirReturnView::Emit { call: call@, run },
            ReadDirReturn::Return(n) => ReadDirReturnView::Return(n),
        }
    }
}

/// The number that a listing is answered with. An error is passed over once an entry has been
/// taken, so that the reader sees the entries before the error.
pub open spec fn listing_out(r: Result<(), Error>, orig_pos: i64, pos: i64) -> i32 {
    match r {
        Ok(_) => 0,
        Err(e) => if pos == orig_pos {
            result_i32(Err(e))
        } else {
            0
        },
    }
}

/// What the callback makes of a step of the operation that has left the reader at `pos`.
pub open spec fn listing_return(
    s: ReadDirStepView,
    orig_pos: i64,
    pos: i64,
) -> ReadDirReturnView {
    match s {
        ReadDirStepView::MapFolio { request, cursor } => ReadDirReturnView::MapFolio {
            request,
            run: ReadDirRun { orig_pos, cursor },
        },
        ReadDirStepView::Emit { call, cursor } => ReadDirReturnView::Emit {
            call,
            run: ReadDirRun { orig_pos, cursor },
        },
        ReadDirStepView::Return(r) => ReadDirReturnView::Return(listing_out(r, orig_pos, pos)),
    }
}

/// Begins a listing.
pub fn read_dir_begin(emitter: &DirEmitter) -> (r: ReadDirRun)
    ensures
        r == (ReadDirRun { orig_pos: emitter.pos, cursor: ReadDirCursor::Start }),
{
    ReadDirRun { orig_pos: emitter.pos(), cursor: ReadDirCursor::Start }
}

/// Lists a directory, one step at a time.
pub fn read_dir_callback<T: Operations>(
    ops: &T,
    file: &File<<T::FileSystem as FileSystem>::INodeData>,
    sb: &SuperBlock<<T::FileSystem as FileSystem>::Data>,
    folios: &<T::FileSystem as FileSystem>::Folios,
    emitter: &mut DirEmitter,
    run: ReadDirRun,
    event: ReadDirEvent,
) -> (r: ReadDirReturn)
    requires
        ops.read_dir_pre(*file, *sb, *folios, *old(emitter), run.cursor, event@),
    ensures
        exists|s: ReadDirStepView|
            {
                &&& T::provides_read_dir() ==> ops.read_dir_post(
                    *file,
                    *sb,
                    *folios,
                    *old(emitter),
                    run.cursor,
                    event@,
                    *final(emitter),
                    s,
                )
                &&& !T::provides_read_dir() ==> s == ReadDirStepView::Return(unsupported_spec())
                    && *final(emitter) == *old(emitter)
                &&& r@ == #[trigger] listing_return(s, run.orig_pos, final(emitter).pos)
            },
{
    let s = ops.read_dir(file, sb, folios, emitter, run.cursor, event);
    let ghost sv = s@;
    let orig_pos: i64 = run.orig_pos;
    let r = match s {
        ReadDirStep::MapFolio { request, cursor } => ReadDirReturn::MapFolio {
            request,
            run: ReadDirRun { orig_pos, cursor },
        },
        ReadDirStep::Emit { call, cursor } => ReadDirReturn::Emit {
            call,
            run: ReadDirRun { orig_pos, cursor },
        },
        ReadDirStep::Return(Ok(_)) => ReadDirReturn::Return(0),
        ReadDirStep::Return(Err(e)) => {
            if emitter.pos() == orig_pos {
                ReadDirReturn::Return(from_result_i32(Err(e)))
            } else {
                ReadDirReturn::Return(0)
            }
        },
    };
    assert(r@ == listing_return(sv, orig_pos, emitter.pos));
    r
}

} // verus!
