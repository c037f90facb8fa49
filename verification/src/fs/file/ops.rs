//! Tables of file operations.
use core::marker::PhantomData;
use vstd::prelude::*;

use crate::error::{Error, EINVAL};
use crate::fs::file::dir::{ActorCall, DirEmitter, DirRecord};
use crate::fs::file::{File, LlseekCall, Whence};
use crate::fs::{FileSystem, Offset};
use crate::mapper::FolioRequest;
use crate::sb::SuperBlock;

verus! {

/// The part of a caller's memory that a read may fill, and what has been put there.
pub struct Writer {
    /// Where the memory lies.
    pub addr: usize,
    /// How many bytes it has room for.
    pub len: usize,
    /// The bytes that were put there.
    pub data: Vec<u8>,
}

/// An I/O request on a file.
pub struct Kiocb<D> {
    /// The file.
    pub file: File<D>,
    /// The position in the file.
    pub pos: i64,
}

/// The memory that a read is to fill.
#[derive(Copy, Clone, PartialEq, Eq, Structural, Debug)]
pub struct IovIterDest {
    /// How many bytes there is room for.
    pub count: usize,
}

/// The memory that a write is to take its bytes from.
#[derive(Copy, Clone, PartialEq, Eq, Structural, Debug)]
pub struct IovIterSource {
    /// How many bytes are left.
    pub count: usize,
}

/// What seeking asks for.
#[derive(Copy, Clone, PartialEq, Eq, Debug)]
pub enum SeekStep {
    /// The generic seek is to be called; its answer is the answer.
    Llseek(LlseekCall),
    /// The new position, or an error.
    Return(Result<i64, Error>),
}

/// Where listing a directory stands.
#[derive(Copy, Clone, PartialEq, Eq, Structural, Debug)]
pub enum ReadDirCursor {
    /// At its beginning.
    Start,
    /// Among the entries of the directory for itself and for its parent.
    Dots,
    /// Before the slot with the given index.
    Slot(usize),
}

/// What listing a directory goes on with.
pub enum ReadDirEvent {
    /// It begins, or a folio that it asked for has been mapped.
    Ready,
    /// The actor has answered a call.
    Answered { call: ActorCall, taken: bool },
}

/// What a [`ReadDirEvent`] says.
pub enum ReadDirEventView {
    Ready,
    Answered { call: DirRecord, taken: bool },
}

impl View for ReadDirEvent {
    type V = ReadDirEventView;

    open spec fn view(&self) -> ReadDirEventView {
        match *self {
            ReadDirEvent::Ready => ReadDirEventView::Ready,
            ReadDirEvent::Answered { call, taken } => ReadDirEventView::Answered {
                call: call@,
                taken,
            },
        }
    }
}

/// What listing a directory asks for. With a request comes the cursor to go on from.
pub enum ReadDirStep {
    /// A folio of the device is to be mapped.
    MapFolio { request: FolioRequest, cursor: ReadDirCursor },
    /// The actor is to be called.
    Emit { call: ActorCall, cursor: ReadDirCursor },
    /// The listing has ended.
    Return(Result<(), Error>),
}

/// What a [`ReadDirStep`] says.
pub enum ReadDirStepView {
    MapFolio { request: FolioRequest, cursor: ReadDirCursor },
    Emit { call: DirRecord, cursor: ReadDirCursor },
    Return(Result<(), Error>),
}

impl View for ReadDirStep {
    type V = ReadDirStepView;

    open spec fn view(&self) -> ReadDirStepView {
        match *self {
            ReadDirStep::MapFolio { request, cursor } => ReadDirStepView::MapFolio {
                request,
                cursor,
            },
            ReadDirStep::Emit { call, cursor } => ReadDirStepView::Emit { call: call@, cursor },
            ReadDirStep::Return(r) => ReadDirStepView::Return(r),
        }
    }
}

/// Operations implemented by files.
///
/// An operation that an implementation does not provide fails with `EINVAL`.
pub trait Operations: Sized {
    /// File system that these operations are compatible with.
    type FileSystem: FileSystem;

    /// Whether the implementation provides [`Operations::read`].
    spec fn provides_read() -> bool;

    /// Whether the implementation provides [`Operations::read_iter`].
    spec fn provides_read_iter() -> bool;

    /// Whether the implementation provides [`Operations::write_iter`].
    spec fn provides_write_iter() -> bool;

    /// Whether the implementation provides [`Operations::seek`].
    spec fn provides_seek() -> bool;

    /// Whether the implementation provides [`Operations::read_dir`].
    spec fn provides_read_dir() -> bool;

    /// What may come of a read, where the implementation provides it.
    spec fn read_post(
        &self,
        file: File<<Self::FileSystem as FileSystem>::INodeData>,
        buffer: Writer,
        offset: Offset,
        new_buffer: Writer,
        new_offset: Offset,
        r: Result<usize, Error>,
    ) -> bool;

    /// What may come of a read into a sequence of buffers, where the implementation provides it.
    spec fn read_iter_post(
        &self,
        kiocb: Kiocb<<Self::FileSystem as FileSystem>::INodeData>,
        iov: IovIterDest,
        new_iov: IovIterDest,
        r: Result<usize, Error>,
    ) -> bool;

    /// What may come of a write out of a sequence of buffers, where the implementation provides
    /// it.
    spec fn write_iter_post(
        &self,
        kiocb: Kiocb<<Self::FileSystem as FileSystem>::INodeData>,
        iov: IovIterSource,
        new_iov: IovIterSource,
        r: Result<usize, Error>,
    ) -> bool;

    /// What may come of a seek, where the implementation provides it.
    spec fn seek_post(
        &self,
        file: File<<Self::FileSystem as FileSystem>::INodeData>,
        offset: Offset,
        whence: Whence,
        r: SeekStep,
    ) -> bool;

    /// When a step of a listing can be taken.
    spec fn read_dir_pre(
        &self,
        file: File<<Self::FileSystem as FileSystem>::INodeData>,
        sb: SuperBlock<<Self::FileSystem as FileSystem>::Data>,
        folios: <Self::FileSystem as FileSystem>::Folios,
        emitter: DirEmitter,
        cursor: ReadDirCursor,
        event: ReadDirEventView,
    ) -> bool;

    /// What may come of a step of a listing, where the implementation provides it.
    spec fn read_dir_post(
        &self,
        file: File<<Self::FileSystem as FileSystem>::INodeData>,
        sb: SuperBlock<<Self::FileSystem as FileSystem>::Data>,
        folios: <Self::FileSystem as FileSystem>::Folios,
        emitter: DirEmitter,
        cursor: ReadDirCursor,
        event: ReadDirEventView,
        new_emitter: DirEmitter,
        r: ReadDirStepView,
    ) -> bool;

    /// Whether the implementation provides [`Operations::read`].
    fn has_read() -> (r: bool)
        ensures
            r == Self::provides_read(),
    ;

    /// Whether the implementation provides [`Operations::seek`].
    fn has_seek() -> (r: bool)
        ensures
            r == Self::provides_seek(),
    ;

    /// Whether the implementation provides [`Operations::read_dir`].
    fn has_read_dir() -> (r: bool)
        ensures
            r == Self::provides_read_dir(),
    ;

    /// Reads data from this file into the caller's buffer.
    fn read(
        &self,
        file: &File<<Self::FileSystem as FileSystem>::INodeData>,
        buffer: &mut Writer,
        offset: &mut Offset,
    ) -> (r: Result<usize, Error>)
        ensures
            Self::provides_read() ==> self.read_post(
                *file,
                *old(buffer),
                *old(offset),
                *final(buffer),
                *final(offset),
                r,
            ),
            !Self::provides_read() ==> unsupported_read(
                *old(buffer),
                *old(offset),
                *final(buffer),
                *final(offset),
                r,
            ),
    ;

    /// Reads data from this file into a sequence of buffers.
    fn read_iter(
        &self,
        kiocb: &Kiocb<<Self::FileSystem as FileSystem>::INodeData>,
        iov: &mut IovIterDest,
    ) -> (r: Result<usize, Error>)
        ensures
            Self::provides_read_iter() ==> self.read_iter_post(
                *kiocb,
                *old(iov),
                *final(iov),
                r,
            ),
            !Self::provides_read_iter() ==> r == unsupported_spec::<usize>() && *final(iov)
                == *old(iov),
    ;

    /// Writes data from a sequence of buffers into this file.
    fn write_iter(
        &self,
        kiocb: &Kiocb<<Self::FileSystem as FileSystem>::INodeData>,
        iov: &mut IovIterSource,
    ) -> (r: Result<usize, Error>)
        ensures
            Self::provides_write_iter() ==> self.write_iter_post(
                *kiocb,
                *old(iov),
                *final(iov),
                r,
            ),
            !Self::provides_write_iter() ==> r == unsupported_spec::<usize>() && *final(iov)
                == *old(iov),
    ;

    /// Seeks the file to the given offset.
    fn seek(
        &self,
        file: &File<<Self::FileSystem as FileSystem>::INodeData>,
        offset: Offset,
        whence: Whence,
    ) -> (r: SeekStep)
        ensures
            Self::provides_seek() ==> self.seek_post(*file, offset, whence, r),
            !Self::provides_seek() ==> r == SeekStep::Return(unsupported_spec()),
    ;

    /// Reads directory entries from directory files, one step at a time.
    ///
    /// [`DirEmitter::pos`] holds the current position of the directory reader. The file and the
    /// superblock are as they are when the step is taken; `folios` holds what this listing has
    /// mapped.
    fn read_dir(
        &self,
        file: &File<<Self::FileSystem as FileSystem>::INodeData>,
        sb: &SuperBlock<<Self::FileSystem as FileSystem>::Data>,
        folios: &<Self::FileSystem as FileSystem>::Folios,
        emitter: &mut DirEmitter,
        cursor: ReadDirCursor,
        event: ReadDirEvent,
    ) -> (r: ReadDirStep)
        requires
            self.read_dir_pre(*file, *sb, *folios, *old(emitter), cursor, event@),
        ensures
            Self::provides_read_dir() ==> self.read_dir_post(
                *file,
                *sb,
                *folios,
                *old(emitter),
                cursor,
                event@,
                *final(emitter),
                r@,
            ),
            !Self::provides_read_dir() ==> r@ == ReadDirStepView::Return(unsupported_spec())
                && *final(emitter) == *old(emitter),
    ;
}

/// What comes of an operation that is not provided.
pub open spec fn unsupported_spec<R>() -> Result<R, Error> {
    Err(Error::of(EINVAL))
}

/// What comes of an operation that is not provided.
pub fn unsupported<R>() -> (r: Result<R, Error>)
    ensures
        r == unsupported_spec::<R>(),
{
    Err(Error::of(EINVAL))
}

/// What comes of a read that is not provided.
pub open spec fn unsupported_read(
    buffer: Writer,
    offset: Offset,
    new_buffer: Writer,
    new_offset: Offset,
    r: Result<usize, Error>,
) -> bool {
    &&& r == unsupported_spec::<usize>()
    &&& new_buffer == buffer
    &&& new_offset == offset
}

/// Operations of which none is provided: what an implementation falls back on for those that it
/// leaves out.
pub struct DefaultOperations<F> {
    /// The file system that the operations are compatible with.
    pub phantom: PhantomData<F>,
}

impl<F: FileSystem> Operations for DefaultOperations<F> {
    type FileSystem = F;

    open spec fn provides_read() -> bool {
        false
    }

    open spec fn provides_read_iter() -> bool {
        false
    }

    open spec fn provides_write_iter() -> bool {
        false
    }

    open spec fn provides_seek() -> bool {
        false
    }

    open spec fn provides_read_dir() -> bool {
        false
    }

    open spec fn read_post(
        &self,
        file: File<F::INodeData>,
        buffer: Writer,
        offset: Offset,
        new_buffer: Writer,
        new_offset: Offset,
        r: Result<usize, Error>,
    ) -> bool {
        false
    }

    open spec fn read_iter_post(
        &self,
        kiocb: Kiocb<F::INodeData>,
        iov: IovIterDest,
        new_iov: IovIterDest,
        r: Result<usize, Error>,
    ) -> bool {
        false
    }

    open spec fn write_iter_post(
        &self,
        kiocb: Kiocb<F::INodeData>,
        iov: IovIterSource,
        new_iov: IovIterSource,
        r: Result<usize, Error>,
    ) -> bool {
        false
    }

    open spec fn seek_post(
        &self,
        file: File<F::INodeData>,
        offset: Offset,
        whence: Whence,
        r: SeekStep,
    ) -> bool {
        false
    }

    open spec fn read_dir_pre(
        &self,
        file: File<F::INodeData>,
        sb: SuperBlock<F::Data>,
        folios: F::Folios,
        emitter: DirEmitter,
        cursor: ReadDirCursor,
        event: ReadDirEventView,
    ) -> bool {
        true
    }

    open spec fn read_dir_post(
        &self,
        file: File<F::INodeData>,
        sb: SuperBlock<F::Data>,
        folios: F::Folios,
        emitter: DirEmitter,
        cursor: ReadDirCursor,
        event: ReadDirEventView,
        new_emitter: DirEmitter,
        r: ReadDirStepView,
    ) -> bool {
        false
    }

    fn has_read() -> (r: bool) {
        false
    }

    fn has_seek() -> (r: bool) {
        false
    }

    fn has_read_dir() -> (r: bool) {
        false
    }

    fn read(&self, _file: &File<F::INodeData>, _buffer: &mut Writer, _offset: &mut Offset) -> (r: Result<
        usize,
        Error,
    >) {
        unsupported()
    }

    fn read_iter(&self, _kiocb: &Kiocb<F::INodeData>, _iov: &mut IovIterDest) -> (r: Result<
        usize,
        Error,
    >)
        ensures
            r == Err::<usize, Error>(Error::of(EINVAL)),
            *final(_iov) == *old(_iov),
    {
        unsupported()
    }

    fn write_iter(&self, _kiocb: &Kiocb<F::INodeData>, _iov: &mut IovIterSource) -> (r: Result<
        usize,
        Error,
    >) {
        unsupported()
    }

    fn seek(&self, _file: &File<F::INodeData>, _offset: Offset, _whence: Whence) -> (r: SeekStep) {
        SeekStep::Return(unsupported())
    }

    fn read_dir(
        &self,
        _file: &File<F::INodeData>,
        _sb: &SuperBlock<F::Data>,
        _folios: &F::Folios,
        _emitter: &mut DirEmitter,
        _cursor: ReadDirCursor,
        _event: ReadDirEvent,
    ) -> (r: ReadDirStep) {
        ReadDirStep::Return(unsupported())
    }
}

/// What can fill a slot of a table of file operations.
#[derive(Copy, Clone, PartialEq, Eq, Structural, Debug)]
pub enum Handler {
    /// [`seek_callback`].
    Seek,
    /// [`read_callback`].
    Read,
    /// [`read_iter_callback`].
    ReadIter,
    /// [`write_iter_callback`].
    WriteIter,
    /// The steps of [`Operations::read_dir`], ended by [`read_dir_callback`].
    ReadDir,
    /// The generic memory mapping of the page cache.
    GenericFileMmap,
    /// The generic splice out of the page cache.
    FilemapSpliceRead,
}

/// A table of file operations. A slot without handler is an operation that files do not have.
#[derive(Copy, Clone, PartialEq, Eq, Debug)]
pub struct FileOperations {
    pub owner: Option<usize>,
    pub llseek: Option<Handler>,
    pub read: Option<Handler>,
    pub write: Option<Handler>,
    pub read_iter: Option<Handler>,
    pub write_iter: Option<Handler>,
    pub iopoll: Option<Handler>,
    pub iterate_shared: Option<Handler>,
    pub poll: Option<Handler>,
    pub unlocked_ioctl: Option<Handler>,
    pub fop_flags: u32,
    pub compat_ioctl: Option<Handler>,
    pub mmap: Option<Handler>,
    pub mmap_prepare: Option<Handler>,
    pub open: Option<Handler>,
    pub flush: Option<Handler>,
    pub release: Option<Handler>,
    pub fsync: Option<Handler>,
    pub fasync: Option<Handler>,
    pub lock: Option<Handler>,
    pub get_unmapped_area: Option<Handler>,
    pub check_flags: Option<Handler>,
    pub flock: Option<Handler>,
    pub splice_write: Option<Handler>,
    pub splice_read: Option<Handler>,
    pub splice_eof: Option<Handler>,
    pub setlease: Option<Handler>,
    pub fallocate: Option<Handler>,
    pub show_fdinfo: Option<Handler>,
    pub copy_file_range: Option<Handler>,
    pub remap_file_range: Option<Handler>,
    pub fadvise: Option<Handler>,
    pub uring_cmd: Option<Handler>,
    pub uring_cmd_iopoll: Option<Handler>,
}

/// Where the operations of a file are found.
#[derive(Copy, Clone, PartialEq, Eq, Debug)]
pub enum OpsTable {
    /// The outside table for read-only files that live in the page cache.
    GenericRo,
    /// A table of this library.
    Table(FileOperations),
}

/// A table without a handler in any slot.
pub open spec fn no_operations() -> FileOperations {
    FileOperations {
        owner: None,
        llseek: None,
        read: None,
        write: None,
        read_iter: None,
        write_iter: None,
        iopoll: None,
        iterate_shared: None,
        poll: None,
        unlocked_ioctl: None,
        fop_flags: 0,
        compat_ioctl: None,
        mmap: None,
        mmap_prepare: None,
        open: None,
        flush: None,
        release: None,
        fsync: None,
        fasync: None,
        lock: None,
        get_unmapped_area: None,
        check_flags: None,
        flock: None,
        splice_write: None,
        splice_read: None,
        splice_eof: None,
        setlease: None,
        fallocate: None,
        show_fdinfo: None,
        copy_file_range: None,
        remap_file_range: None,
        fadvise: None,
        uring_cmd: None,
        uring_cmd_iopoll: None,
    }
}

/// `handler`, if the operation is provided.
pub open spec fn if_provided(provided: bool, handler: Handler) -> Option<Handler> {
    if provided {
        Some(handler)
    } else {
        None
    }
}

/// The table of regular files.
pub open spec fn file_table(has_seek: bool, has_read: bool) -> FileOperations {
    FileOperations {
        llseek: if_provided(has_seek, Handler::Seek),
        read: if_provided(has_read, Handler::Read),
        read_iter: Some(Handler::ReadIter),
        write_iter: Some(Handler::WriteIter),
        mmap: Some(Handler::GenericFileMmap),
        splice_read: Some(Handler::FilemapSpliceRead),
        ..no_operations()
    }
}

/// The table of directories.
pub open spec fn dir_table(has_read_dir: bool) -> FileOperations {
    FileOperations {
        iterate_shared: if_provided(has_read_dir, Handler::ReadDir),
        ..no_operations()
    }
}

/// The file operations of files whose inodes hold `D`.
pub struct Ops<D> {
    /// The table.
    pub inner: OpsTable,
    /// Ties the table to the kind of inode.
    pub phantom: PhantomData<D>,
}

impl<D> Ops<D> {
    /// File operations for read-only files that live in the page cache.
    pub fn generic_ro_file() -> (r: Self)
        ensures
            r.inner == OpsTable::GenericRo,
    {
        Ops { inner: OpsTable::GenericRo, phantom: PhantomData }
    }

    /// Creates the file operations of regular files from a type that implements the
    /// [`Operations`] trait.
    pub fn new_file<U: Operations>() -> (r: Self)
        where U::FileSystem: FileSystem<INodeData = D>
        ensures
            r.inner == OpsTable::Table(file_table(U::provides_seek(), U::provides_read())),
    {
        Ops {
            inner: OpsTable::Table(
                FileOperations {
                    owner: None,
                    llseek: if U::has_seek() {
                        Some(Handler::Seek)
                    } else {
                        None
                    },
                    read: if U::has_read() {
                        Some(Handler::Read)
                    } else {
                        None
                    },
                    write: None,
                    read_iter: Some(Handler::ReadIter),
                    write_iter: Some(Handler::WriteIter),
                    iopoll: None,
                    iterate_shared: None,
                    poll: None,
                    unlocked_ioctl: None,
                    fop_flags: 0,
                    compat_ioctl: None,
                    mmap: Some(Handler::GenericFileMmap),
                    mmap_prepare: None,
                    open: None,
                    flush: None,
                    release: None,
                    fsync: None,
                    fasync: None,
                    lock: None,
                    get_unmapped_area: None,
                    check_flags: None,
                    flock: None,
                    splice_write: None,
                    splice_read: Some(Handler::FilemapSpliceRead),
                    splice_eof: None,
                    setlease: None,
                    fallocate: None,
                    show_fdinfo: None,
                    copy_file_range: None,
                    remap_file_range: None,
                    fadvise: None,
                    uring_cmd: None,
                    uring_cmd_iopoll: None,
                },
            ),
            phantom: PhantomData,
        }
    }

    /// Creates the file operations of directories from a type that implements the
    /// [`Operations`] trait.
    pub fn new_dir<U: Operations>() -> (r: Self)
        where U::FileSystem: FileSystem<INodeData = D>
        ensures
            r.inner == OpsTable::Table(dir_table(U::provides_read_dir())),
    {
        Ops {
            inner: OpsTable::Table(
                FileOperations {
                    owner: None,
                    llseek: None,
                    read: None,
                    write: None,
                    read_iter: None,
                    write_iter: None,
                    iopoll: None,
                    iterate_shared: if U::has_read_dir() {
                        Some(Handler::ReadDir)
                    } else {
                        None
                    },
                    poll: None,
                    unlocked_ioctl: None,
                    fop_flags: 0,
                    compat_ioctl: None,
                    mmap: None,
                    mmap_prepare: None,
                    open: None,
                    flush: None,
                    release: None,
                    fsync: None,
                    fasync: None,
                    lock: None,
                    get_unmapped_area: None,
                    check_flags: None,
                    flock: None,
                    splice_write: None,
                    splice_read: None,
                    splice_eof: None,
                    setlease: None,
                    fallocate: None,
                    show_fdinfo: None,
                    copy_file_range: None,
                    remap_file_range: None,
                    fadvise: None,
                    uring_cmd: None,
                    uring_cmd_iopoll: None,
                },
            ),
            phantom: PhantomData,
        }
    }
}

} // verus!
