//! Files and file descriptors.
//!
//! A file here is what was read from an open file at one moment; what is kept of an open file is a
//! handle. Calls that go outside are values: the functions of this module say which call is to be
//! made and with what arguments, and what to make of its answer.
pub mod callback;
pub mod dir;
pub mod flags;
pub mod ops;

use core::marker::PhantomData;
use vstd::prelude::*;

use crate::error::{to_result, Error, EBADF, EDOM, EINVAL};
use crate::fs::Offset;
use crate::inode::INode;
use crate::sb::DEntry;

verus! {

/// The credentials of a task.
#[derive(Copy, Clone, PartialEq, Eq, Structural, Debug)]
pub struct Credential {
    /// Where the credentials lie.
    pub addr: usize,
}

/// An open file as it is at one moment. It is not known to be safe to hand to another thread.
///
/// While a file is open, its flags can change, and so can the directory that holds it. A value of
/// this type is therefore read anew from the open file for each use and is not kept: what is kept
/// is a handle, an [`ARef`], which holds nothing that was read.
///
/// To obtain a handle to a file that is safe to hand to another thread, use
/// [`LocalFile::assume_no_fdget_pos`].
pub struct LocalFile<D> {
    /// Where the file lies.
    pub addr: usize,
    /// The flags at that moment, a combination of the constants in [`flags`].
    pub flags: u32,
    /// The inode of the file.
    pub inode: INode<D>,
    /// The directory cache entry of the file, as it is at that moment.
    pub dentry: DEntry,
    /// The credentials of the task that opened the file.
    pub cred: Credential,
    /// Whether a position of this file is in use on this thread that was taken without the lock
    /// on positions.
    pub pos_unlocked: bool,
}

/// An open file as it is at one moment that can be handed to another thread: no position of it is
/// in use that was taken without the lock on positions.
pub struct File<D> {
    local: LocalFile<D>,
}

/// A handle that owns one reference to an outside object, which is a `T`.
pub struct ARef<T> {
    /// Where the object lies.
    pub addr: usize,
    /// What the object is.
    pub phantom: PhantomData<T>,
}

/// A call that acts on references to files or on file descriptors.
#[derive(Copy, Clone, PartialEq, Eq, Structural, Debug)]
pub enum FileCall {
    /// Adds a reference to the file that lies there.
    GetFile(usize),
    /// Gives a reference to the file that lies there back.
    Fput(usize),
    /// Binds a reserved descriptor to a file. The reservation and one reference to the file pass
    /// to the descriptor table.
    FdInstall { fd: u32, file: usize },
    /// Gives a reserved descriptor back.
    PutUnusedFd(u32),
}

impl FileCall {
    /// By how much the call changes the number of references to a file that are held on this
    /// side.
    pub open spec fn refs_gained(self, file: usize) -> int {
        match self {
            FileCall::GetFile(f) => if f == file { 1 } else { 0 },
            FileCall::Fput(f) => if f == file { -1 } else { 0 },
            FileCall::FdInstall { fd, file: f } => if f == file { -1 } else { 0 },
            FileCall::PutUnusedFd(_) => 0,
        }
    }

    /// Whether the call ends the reservation of a descriptor.
    pub open spec fn ends_reservation(self, fd: u32) -> bool {
        match self {
            FileCall::FdInstall { fd: f, file } => f == fd,
            FileCall::PutUnusedFd(f) => f == fd,
            _ => false,
        }
    }
}

/// A request to the descriptor table of the current task.
#[derive(Copy, Clone, PartialEq, Eq, Structural, Debug)]
pub enum DescriptorCall {
    /// Looks a descriptor up and takes a reference to its file.
    Fget(u32),
    /// Reserves an unused descriptor with the given flags.
    GetUnusedFdFlags(u32),
}

impl<D> LocalFile<D> {
    /// The request that looks up the file of a descriptor of the current task.
    /// [`LocalFile::fget_result`] reads its answer.
    pub fn fget(fd: u32) -> (r: DescriptorCall)
        ensures
            r == DescriptorCall::Fget(fd),
    {
        DescriptorCall::Fget(fd)
    }

    /// A handle to the file that looking up a descriptor found, with the reference that the lookup
    /// took. The answer of the lookup is where the file lies; zero is no file, and an error.
    pub fn fget_result(file: usize) -> (r: Result<ARef<LocalFile<D>>, BadFdError>)
        ensures
            if file != 0 {
                r matches Ok(handle) && handle.addr == file
            } else {
                r == Err::<ARef<LocalFile<D>>, BadFdError>(BadFdError)
            },
    {
        if file == 0 {
            return Err(BadFdError);
        }
        Ok(ARef { addr: file, phantom: PhantomData })
    }

    /// The file that was read from an outside file.
    pub fn from_raw_file(raw: LocalFile<D>) -> (r: LocalFile<D>)
        ensures
            r == raw,
    {
        raw
    }

    /// Takes the file for one that can be shared between threads. The handle keeps its reference.
    ///
    /// No position of the file, which is `file` at this moment, may be in use that was taken
    /// without the lock.
    pub fn assume_no_fdget_pos(me: ARef<LocalFile<D>>, file: &LocalFile<D>) -> (r: ARef<File<D>>)
        requires
            file.addr == me.addr,
            !file.pos_unlocked,
        ensures
            r.addr == me.addr,
    {
        ARef { addr: me.addr, phantom: PhantomData }
    }

    /// Where the file lies.
    pub fn as_ptr(&self) -> (r: usize)
        ensures
            r == self.addr,
    {
        self.addr
    }

    /// The credentials of the task that originally opened the file.
    pub fn cred(&self) -> (r: &Credential)
        ensures
            *r == self.cred,
    {
        &self.cred
    }

    /// The flags associated with the file at the moment at which it was read, a combination of the
    /// constants in [`flags`].
    pub fn flags(&self) -> (r: u32)
        ensures
            r == self.flags,
    {
        self.flags
    }

    /// The inode associated with the file.
    pub fn inode(&self) -> (r: &INode<D>)
        ensures
            *r == self.inode,
    {
        &self.inode
    }

    /// The directory cache entry associated with the file.
    pub fn dentry(&self) -> (r: &DEntry)
        ensures
            *r == self.dentry,
    {
        &self.dentry
    }

    /// The inode number of the directory that held the file at the moment at which it was read.
    pub fn parent_ino(&self) -> (r: usize)
        ensures
            r == self.dentry.parent_ino,
    {
        self.dentry().parent_ino
    }

    /// The call that adds a reference to the file.
    pub fn inc_ref(&self) -> (r: FileCall)
        ensures
            r == FileCall::GetFile(self.addr),
    {
        FileCall::GetFile(self.as_ptr())
    }

    /// The call that gives a reference to the file back.
    pub fn dec_ref(obj: &LocalFile<D>) -> (r: FileCall)
        ensures
            r == FileCall::Fput(obj.addr),
    {
        FileCall::Fput(obj.as_ptr())
    }
}

impl<D> File<D> {
    /// What is known of the file.
    pub closed spec fn local(&self) -> LocalFile<D> {
        self.local
    }

    #[verifier::type_invariant]
    spec fn inv(self) -> bool {
        !self.local.pos_unlocked
    }

    /// The file that was read from an outside file. No position of it may be in use that was taken
    /// without the lock.
    pub fn from_raw_file(raw: LocalFile<D>) -> (r: File<D>)
        requires
            !raw.pos_unlocked,
        ensures
            r.local() == raw,
    {
        File { local: raw }
    }

    /// The call that adds a reference to the file.
    pub fn inc_ref(&self) -> (r: FileCall)
        ensures
            r == FileCall::GetFile(self.local().addr),
    {
        FileCall::GetFile(self.as_ptr())
    }

    /// The call that gives a reference to the file back.
    pub fn dec_ref(obj: &File<D>) -> (r: FileCall)
        ensures
            r == FileCall::Fput(obj.local().addr),
    {
        FileCall::Fput(obj.as_ptr())
    }
}

impl<D> core::ops::Deref for File<D> {
    type Target = LocalFile<D>;

    /// The file as one that stays on this thread.
    fn deref(&self) -> (r: &LocalFile<D>)
        ensures
            *r == self.local(),
            !r.pos_unlocked,
    {
        proof {
            use_type_invariant(self);
        }
        &self.local
    }
}

/// A file descriptor reservation.
///
/// A descriptor is created in two steps: a slot is reserved for it, then the reservation is
/// committed with [`FileDescriptorReservation::fd_install`] or given back with
/// [`FileDescriptorReservation::drop`]. Both consume the reservation, so there is exactly one of
/// them.
pub struct FileDescriptorReservation {
    fd: u32,
}

impl FileDescriptorReservation {
    /// The reserved descriptor.
    pub closed spec fn fd(&self) -> u32 {
        self.fd
    }

    /// The request that reserves an unused descriptor.
    /// [`FileDescriptorReservation::from_unused_fd`] reads its answer.
    pub fn get_unused_fd_flags(flags: u32) -> (r: DescriptorCall)
        ensures
            r == DescriptorCall::GetUnusedFdFlags(flags),
    {
        DescriptorCall::GetUnusedFdFlags(flags)
    }

    /// Makes a reservation of the answer to a request for an unused descriptor: a descriptor, or
    /// an error number.
    pub fn from_unused_fd(ret: i32) -> (r: Result<Self, Error>)
        ensures
            match r {
                Ok(reservation) => ret >= 0 && reservation.fd() == ret,
                Err(e) => ret < 0 && e == Error::of_errno(ret),
            },
    {
        match to_result(ret) {
            Ok(_) => Ok(FileDescriptorReservation { fd: ret as u32 }),
            Err(e) => Err(e),
        }
    }

    /// The file descriptor number that was reserved.
    pub fn reserved_fd(&self) -> (r: u32)
        ensures
            r == self.fd(),
    {
        self.fd
    }

    /// Commits the reservation: the call binds the reserved descriptor to `file`, and takes over
    /// the reservation and the reference.
    pub fn fd_install<D>(self, file: ARef<File<D>>) -> (r: FileCall)
        ensures
            r == (FileCall::FdInstall { fd: self.fd(), file: file.addr }),
    {
        FileCall::FdInstall { fd: self.fd, file: file.addr }
    }

    /// Gives the reservation up.
    pub fn drop(self) -> (r: FileCall)
        ensures
            r == FileCall::PutUnusedFd(self.fd()),
    {
        FileCall::PutUnusedFd(self.fd)
    }
}

/// The error of an operation that can only fail with `EBADF`.
#[derive(Copy, Clone, PartialEq, Eq, Structural)]
pub struct BadFdError;

impl BadFdError {
    /// How the error is printed.
    pub fn name(&self) -> (r: &'static str)
        ensures
            r@ == "EBADF"@,
    {
        "EBADF"
    }
}

impl From<BadFdError> for Error {
    fn from(_e: BadFdError) -> (r: Error) {
        Error::of(EBADF)
    }
}

impl vstd::std_specs::convert::FromSpecImpl<BadFdError> for Error {
    open spec fn obeys_from_spec() -> bool {
        true
    }

    open spec fn from_spec(_e: BadFdError) -> Error {
        Error::of(EBADF)
    }
}

/// How the offset of a seek is meant.
#[derive(Copy, Clone, PartialEq, Eq, Structural, Debug)]
pub enum Whence {
    /// `offset` bytes from the start of the file.
    Start,
    /// `offset` bytes from the end of the file.
    End,
    /// `offset` bytes from the current location.
    Cur,
    /// The next location greater than or equal to `offset` that contains data.
    Data,
    /// The next location greater than or equal to `offset` that contains a hole.
    Hole,
}

impl Whence {
    /// The number that stands for the value.
    pub open spec fn spec_number(self) -> i32 {
        match self {
            Whence::Start => 0,
            Whence::Cur => 1,
            Whence::End => 2,
            Whence::Data => 3,
            Whence::Hole => 4,
        }
    }

    /// The number that stands for the value.
    #[verifier::when_used_as_spec(spec_number)]
    pub fn number(self) -> (n: i32)
        ensures
            n == self.spec_number(),
    {
        match self {
            Whence::Start => 0,
            Whence::Cur => 1,
            Whence::End => 2,
            Whence::Data => 3,
            Whence::Hole => 4,
        }
    }
}

impl TryFrom<i32> for Whence {
    type Error = Error;

    fn try_from(v: i32) -> (r: Result<Self, Error>) {
        if v == Whence::Start.number() {
            Ok(Whence::Start)
        } else if v == Whence::End.number() {
            Ok(Whence::End)
        } else if v == Whence::Cur.number() {
            Ok(Whence::Cur)
        } else if v == Whence::Data.number() {
            Ok(Whence::Data)
        } else if v == Whence::Hole.number() {
            Ok(Whence::Hole)
        } else {
            Err(Error::of(EDOM))
        }
    }
}

impl vstd::std_specs::convert::TryFromSpecImpl<i32> for Whence {
    open spec fn obeys_try_from_spec() -> bool {
        true
    }

    /// The value that has the number `v`, where there is one.
    open spec fn try_from_spec(v: i32) -> Result<Self, Error> {
        if v == 0 {
            Ok(Whence::Start)
        } else if v == 1 {
            Ok(Whence::Cur)
        } else if v == 2 {
            Ok(Whence::End)
        } else if v == 3 {
            Ok(Whence::Data)
        } else if v == 4 {
            Ok(Whence::Hole)
        } else {
            Err(Error::of(EDOM))
        }
    }
}

/// A call of the generic seek on an open file.
#[derive(Copy, Clone, PartialEq, Eq, Structural, Debug)]
pub struct LlseekCall {
    /// Where the file lies.
    pub file: usize,
    /// The offset to seek to.
    pub offset: Offset,
    /// How the offset is meant, as a number.
    pub whence: i32,
}

/// The call that seeks `file` in the generic way. [`generic_seek_result`] reads its answer.
pub fn generic_seek<D>(file: &File<D>, offset: Offset, whence: Whence) -> (r: LlseekCall)
    ensures
        r == (LlseekCall { file: file.local().addr, offset, whence: whence.spec_number() }),
{
    LlseekCall { file: file.as_ptr(), offset, whence: whence.number() }
}

/// What a seek that answered `n` comes to: the new position, or the error that `n` stands for.
pub open spec fn seek_result(n: i64) -> Result<Offset, Error> {
    if n >= 0 {
        Ok(n)
    } else if n < i32::MIN {
        Err(Error::of(EINVAL))
    } else {
        Err(Error::of_errno(n as i32))
    }
}

/// Reads the answer of a generic seek.
pub fn generic_seek_result(n: i64) -> (r: Result<Offset, Error>)
    ensures
        r == seek_result(n),
{
    if n < 0 {
        if n < -0x8000_0000 {
            Err(Error::of(EINVAL))
        } else {
            Err(Error::from_errno(n as i32))
        }
    } else {
        Ok(n)
    }
}

} // verus!
