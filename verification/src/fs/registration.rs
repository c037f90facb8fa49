//! Making a file system type known to the system, and taking it back.
use vstd::prelude::*;

use crate::error::{to_result, to_result_spec, Error};
use crate::fs::tables::{ContextOperations, Tables};
use crate::fs::FileSystem;
use crate::sb::SuperType;

verus! {

/// The flag of a file system type whose superblocks belong to block devices.
pub const FS_REQUIRES_DEV: i32 = 1;

/// A cache that inodes are allocated from.
#[derive(Copy, Clone, PartialEq, Eq, Structural, Debug)]
pub struct MemCache {
    /// Where the cache lies.
    pub addr: usize,
}

/// What can fill a slot of a file system type.
#[derive(Copy, Clone, PartialEq, Eq, Structural, Debug)]
pub enum TypeHandler {
    /// [`Registration::init_fs_context_callback`].
    InitFsContext,
    /// [`Registration::kill_sb_callback`].
    KillSb,
}

/// A file system type, as it is made known to the system.
pub struct FileSystemType {
    /// The module that the type belongs to.
    pub owner: usize,
    /// The name of the type.
    pub name: &'static str,
    /// What prepares a mount.
    pub init_fs_context: Option<TypeHandler>,
    /// What ends a superblock.
    pub kill_sb: Option<TypeHandler>,
    /// The flags of the type.
    pub fs_flags: i32,
}

impl FileSystemType {
    /// Whether this is the type that a file system of `module` is registered as.
    pub open spec fn describes<T: FileSystem>(self, fs: &T, module: usize) -> bool {
        &&& self.owner == module
        &&& self.name@ == fs.spec_name()
        &&& self.init_fs_context == Some(TypeHandler::InitFsContext)
        &&& self.kill_sb == Some(TypeHandler::KillSb)
        &&& self.fs_flags == (if fs.spec_super_type() is BlockDev {
            FS_REQUIRES_DEV
        } else {
            0
        })
    }
}

/// A mount in preparation.
pub struct FsContext {
    /// The operations of the mount.
    pub ops: Option<ContextOperations>,
}

/// How a superblock is torn down.
#[derive(Copy, Clone, PartialEq, Eq, Structural, Debug)]
pub enum KillCall {
    /// As one that belongs to a block device.
    KillBlockSuper,
    /// As one without a device.
    KillAnonSuper,
}

/// What ending a superblock goes on with.
pub enum KillSbEvent<D> {
    /// It begins.
    Begin,
    /// The superblock has been torn down, and this is the data that it then has.
    TornDown(Option<D>),
}

/// What ending a superblock asks for.
pub enum KillSbStep<D> {
    /// The superblock is to be torn down.
    TearDown(KillCall),
    /// The data is to be freed. Then the superblock has ended.
    Free(D),
    /// The superblock has ended.
    Done,
}

/// What a file system type and a cache for inodes have become that are no longer registered, or
/// were refused.
pub struct Ended {
    /// The file system type. Where it was known to the system, it is first to be taken back.
    pub fs: FileSystemType,
    /// Then the cache for inodes is to be freed, if there is one.
    pub inode_cache: Option<MemCache>,
}

/// A registration that has been filled in and is to be made known to the system.
pub struct Unregistered {
    fs: FileSystemType,
    inode_cache: Option<MemCache>,
}

/// A file system registration: the file system type is known to the system.
pub struct Registration {
    fs: FileSystemType,
    inode_cache: Option<MemCache>,
}

impl Unregistered {
    /// The file system type that is to be made known.
    pub closed spec fn fs(&self) -> FileSystemType {
        self.fs
    }

    /// The cache for inodes.
    pub closed spec fn inode_cache(&self) -> Option<MemCache> {
        self.inode_cache
    }

    /// The file system type that is to be made known.
    pub fn fs_type(&self) -> (r: &FileSystemType)
        ensures
            *r == self.fs(),
    {
        &self.fs
    }

    /// The cache for inodes, which belongs to the registration.
    pub fn cache(&self) -> (r: Option<MemCache>)
        ensures
            r == self.inode_cache(),
    {
        self.inode_cache
    }

    /// Takes the answer to making the type known: there is a registration if and only if it is no
    /// error number. With the error comes what is to be freed.
    pub fn registered(self, ret: i32) -> (r: Result<Registration, (Error, Ended)>)
        ensures
            match to_result_spec(ret) {
                Ok(_) => r matches Ok(reg) && reg.fs() == self.fs() && reg.inode_cache()
                    == self.inode_cache(),
                Err(e) => r == Err::<Registration, (Error, Ended)>(
                    (e, Ended { fs: self.fs(), inode_cache: self.inode_cache() }),
                ),
            },
    {
        match to_result(ret) {
            Ok(_) => Ok(Registration { fs: self.fs, inode_cache: self.inode_cache }),
            Err(e) => Err((e, Ended { fs: self.fs, inode_cache: self.inode_cache })),
        }
    }
}

impl Registration {
    /// The file system type that is known.
    pub closed spec fn fs(&self) -> FileSystemType {
        self.fs
    }

    /// The cache for inodes.
    pub closed spec fn inode_cache(&self) -> Option<MemCache> {
        self.inode_cache
    }

    /// The cache for inodes, which belongs to the registration.
    pub fn cache(&self) -> (r: Option<MemCache>)
        ensures
            r == self.inode_cache(),
    {
        self.inode_cache
    }

    /// Creates a new file system registration of a file system that belongs to `module`.
    ///
    /// `cache` is what came of creating the cache for inodes. The registration that comes out is
    /// not visible or accessible yet: its type is to be made known, and the answer to that is for
    /// [`Unregistered::registered`].
    pub fn new<T: FileSystem>(
        fs: &T,
        module: usize,
        cache: Result<Option<MemCache>, Error>,
    ) -> (r: Result<Unregistered, Error>)
        ensures
            match cache {
                Ok(inode_cache) => r matches Ok(u) && u.inode_cache() == inode_cache
                    && u.fs().describes(fs, module),
                Err(e) => r == Err::<Unregistered, Error>(e),
            },
    {
        match cache {
            Err(e) => Err(e),
            Ok(inode_cache) => Ok(
                Unregistered {
                    inode_cache,
                    fs: FileSystemType {
                        owner: module,
                        name: fs.name(),
                        init_fs_context: Some(TypeHandler::InitFsContext),
                        kill_sb: Some(TypeHandler::KillSb),
                        fs_flags: match fs.super_type() {
                            SuperType::BlockDev => FS_REQUIRES_DEV,
                            SuperType::Independent => 0,
                        },
                    },
                },
            ),
        }
    }

    /// Prepares a mount: it gets the operations of [`Tables::context`].
    pub fn init_fs_context_callback(fc: &mut FsContext) -> (r: i32)
        ensures
            r == 0,
            *final(fc) == (FsContext { ops: Some(Tables::context_table()) }),
    {
        fc.ops = Some(Tables::context());
        0
    }

    /// Ends a superblock: it is torn down, and then the data that it has is freed, if it has any.
    pub fn kill_sb_callback<T: FileSystem>(fs: &T, event: KillSbEvent<T::Data>) -> (r: KillSbStep<
        T::Data,
    >)
        ensures
            r == kill_step(fs.spec_super_type(), event),
    {
        match event {
            KillSbEvent::Begin => KillSbStep::TearDown(
                match fs.super_type() {
                    SuperType::BlockDev => KillCall::KillBlockSuper,
                    SuperType::Independent => KillCall::KillAnonSuper,
                },
            ),
            KillSbEvent::TornDown(Some(data)) => KillSbStep::Free(data),
            KillSbEvent::TornDown(None) => KillSbStep::Done,
        }
    }

    /// Ends the registration: the type is to be taken back, and then the cache for inodes is to be
    /// freed.
    pub fn drop(self) -> (r: Ended)
        ensures
            r == (Ended { fs: self.fs(), inode_cache: self.inode_cache() }),
    {
        Ended { fs: self.fs, inode_cache: self.inode_cache }
    }
}

/// What a step of ending a superblock asks for.
pub open spec fn kill_step<D>(t: SuperType, event: KillSbEvent<D>) -> KillSbStep<D> {
    match event {
        KillSbEvent::Begin => KillSbStep::TearDown(kill_call(t)),
        KillSbEvent::TornDown(Some(data)) => KillSbStep::Free(data),
        KillSbEvent::TornDown(None) => KillSbStep::Done,
    }
}

/// How a superblock is torn down.
pub open spec fn kill_call(t: SuperType) -> KillCall {
    match t {
        SuperType::BlockDev => KillCall::KillBlockSuper,
        SuperType::Independent => KillCall::KillAnonSuper,
    }
}

} // verus!
