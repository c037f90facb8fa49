//! File systems.
pub mod file;
pub mod laws;
pub mod mode;
pub mod mount_results;
pub mod registration;
pub mod results;
pub mod tables;

use vstd::prelude::*;

use crate::error::{Error, ENOTSUPP};
use crate::inode::{INode, INodeState};
use crate::mapper::{FolioRequest, Mapped, Mapper};
use crate::sb::{Root, SuperBlock, SuperType};

verus! {

/// The offset of a file in a file system.
///
/// This is C's `loff_t`.
pub type Offset = i64;

/// An index into the page cache.
///
/// This is C's `pgoff_t`.
pub type PageOffset = usize;

/// What filling a superblock goes on with.
pub enum FillSuperEvent<D> {
    /// It begins, or a folio that it asked for has been mapped. The mapper is that of the device of
    /// the superblock, if it has one.
    Ready(Option<Mapper>),
    /// The data has been moved to where it will live, or there was no room for it.
    Allocated(Result<D, Error>),
}

/// What filling a superblock asks for.
pub enum FillSuperStep<D> {
    /// A folio of the device is to be mapped.
    MapFolio(FolioRequest),
    /// The data is to be moved to where it will live.
    Allocate(D),
    /// The superblock has been filled, or cannot be.
    Return(Result<D, Error>),
}

/// What making the root directory goes on with.
pub enum InitRootEvent<I> {
    /// It begins.
    Begin,
    /// The inode cache has answered, or a folio that was asked for has been mapped.
    Found(Result<INodeState<I>, Error>),
    /// The fresh inode has been initialised, or could not be.
    Initialised(INode<I>, Result<(), Error>),
    /// The root directory has been made of the inode, or could not be.
    Made(Result<Root, Error>),
}

/// What making the root directory asks for.
pub enum InitRootStep<I> {
    /// The inode cache is to be asked for an inode of the superblock that lies at `sb`.
    GetInode { sb: usize, ino: usize },
    /// A folio of the device is to be mapped.
    MapFolio(FolioRequest),
    /// The fresh inode of the inode cache is to be initialised with this.
    InitInode(INode<I>),
    /// A root directory is to be made of the inode.
    MakeRoot(INode<I>),
    /// The root directory has been made, or cannot be.
    Return(Result<Root, Error>),
}

/// A file system type.
pub trait FileSystem: Sized {
    /// Data associated with each file system instance (superblock).
    type Data;

    /// Type of data associated with each inode.
    type INodeData;

    /// What the folio of the superblock holds for this file system.
    type SuperFolio;

    /// What an operation on a superblock that was filled has mapped so far.
    type Folios;

    /// The name of the file system type.
    spec fn spec_name(&self) -> Seq<char>;

    /// How superblocks for this file system type are keyed.
    spec fn spec_super_type(&self) -> SuperType;

    /// Whether this stands for a file system that is not known.
    spec fn spec_is_unspecified(&self) -> bool;

    /// When a step of making the root directory can be taken.
    spec fn init_root_pre(
        &self,
        sb: SuperBlock<Self::Data>,
        folios: Self::Folios,
        event: InitRootEvent<Self::INodeData>,
    ) -> bool;

    /// The name of the file system type.
    fn name(&self) -> (r: &'static str)
        ensures
            r@ == self.spec_name(),
    ;

    /// Determines how superblocks for this file system type are keyed.
    fn super_type(&self) -> (r: SuperType)
        ensures
            r == self.spec_super_type(),
    ;

    /// Determines if an implementation doesn't specify the required types.
    fn is_unspecified(&self) -> (r: bool)
        ensures
            r == self.spec_is_unspecified(),
    ;

    /// Fills a new superblock, one step at a time. `mapped` holds what this has mapped so far.
    fn fill_super(
        &self,
        sb: &mut SuperBlock<Self::Data>,
        mapped: &Mapped<Self::SuperFolio>,
        event: FillSuperEvent<Self::Data>,
    ) -> (r: FillSuperStep<Self::Data>);

    /// Makes the root directory of a superblock that was filled, one step at a time.
    fn init_root(
        &self,
        sb: &SuperBlock<Self::Data>,
        folios: &Self::Folios,
        event: InitRootEvent<Self::INodeData>,
    ) -> (r: InitRootStep<Self::INodeData>)
        requires
            self.init_root_pre(*sb, *folios, event),
    ;
}

/// A file system that is unspecified. It can neither fill a superblock nor make a root directory.
pub struct UnspecifiedFS;

impl FileSystem for UnspecifiedFS {
    type Data = ();

    type INodeData = ();

    type SuperFolio = ();

    type Folios = ();

    open spec fn spec_name(&self) -> Seq<char> {
        "unspecified"@
    }

    open spec fn spec_super_type(&self) -> SuperType {
        SuperType::Independent
    }

    open spec fn spec_is_unspecified(&self) -> bool {
        true
    }

    open spec fn init_root_pre(
        &self,
        sb: SuperBlock<Self::Data>,
        folios: Self::Folios,
        event: InitRootEvent<Self::INodeData>,
    ) -> bool {
        true
    }

    fn name(&self) -> (r: &'static str) {
        "unspecified"
    }

    fn super_type(&self) -> (r: SuperType) {
        SuperType::Independent
    }

    fn is_unspecified(&self) -> (r: bool) {
        true
    }

    fn fill_super(
        &self,
        sb: &mut SuperBlock<Self::Data>,
        mapped: &Mapped<Self::SuperFolio>,
        event: FillSuperEvent<Self::Data>,
    ) -> (r: FillSuperStep<Self::Data>)
        ensures
            r == FillSuperStep::<()>::Return(Err(Error::of(ENOTSUPP))),
            *final(sb) == *old(sb),
    {
        FillSuperStep::Return(Err(Error::of(ENOTSUPP)))
    }

    fn init_root(
        &self,
        sb: &SuperBlock<Self::Data>,
        folios: &Self::Folios,
        event: InitRootEvent<Self::INodeData>,
    ) -> (r: InitRootStep<Self::INodeData>)
        ensures
            r == InitRootStep::<()>::Return(Err(Error::of(ENOTSUPP))),
    {
        InitRootStep::Return(Err(Error::of(ENOTSUPP)))
    }
}

} // verus!
