//! Mounting.
use vstd::prelude::*;

use crate::error::{Error, EINVAL};
use crate::ezfs::fetch::{Fetch, Outcomes};
use crate::ezfs::iget::IgetStep;
use crate::ezfs::layout::Layout;
use crate::ezfs::record::{EzfsInode, EzfsSuperblock, EzfsSuperblockDisk, Folios, Volume};
use crate::ezfs::RustEzFs;
use crate::fs::{FileSystem, FillSuperEvent, FillSuperStep, InitRootEvent, InitRootStep};
use crate::mapper::Mapped;
use crate::sb::{SuperBlock, SuperType};

verus! {

/// What the folio of the superblock holds: the superblock, or `None` if it holds none.
pub type SuperFolio = Option<EzfsSuperblockDisk>;

impl Layout {
    /// What a step of filling a superblock asks for.
    pub open spec fn fill_super_step(
        self,
        outcomes: Outcomes<EzfsSuperblockDisk>,
        event: FillSuperEvent<EzfsSuperblock>,
    ) -> FillSuperStep<EzfsSuperblock> {
        match event {
            FillSuperEvent::Ready(None) => FillSuperStep::Return(Err(Error::of(EINVAL))),
            FillSuperEvent::Ready(Some(mapper)) => match self.superblock_on(mapper, outcomes) {
                Fetch::MapFolio(request) => FillSuperStep::MapFolio(request),
                Fetch::Fail(e) => FillSuperStep::Return(Err(e)),
                Fetch::Got(disk) => if disk.magic == self.magic {
                    FillSuperStep::Allocate(EzfsSuperblock { disk, mapper })
                } else {
                    FillSuperStep::Return(Err(Error::of(EINVAL)))
                },
            },
            FillSuperEvent::Allocated(r) => FillSuperStep::Return(r),
        }
    }

    /// The superblock after a step of filling it: it has the magic number once there is room for
    /// its data.
    pub open spec fn filled(
        self,
        sb: SuperBlock<EzfsSuperblock>,
        event: FillSuperEvent<EzfsSuperblock>,
    ) -> SuperBlock<EzfsSuperblock> {
        match event {
            FillSuperEvent::Allocated(Ok(_)) => SuperBlock { magic: self.magic, ..sb },
            _ => sb,
        }
    }
}

/// How making the root directory goes on after a step of getting its inode.
pub open spec fn root_step(s: IgetStep) -> InitRootStep<EzfsInode> {
    match s {
        IgetStep::MapFolio(request) => InitRootStep::MapFolio(request),
        IgetStep::InitInode(inode) => InitRootStep::InitInode(inode),
        IgetStep::Return(Err(e)) => InitRootStep::Return(Err(e)),
        IgetStep::Return(Ok(inode)) => InitRootStep::MakeRoot(inode),
    }
}

/// Goes on with making the root directory after a step of getting its inode.
fn root_goes_on(s: IgetStep) -> (r: InitRootStep<EzfsInode>)
    ensures
        r == root_step(s),
{
    match s {
        IgetStep::MapFolio(request) => InitRootStep::MapFolio(request),
        IgetStep::InitInode(inode) => InitRootStep::InitInode(inode),
        IgetStep::Return(Err(e)) => InitRootStep::Return(Err(e)),
        IgetStep::Return(Ok(inode)) => InitRootStep::MakeRoot(inode),
    }
}

impl FileSystem for RustEzFs {
    type Data = EzfsSuperblock;

    type INodeData = EzfsInode;

    type SuperFolio = SuperFolio;

    type Folios = Folios;

    open spec fn spec_name(&self) -> Seq<char> {
        "rustezfs"@
    }

    open spec fn spec_super_type(&self) -> SuperType {
        SuperType::BlockDev
    }

    open spec fn spec_is_unspecified(&self) -> bool {
        false
    }

    open spec fn init_root_pre(
        &self,
        sb: SuperBlock<EzfsSuperblock>,
        folios: Folios,
        event: InitRootEvent<EzfsInode>,
    ) -> bool {
        event matches InitRootEvent::Found(found) ==> {
            &&& sb.fs_info is Some
            &&& self.layout().iget_defined(
                Volume::of(sb, folios),
                self.layout().root_ino,
                found,
            )
        }
    }

    fn name(&self) -> (r: &'static str) {
        "rustezfs"
    }

    fn super_type(&self) -> (r: SuperType) {
        SuperType::BlockDev
    }

    fn is_unspecified(&self) -> (r: bool) {
        false
    }

    fn fill_super(
        &self,
        sb: &mut SuperBlock<EzfsSuperblock>,
        mapped: &Mapped<SuperFolio>,
        event: FillSuperEvent<EzfsSuperblock>,
    ) -> (r: FillSuperStep<EzfsSuperblock>)
        ensures
            r == self.layout().fill_super_step(mapped@, event),
            *final(sb) == self.layout().filled(*old(sb), event),
    {
        let layout = self.get_layout();
        match event {
            FillSuperEvent::Ready(None) => FillSuperStep::Return(Err(Error::of(EINVAL))),
            FillSuperEvent::Ready(Some(mapper)) => {
                let disk = match layout.fetch_superblock(&mapper, mapped) {
                    Fetch::MapFolio(request) => return FillSuperStep::MapFolio(request),
                    Fetch::Fail(e) => return FillSuperStep::Return(Err(e)),
                    Fetch::Got(disk) => *disk,
                };
                if disk.magic != layout.magic as u64 {
                    return FillSuperStep::Return(Err(Error::of(EINVAL)));
                }
                FillSuperStep::Allocate(EzfsSuperblock::new(disk, mapper))
            },
            FillSuperEvent::Allocated(Err(e)) => FillSuperStep::Return(Err(e)),
            FillSuperEvent::Allocated(Ok(data)) => {
                sb.set_magic(layout.magic);
                FillSuperStep::Return(Ok(data))
            },
        }
    }

    fn init_root(
        &self,
        sb: &SuperBlock<EzfsSuperblock>,
        folios: &Folios,
        event: InitRootEvent<EzfsInode>,
    ) -> (r: InitRootStep<EzfsInode>)
        ensures
            match event {
                InitRootEvent::Begin => r == (InitRootStep::<EzfsInode>::GetInode {
                    sb: sb.addr,
                    ino: self.layout().root_ino,
                }),
                InitRootEvent::Found(found) => exists|s: IgetStep|
                    {
                        &&& #[trigger] self.layout().iget_post(
                            Volume::of(*sb, *folios),
                            self.layout().root_ino,
                            found,
                            s,
                        )
                        &&& r == root_step(s)
                    },
                InitRootEvent::Initialised(inode, done) => match done {
                    Ok(_) => r == InitRootStep::MakeRoot(inode),
                    Err(e) => r == InitRootStep::<EzfsInode>::Return(Err(e)),
                },
                InitRootEvent::Made(root) => r == InitRootStep::<EzfsInode>::Return(root),
            },
    {
        match event {
            InitRootEvent::Begin => InitRootStep::GetInode {
                sb: sb.addr,
                ino: self.get_layout().root_ino,
            },
            InitRootEvent::Found(found) => root_goes_on(
                self.iget(sb, folios, self.get_layout().root_ino, found),
            ),
            InitRootEvent::Initialised(inode, done) => root_goes_on(
                RustEzFs::iget_initialised(inode, done),
            ),
            InitRootEvent::Made(r) => InitRootStep::Return(r),
        }
    }
}

} // verus!
