//! Looking a name up in a directory.
use vstd::prelude::*;

use crate::error::{to_usize_spec, u64_to_usize, Error, ENAMETOOLONG};
use crate::ezfs::fetch::Fetch;
use crate::ezfs::iget::IgetStep;
use crate::ezfs::layout::Layout;
use crate::ezfs::record::{EzfsDirEntry, EzfsInode, EzfsSuperblock, Folios, Volume};
use crate::ezfs::RustEzFs;
use crate::inode::{INode, INodeState};
use crate::mapper::FolioRequest;
use crate::sb::SuperBlock;

verus! {

/// What looking a name up asks for.
pub enum LookupStep {
    /// A folio of the device is to be mapped.
    MapFolio(FolioRequest),
    /// The inode cache is to be asked for an inode of the superblock that lies at `sb`.
    GetInode { sb: usize, ino: usize },
    /// The fresh inode of the inode cache is to be initialised with this. What comes of that is for
    /// [`RustEzFs::lookup_initialised`].
    InitInode(INode<EzfsInode>),
    /// The inode, or that there is none, is to be put into the directory cache. What comes of that
    /// is the answer.
    SpliceAlias(Option<INode<EzfsInode>>),
    /// The name cannot be looked up.
    Fail(Error),
}

/// Whether two names are equal.
fn names_equal(a: &[u8], b: &[u8]) -> (r: bool)
    ensures
        r == (a@ == b@),
{
    if a.len() != b.len() {
        return false;
    }
    for i in 0..a.len()
        invariant
            a@.len() == b@.len(),
            forall|k: int| 0 <= k < i ==> a@[k] == b@[k],
    {
        if a[i] != b[i] {
            return false;
        }
    }
    assert(a@ == b@);
    true
}

/// The index of the first active entry with the name `name`, at or after `from`.
pub open spec fn first_named(entries: Seq<EzfsDirEntry>, name: Seq<u8>, from: int) -> Option<int>
    decreases entries.len() - from,
{
    if from < 0 || from >= entries.len() {
        None
    } else if entries[from].active && entries[from].filename@ == name {
        Some(from)
    } else {
        first_named(entries, name, from + 1)
    }
}

/// Finds the first active entry with the name `name`.
pub fn find_entry(entries: &Vec<EzfsDirEntry>, name: &[u8]) -> (r: Option<usize>)
    ensures
        match r {
            Some(j) => first_named(entries@, name@, 0) == Some(j as int) && j < entries@.len(),
            None => first_named(entries@, name@, 0) is None,
        },
{
    let mut i: usize = 0;
    while i < entries.len()
        invariant
            first_named(entries@, name@, 0) == first_named(entries@, name@, i as int),
        decreases entries.len() - i,
    {
        if entries[i].active && names_equal(entries[i].filename.as_slice(), name) {
            return Some(i);
        }
        i = i + 1;
    }
    None
}

/// What the entries of a directory say of a name.
pub enum Named {
    /// The entries have to be mapped first.
    MapFolio(FolioRequest),
    /// The name cannot be looked up.
    Fail(Error),
    /// There is no such name.
    Absent,
    /// The name is that of the inode with this number.
    Present(usize),
}

/// How looking a name up goes on after a step of getting its inode.
pub open spec fn lookup_step(s: IgetStep) -> LookupStep {
    match s {
        IgetStep::MapFolio(request) => LookupStep::MapFolio(request),
        IgetStep::InitInode(inode) => LookupStep::InitInode(inode),
        IgetStep::Return(Err(e)) => LookupStep::Fail(e),
        IgetStep::Return(Ok(inode)) => LookupStep::SpliceAlias(Some(inode)),
    }
}

/// Goes on with looking a name up after a step of getting its inode.
fn lookup_goes_on(s: IgetStep) -> (r: LookupStep)
    ensures
        r == lookup_step(s),
{
    match s {
        IgetStep::MapFolio(request) => LookupStep::MapFolio(request),
        IgetStep::InitInode(inode) => LookupStep::InitInode(inode),
        IgetStep::Return(Err(e)) => LookupStep::Fail(e),
        IgetStep::Return(Ok(inode)) => LookupStep::SpliceAlias(Some(inode)),
    }
}

impl Layout {
    /// What the entries of the directory `dir` say of `name`.
    pub open spec fn named(self, volume: Volume, dir: EzfsInode, name: Seq<u8>) -> Named {
        if name.len() > self.filename_buf_size {
            Named::Fail(Error::of(ENAMETOOLONG))
        } else {
            match self.entries_on(volume, dir) {
                Fetch::MapFolio(o) => Named::MapFolio(o),
                Fetch::Fail(e) => Named::Fail(e),
                Fetch::Got(entries) => match first_named(entries@, name, 0) {
                    None => Named::Absent,
                    Some(j) => match to_usize_spec(entries@[j].inode_no as int) {
                        Err(e) => Named::Fail(e),
                        Ok(ino) => Named::Present(ino),
                    },
                },
            }
        }
    }

    /// When `name` can be looked up in the directory `dir`: its inode can be got, if it comes to
    /// that.
    pub open spec fn lookup_defined(
        self,
        volume: Volume,
        dir: EzfsInode,
        name: Seq<u8>,
        found: Option<Result<INodeState<EzfsInode>, Error>>,
    ) -> bool {
        match (self.named(volume, dir, name), found) {
            (Named::Present(ino), Some(f)) => self.iget_defined(volume, ino, f),
            _ => true,
        }
    }

    /// What looking `name` up in the directory `dir` comes to, where `found` is what the inode
    /// cache has under the number of the name, if it was asked.
    pub open spec fn lookup_post(
        self,
        volume: Volume,
        dir: EzfsInode,
        name: Seq<u8>,
        found: Option<Result<INodeState<EzfsInode>, Error>>,
        r: LookupStep,
    ) -> bool {
        match self.named(volume, dir, name) {
            Named::MapFolio(o) => r == LookupStep::MapFolio(o),
            Named::Fail(e) => r == LookupStep::Fail(e),
            Named::Absent => r == LookupStep::SpliceAlias(None),
            Named::Present(ino) => match found {
                None => r == (LookupStep::GetInode { sb: volume.sb, ino }),
                Some(found) => exists|s: IgetStep|
                    {
                        &&& #[trigger] self.iget_post(volume, ino, found, s)
                        &&& r == lookup_step(s)
                    },
            },
        }
    }
}

impl RustEzFs {
    /// What the entries of the directory `dir` say of `name`.
    fn find_name(
        &self,
        sb: &SuperBlock<EzfsSuperblock>,
        folios: &Folios,
        dir: &EzfsInode,
        name: &[u8],
    ) -> (r: Named)
        requires
            sb.fs_info is Some,
        ensures
            r == self.layout().named(Volume::of(*sb, *folios), *dir, name@),
    {
        let layout = self.get_layout();
        if name.len() > layout.filename_buf_size {
            return Named::Fail(Error::of(ENAMETOOLONG));
        }
        let dir_entries = match layout.fetch_entries(sb, folios, dir) {
            Fetch::MapFolio(request) => return Named::MapFolio(request),
            Fetch::Fail(e) => return Named::Fail(e),
            Fetch::Got(entries) => entries,
        };
        match find_entry(dir_entries, name) {
            None => Named::Absent,
            Some(j) => match u64_to_usize(dir_entries[j].inode_no) {
                Err(e) => Named::Fail(e),
                Ok(ino) => Named::Present(ino),
            },
        }
    }

    /// Whether `name` can be looked up, as [`RustEzFs::lookup`] requires.
    pub fn can_lookup(
        &self,
        sb: &SuperBlock<EzfsSuperblock>,
        folios: &Folios,
        parent: &INode<EzfsInode>,
        name: &[u8],
        found: &Option<Result<INodeState<EzfsInode>, Error>>,
    ) -> (r: bool)
        ensures
            r == (sb.fs_info is Some && self.layout().lookup_defined(
                Volume::of(*sb, *folios),
                parent.params.value,
                name@,
                *found,
            )),
    {
        if sb.fs_info.is_none() {
            return false;
        }
        match (self.find_name(sb, folios, parent.data(), name), found) {
            (Named::Present(ino), Some(found)) => self.can_iget(sb, folios, ino, found),
            _ => true,
        }
    }

    /// Looks the name `name` up in the directory `parent` of the superblock `sb`.
    ///
    /// `found` is what came of asking the inode cache for the inode that this asked for, and
    /// `None` as long as it did not ask.
    pub fn lookup(
        &self,
        sb: &SuperBlock<EzfsSuperblock>,
        folios: &Folios,
        parent: &INode<EzfsInode>,
        name: &[u8],
        found: Option<Result<INodeState<EzfsInode>, Error>>,
    ) -> (r: LookupStep)
        requires
            sb.fs_info is Some,
            self.layout().lookup_defined(
                Volume::of(*sb, *folios),
                parent.params.value,
                name@,
                found,
            ),
        ensures
            self.layout().lookup_post(
                Volume::of(*sb, *folios),
                parent.params.value,
                name@,
                found,
                r,
            ),
    {
        let ino: usize = match self.find_name(sb, folios, parent.data(), name) {
            Named::MapFolio(request) => return LookupStep::MapFolio(request),
            Named::Fail(e) => return LookupStep::Fail(e),
            Named::Absent => return LookupStep::SpliceAlias(None),
            Named::Present(ino) => ino,
        };
        match found {
            None => LookupStep::GetInode { sb: sb.addr, ino },
            Some(found) => lookup_goes_on(self.iget(sb, folios, ino, found)),
        }
    }

    /// Goes on after the fresh inode was to be initialised with `inode`: it is the inode of the
    /// name. An error of initialising it is the answer, and nothing is put into the directory
    /// cache.
    pub fn lookup_initialised(inode: INode<EzfsInode>, done: Result<(), Error>) -> (r: LookupStep)
        ensures
            match done {
                Ok(_) => r == LookupStep::SpliceAlias(Some(inode)),
                Err(e) => r == LookupStep::Fail(e),
            },
    {
        lookup_goes_on(RustEzFs::iget_initialised(inode, done))
    }
}

} // verus!
