//! Block devices, and what an operation has read of one so far.
use std::collections::HashMap;
use vstd::prelude::*;

use crate::error::Error;
use crate::fs::Offset;

verus! {

/// What the folio at an offset of a device is mapped for.
#[derive(Copy, Clone, PartialEq, Eq, Structural, Debug)]
pub enum Record {
    /// A superblock.
    SuperBlock,
    /// An inode store.
    INodes,
    /// The entries of a directory.
    DirEntries,
}

/// A request to map a folio of a device and to read a record from it.
#[derive(Copy, Clone, PartialEq, Eq, Structural, Debug)]
pub struct FolioRequest {
    /// Where the block device lies.
    pub bdev: usize,
    /// What the folio is to be read as.
    pub record: Record,
    /// The offset of the folio on the device.
    pub offset: Offset,
}

/// A mapper of the folios of a block device.
///
/// Mapping is done outside: a mapper says what is to be mapped, and what came of it is kept in a
/// [`Mapped`].
#[derive(Copy, Clone, PartialEq, Eq, Structural, Debug)]
pub struct Mapper {
    /// Where the block device lies.
    pub bdev: usize,
}

impl Mapper {
    /// The request to map the folio at `offset` of the device and to read it as a `record`.
    pub open spec fn request(self, record: Record, offset: Offset) -> FolioRequest {
        FolioRequest { bdev: self.bdev, record, offset }
    }

    /// Maps the folio at `offset` of the device: says what is to be mapped, and read as a `record`.
    pub fn mapped_folio(&self, record: Record, offset: Offset) -> (r: FolioRequest)
        ensures
            r == self.request(record, offset),
    {
        FolioRequest { bdev: self.bdev, record, offset }
    }
}

/// The folios of a device that an operation has mapped, with what came of mapping each.
///
/// `F` is what a folio was read as. The outcome of mapping, a folio or an error, is recorded under
/// the offset that was mapped. An operation that needs a folio which is not recorded yet says so,
/// and is called again once the outcome is there.
///
/// This serves one operation, from its first step to its last. The next operation begins with
/// [`Mapped::new`], so that it maps what it needs anew.
pub struct Mapped<F> {
    folios: HashMap<i64, Result<F, Error>>,
}

impl<F> View for Mapped<F> {
    type V = Map<i64, Result<F, Error>>;

    closed spec fn view(&self) -> Map<i64, Result<F, Error>> {
        self.folios@
    }
}

impl<F> Mapped<F> {
    /// What an operation begins with: nothing was mapped yet.
    pub fn new() -> (m: Self)
        ensures
            m@ == Map::<i64, Result<F, Error>>::empty(),
    {
        Mapped { folios: HashMap::new() }
    }

    /// Records what came of mapping the folio at `offset`.
    pub fn record(&mut self, offset: Offset, outcome: Result<F, Error>)
        ensures
            final(self)@ == old(self)@.insert(offset, outcome),
    {
        broadcast use vstd::std_specs::hash::group_hash_axioms;

        self.folios.insert(offset, outcome);
    }

    /// What came of mapping the folio at `offset`; `None` when that has not been tried.
    pub fn outcome(&self, offset: Offset) -> (r: Option<&Result<F, Error>>)
        ensures
            match r {
                Some(outcome) => self@.contains_key(offset) && *outcome == self@[offset],
                None => !self@.contains_key(offset),
            },
    {
        broadcast use vstd::std_specs::hash::group_hash_axioms;

        self.folios.get(&offset)
    }
}

/// A request is for the folio that was asked for, of the device of the mapper.
pub proof fn law_request_names_its_folio(
    mapper: Mapper,
    record: Record,
    offset: Offset,
    r: FolioRequest,
)
    requires
        call_ensures(Mapper::mapped_folio, (&mapper, record, offset), r),
    ensures
        r.bdev == mapper.bdev,
        r.record == record,
        r.offset == offset,
{
}

/// What is recorded of a folio is what is found of it, and nothing is found of a folio of which
/// nothing is recorded.
pub proof fn law_recorded_is_found<F>(
    empty: Mapped<F>,
    m: &mut Mapped<F>,
    offset: Offset,
    outcome: Result<F, Error>,
    at: Offset,
    nothing: Option<&Result<F, Error>>,
    before: Option<&Result<F, Error>>,
    after: Option<&Result<F, Error>>,
)
    requires
        call_ensures(Mapped::<F>::new, (), empty),
        call_ensures(Mapped::<F>::outcome, (&empty, at), nothing),
        call_ensures(Mapped::<F>::record, (m, offset, outcome), ()),
        call_ensures(Mapped::<F>::outcome, (&*old(m), at), before),
        call_ensures(Mapped::<F>::outcome, (&*final(m), at), after),
    ensures
        nothing is None,
        at == offset ==> (after matches Some(found) && *found == outcome),
        at != offset ==> after is Some == before is Some,
        at != offset && before is Some ==> *after->0 == *before->0,
        after matches Some(found) ==> final(m)@.contains_key(at) && final(m)@[at] == *found,
        after is None ==> !final(m)@.contains_key(at),
{
}

} // verus!
