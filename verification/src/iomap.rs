//! The mapping of a range of a file to a range of a device.
use vstd::prelude::*;

use crate::fs::Offset;

verus! {

/// The flag of a mapping that is asked for in order to write.
pub const WRITE: u32 = 1;

/// The address of a range that has no place on the device.
pub const IOMAP_NULL_ADDR: u64 = 0xffff_ffff_ffff_ffff;

/// What a range of a file is on the device.
#[derive(Copy, Clone, PartialEq, Eq, Structural, Debug)]
pub enum Type {
    /// The range has no blocks on the device.
    Hole,
    /// The range has blocks on the device, from the address of the mapping on.
    Mapped,
}

/// The mapping of a range of a file.
#[derive(Copy, Clone, PartialEq, Eq, Debug)]
pub struct Mapping {
    /// Where the block device lies.
    pub bdev: Option<usize>,
    /// Where the range begins in the file.
    pub offset: Offset,
    /// How long the range is.
    pub length: u64,
    /// What the range is on the device.
    pub typ: Type,
    /// Where the range begins on the device.
    pub addr: u64,
}

} // verus!
