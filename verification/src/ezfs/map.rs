//! Where the bytes of a file lie on the device.
use vstd::prelude::*;

use crate::error::{i64_to_u64, Error, EINVAL, EIO};
use crate::ezfs::record::{EzfsInode, EzfsSuperblock};
use crate::ezfs::RustEzFs;
use crate::fs::Offset;
use crate::inode::INode;
use crate::iomap::{Mapping, Type, IOMAP_NULL_ADDR, WRITE};
use crate::sb::SuperBlock;
use vstd::arithmetic::power2::pow2;
use vstd::bits::lemma_u64_shr_is_div;

verus! {

/// The block that holds the byte at `pos`, for blocks of `2^bits` bytes.
pub open spec fn block_of(pos: int, bits: u8) -> int {
    pos / pow2(bits as nat) as int
}

/// Shifting a position to the right gives the number of its block, and a negative number for a
/// negative position.
proof fn lemma_block_of(pos: i64, bits: u8)
    requires
        bits < 64,
    ensures
        pos >= 0 ==> (pos >> bits) == block_of(pos as int, bits) && 0 <= block_of(pos as int, bits)
            <= pos,
        pos < 0 ==> (pos >> bits) < 0,
{
    assert(pos < 0 ==> (pos >> bits) < 0) by (bit_vector)
        requires
            bits < 64,
    ;
    if pos >= 0 {
        let upos = pos as u64;
        let ubits = bits as u64;
        assert((pos >> bits) == ((pos as u64) >> (bits as u64))) by (bit_vector)
            requires
                bits < 64,
                pos >= 0,
        ;
        assert((upos >> ubits) <= upos) by (bit_vector);
        lemma_u64_shr_is_div(upos, ubits);
    }
}

/// Where the byte at `pos` of a file lies on the device, for a file whose first block is
/// `blk_num`.
pub open spec fn device_addr(blk_num: u64, pos: i64, bits: u8) -> u64 {
    ((blk_num + block_of(pos as int, bits)) as u64) << bits
}

/// Whether the byte at `pos` of a file has no place on the device: the file has no blocks, or too
/// few.
pub open spec fn is_hole(inode: INode<EzfsInode>, pos: i64, bits: u8) -> bool {
    inode.params.value.data_blk_num == 0 || block_of(pos as int, bits) >= inode.params.blocks / 8
}

/// Whether a range begins or ends before the file.
pub open spec fn before_file(pos: i64, length: i64) -> bool {
    pos < 0 || pos + length - 1 < 0
}

/// The mapping that is given for the range of `length` bytes at `pos`.
pub open spec fn mapping(
    inode: INode<EzfsInode>,
    sb: SuperBlock<EzfsSuperblock>,
    pos: i64,
    length: i64,
    flags: u32,
    map: Mapping,
) -> Mapping {
    let ranged = Mapping { bdev: Some(sb.bdev), offset: pos, length: length as u64, ..map };
    if before_file(pos, length) {
        map
    } else if flags & WRITE != 0 {
        ranged
    } else if is_hole(inode, pos, sb.blocksize_bits) {
        Mapping { typ: Type::Hole, addr: IOMAP_NULL_ADDR, ..ranged }
    } else {
        Mapping {
            typ: Type::Mapped,
            addr: device_addr(inode.params.value.data_blk_num, pos, sb.blocksize_bits),
            ..ranged
        }
    }
}

/// What comes of asking for a mapping: a range that is not in the file is invalid, and there is no
/// writing.
pub open spec fn mapping_result(pos: i64, length: i64, flags: u32) -> Result<(), Error> {
    if before_file(pos, length) {
        Err(Error::of(EINVAL))
    } else if flags & WRITE != 0 {
        Err(Error::of(EIO))
    } else {
        Ok(())
    }
}

/// When a mapping can be asked for: the range does not end behind the last position, and the
/// block at which it begins has a number on the device.
pub open spec fn begin_defined(
    inode: INode<EzfsInode>,
    sb: SuperBlock<EzfsSuperblock>,
    pos: i64,
    length: i64,
) -> bool {
    &&& sb.blocksize_bits < 64
    &&& pos >= 0 ==> i64::MIN < pos + length <= i64::MAX
    &&& !before_file(pos, length) && inode.params.value.data_blk_num > 0
        ==> inode.params.value.data_blk_num + block_of(pos as int, sb.blocksize_bits) <= u64::MAX
}

impl RustEzFs {
    /// Whether a mapping can be asked for, as [`RustEzFs::begin`] requires.
    pub fn can_begin(
        inode: &INode<EzfsInode>,
        sb: &SuperBlock<EzfsSuperblock>,
        pos: Offset,
        length: Offset,
    ) -> (r: bool)
        ensures
            r == begin_defined(*inode, *sb, pos, length),
    {
        let bits: u8 = sb.blocksize_bits;
        if bits >= 64 {
            return false;
        }
        if pos < 0 {
            return true;
        }
        let end: i64 = match pos.checked_add(length) {
            None => return false,
            Some(end) => end,
        };
        if end == i64::MIN {
            return false;
        }
        if end < 1 {
            return true;
        }
        proof {
            lemma_block_of(pos, bits);
        }
        let block: u64 = (pos >> bits) as u64;
        let blk_num: u64 = inode.data().data_blk_num;
        blk_num == 0 || blk_num.checked_add(block).is_some()
    }

    /// Begins an access to the `length` bytes at `pos` of a file: says where they lie on the
    /// device.
    pub fn begin(
        inode: &INode<EzfsInode>,
        sb: &SuperBlock<EzfsSuperblock>,
        pos: Offset,
        length: Offset,
        flags: u32,
        map: &mut Mapping,
        srcmap: &mut Mapping,
    ) -> (r: Result<(), Error>)
        requires
            begin_defined(*inode, *sb, pos, length),
        ensures
            r == mapping_result(pos, length, flags),
            *final(map) == mapping(*inode, *sb, pos, length, flags, *old(map)),
            *final(srcmap) == *old(srcmap),
    {
        let bits: u8 = sb.blocksize_bits;
        let ezfs_inode = inode.data();
        proof {
            lemma_block_of(pos, bits);
        }
        let start_block: u64 = match i64_to_u64(pos >> bits) {
            Ok(b) => b,
            Err(e) => return Err(e),
        };
        let last: i64 = pos + length - 1;
        proof {
            lemma_block_of(last, bits);
        }
        match i64_to_u64(last >> bits) {
            Ok(_) => {},
            Err(e) => return Err(e),
        }
        let ez_blk_num: u64 = ezfs_inode.data_blk_num;
        let ez_blk_count: u64 = inode.blocks() / 8;
        let phys: u64 = if ez_blk_num > 0 {
            ez_blk_num + start_block
        } else {
            0
        };
        map.bdev = Some(sb.bdev);
        map.offset = pos;
        map.length = #[verifier::truncate] (length as u64);
        if flags & WRITE == 0 {
            if ez_blk_num == 0 || start_block >= ez_blk_count {
                map.typ = Type::Hole;
                map.addr = IOMAP_NULL_ADDR;
                return Ok(());
            }
            map.typ = Type::Mapped;
            map.addr = phys << bits;
            return Ok(());
        }
        Err(Error::of(EIO))
    }

    /// Ends an access to a range of a file.
    pub fn end(
        _inode: &INode<EzfsInode>,
        _pos: Offset,
        _length: Offset,
        _written: isize,
        _flags: u32,
        _map: &Mapping,
    ) -> (r: Result<(), Error>)
        ensures
            r == Ok::<(), Error>(()),
    {
        Ok(())
    }
}

} // verus!
