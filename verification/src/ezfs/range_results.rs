//! Where a file lies on the device, said of the calls themselves: each law speaks of the arguments
//! of a call and of what comes of it.
use vstd::prelude::*;

use crate::error::{Error, EINVAL, EIO};
use crate::ezfs::laws::law_device_address;
use crate::ezfs::map::block_of;
use crate::ezfs::record::{EzfsInode, EzfsSuperblock};
use crate::ezfs::RustEzFs;
use crate::inode::INode;
use crate::iomap::{Mapping, Type};
use crate::sb::SuperBlock;
use vstd::arithmetic::power2::pow2;

verus! {

/// A range that does not begin or end in front of the file is mapped as asked: it has the device of
/// the superblock, its own beginning and its own length. Any other is invalid and leaves the
/// mapping as it is. The other mapping is never touched.
pub proof fn law_begin_describes_the_range(
    inode: INode<EzfsInode>,
    sb: SuperBlock<EzfsSuperblock>,
    pos: i64,
    length: i64,
    flags: u32,
    map: &mut Mapping,
    srcmap: &mut Mapping,
    r: Result<(), Error>,
)
    requires
        call_ensures(RustEzFs::begin, (&inode, &sb, pos, length, flags, map, srcmap), r),
    ensures
        *final(srcmap) == *old(srcmap),
        pos < 0 || pos + length <= 0 ==> r == Err::<(), Error>(Error { errno: EINVAL })
            && *final(map) == *old(map),
        pos >= 0 && pos + length > 0 ==> {
            &&& final(map).bdev == Some(sb.bdev)
            &&& final(map).offset == pos
            &&& length >= 0 ==> final(map).length == length
            &&& length < 0 ==> final(map).length == length + 0x1_0000_0000_0000_0000
            &&& flags & 1 == 0 ==> r == Ok::<(), Error>(())
            &&& flags & 1 != 0 ==> {
                &&& r == Err::<(), Error>(Error { errno: EIO })
                &&& final(map).typ == old(map).typ
                &&& final(map).addr == old(map).addr
            }
        },
{
    assert(length < 0 ==> (length as u64) == length + 0x1_0000_0000_0000_0000) by (bit_vector);
}

/// A position of a file is read from the device at its own block: counted in blocks of the
/// superblock's size, that is the first block of the file and then as many blocks on as the
/// position lies behind the beginning of the file. A position behind the last block, or of a file
/// without blocks, is a hole.
pub proof fn law_begin_finds_the_block(
    inode: INode<EzfsInode>,
    sb: SuperBlock<EzfsSuperblock>,
    pos: i64,
    length: i64,
    flags: u32,
    map: &mut Mapping,
    srcmap: &mut Mapping,
    r: Result<(), Error>,
)
    requires
        call_ensures(RustEzFs::begin, (&inode, &sb, pos, length, flags, map, srcmap), r),
        sb.blocksize_bits < 64,
        pos >= 0,
        pos + length > 0,
        flags & 1 == 0,
    ensures
        ({
            let size = pow2(sb.blocksize_bits as nat) as int;
            let first = inode.params.value.data_blk_num;
            let block = pos as int / size;
            let placed = (first + block) * size;
            if first > 0 && block < inode.params.blocks / 8 {
                &&& final(map).typ == Type::Mapped
                &&& placed <= u64::MAX ==> final(map).addr == placed
                &&& final(map).addr == ((first + block) as u64) << sb.blocksize_bits
            } else {
                &&& final(map).typ == Type::Hole
                &&& final(map).addr == u64::MAX
            }
        }),
{
    let first = inode.params.value.data_blk_num;
    let bits = sb.blocksize_bits;
    assert(block_of(pos as int, bits) == pos as int / pow2(bits as nat) as int);
    if (first + block_of(pos as int, bits)) * pow2(bits as nat) <= u64::MAX {
        law_device_address(first, pos, bits);
    }
}

/// Two positions of a file that are both read from the device are read from places that are as many
/// blocks apart as the positions are.
pub proof fn law_begin_keeps_distances(
    inode: INode<EzfsInode>,
    sb: SuperBlock<EzfsSuperblock>,
    pos: i64,
    length: i64,
    map: &mut Mapping,
    srcmap: &mut Mapping,
    later: i64,
    later_length: i64,
    later_map: &mut Mapping,
    later_srcmap: &mut Mapping,
    r: Result<(), Error>,
)
    requires
        call_ensures(RustEzFs::begin, (&inode, &sb, pos, length, 0u32, map, srcmap), r),
        call_ensures(
            RustEzFs::begin,
            (&inode, &sb, later, later_length, 0u32, later_map, later_srcmap),
            r,
        ),
        sb.blocksize_bits < 64,
        r is Ok,
        pos <= later,
        final(map).typ == Type::Mapped,
        final(later_map).typ == Type::Mapped,
        (inode.params.value.data_blk_num + later as int / pow2(sb.blocksize_bits as nat) as int)
            * pow2(sb.blocksize_bits as nat) <= u64::MAX,
    ensures
        ({
            let size = pow2(sb.blocksize_bits as nat) as int;
            final(later_map).addr - final(map).addr == (later as int / size - pos as int / size)
                * size
        }),
{
    let size = pow2(sb.blocksize_bits as nat) as int;
    let first = inode.params.value.data_blk_num as int;
    assert(0u32 & 1 == 0) by (bit_vector);
    vstd::arithmetic::power2::lemma_pow2_pos(sb.blocksize_bits as nat);
    law_begin_describes_the_range(inode, sb, pos, length, 0, map, srcmap, r);
    law_begin_describes_the_range(inode, sb, later, later_length, 0, later_map, later_srcmap, r);
    law_begin_finds_the_block(inode, sb, pos, length, 0, map, srcmap, r);
    law_begin_finds_the_block(inode, sb, later, later_length, 0, later_map, later_srcmap, r);
    let a = pos as int / size;
    let b = later as int / size;
    vstd::arithmetic::div_mod::lemma_div_is_ordered(pos as int, later as int, size);
    assert((first + a) * size <= (first + b) * size && (first + b) * size - (first + a) * size == (b
        - a) * size) by (nonlinear_arith)
        requires
            a <= b,
            size > 0,
    ;
}

/// A range can be asked for unless the block size, the end of the range or the number of its block
/// does not fit. This is what `can_begin` tests. Ending an access always succeeds.
pub proof fn law_begin_is_possible(
    inode: INode<EzfsInode>,
    sb: SuperBlock<EzfsSuperblock>,
    pos: i64,
    length: i64,
    flags: u32,
    map: &mut Mapping,
    srcmap: &mut Mapping,
    can: bool,
    written: isize,
    mapping: Mapping,
    ended: Result<(), Error>,
)
    requires
        call_ensures(RustEzFs::can_begin, (&inode, &sb, pos, length), can),
        call_ensures(RustEzFs::end, (&inode, pos, length, written, flags, &mapping), ended),
    ensures
        can ==> call_requires(RustEzFs::begin, (&inode, &sb, pos, length, flags, map, srcmap)),
        can <==> {
            &&& sb.blocksize_bits < 64
            &&& pos >= 0 ==> i64::MIN < pos + length <= i64::MAX
            &&& pos >= 0 && pos + length > 0 && inode.params.value.data_blk_num > 0
                ==> inode.params.value.data_blk_num + pos as int / pow2(
                sb.blocksize_bits as nat,
            ) as int <= u64::MAX
        },
        ended == Ok::<(), Error>(()),
{
}

} // verus!
