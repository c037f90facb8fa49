//! What holds between the operations of the file layer.
use vstd::prelude::*;

use crate::error::{result_i64, Error, EDOM, EINVAL, MAX_ERRNO};
use crate::fs::file::dir::{DirEmitter, DirEntryType, DirRecord, DotsStepView};
use crate::fs::file::ops::{dir_table, file_table};
use crate::fs::file::{seek_result, FileCall, Whence};
use crate::fs::mode::{
    S_IFBLK, S_IFCHR, S_IFDIR, S_IFIFO, S_IFLNK, S_IFMT, S_IFREG, S_IFSOCK,
};
use crate::fs::registration::{
    kill_call, kill_step, FileSystemType, KillCall, KillSbEvent, KillSbStep, FS_REQUIRES_DEV,
};
use crate::fs::tables::{
    get_tree_call, mount_step, mounted, GetTreeCall, MountEvent, MountStep, SuperOperations,
};
use crate::fs::FileSystem;
use crate::inode::Type;
use crate::mapper::Mapper;
use crate::sb::{Root, SuperBlock, SuperType};
use vstd::std_specs::convert::{FromSpec, TryFromSpec};

verus! {

/// A value of `Whence` survives being turned into its number and back, and a number that is that
/// of none is refused with `EDOM`.
pub proof fn law_whence_round_trip(w: Whence, v: i32)
    ensures
        Whence::try_from_spec(w.spec_number()) == Ok::<Whence, Error>(w),
        match Whence::try_from_spec(v) {
            Ok(u) => u.spec_number() == v,
            Err(e) => e == Error::of(EDOM) && w.spec_number() != v,
        },
{
}

/// A directory entry type survives being turned into its number and back, and a number that is
/// that of none is refused with `EDOM`.
pub proof fn law_entry_type_round_trip(t: DirEntryType, v: u32)
    ensures
        DirEntryType::try_from_spec(t.spec_number()) == Ok::<DirEntryType, Error>(t),
        match DirEntryType::try_from_spec(v) {
            Ok(u) => u.spec_number() == v,
            Err(e) => e == Error::of(EDOM) && t.spec_number() != v,
        },
{
}

/// The type of a directory entry depends on the file type bits of the mode alone.
pub proof fn law_entry_type_ignores_permissions(mode: u32, permissions: u32)
    requires
        permissions & S_IFMT == 0,
    ensures
        DirEntryType::of_mode(mode | permissions) == DirEntryType::of_mode(mode),
{
    assert((mode | permissions) & S_IFMT == mode & S_IFMT) by (bit_vector)
        requires
            permissions & S_IFMT == 0,
    ;
}

/// The file type bits of the mode of an inode of the given type.
pub open spec fn type_bits(typ: Type) -> u32 {
    match typ {
        Type::Fifo => S_IFIFO,
        Type::Chr(_, _) => S_IFCHR,
        Type::Dir => S_IFDIR,
        Type::Blk(_, _) => S_IFBLK,
        Type::Reg => S_IFREG,
        Type::Lnk(_) => S_IFLNK,
        Type::Sock => S_IFSOCK,
    }
}

/// The type of an inode and its mode lead to the same directory entry type.
pub proof fn law_entry_type_of_inode(typ: Type, permissions: u32)
    requires
        permissions & S_IFMT == 0,
    ensures
        DirEntryType::of_mode(type_bits(typ) | permissions) == DirEntryType::from_spec(&typ),
{
    law_entry_type_ignores_permissions(type_bits(typ), permissions);
    assert(S_IFIFO & S_IFMT == S_IFIFO && S_IFCHR & S_IFMT == S_IFCHR && S_IFDIR & S_IFMT
        == S_IFDIR && S_IFBLK & S_IFMT == S_IFBLK && S_IFREG & S_IFMT == S_IFREG && S_IFLNK
        & S_IFMT == S_IFLNK && S_IFSOCK & S_IFMT == S_IFSOCK) by (bit_vector);
}

/// The answer of a generic seek, a position or an error number, is the answer of the callback; a
/// negative number that is no error number becomes `EINVAL`.
pub proof fn law_seek_answer(n: i64)
    ensures
        n >= -MAX_ERRNO ==> result_i64(seek_result(n)) == n,
        n < -MAX_ERRNO ==> result_i64(seek_result(n)) == EINVAL,
{
}

/// A reservation ends in exactly one way. Committing it ends it and gives one reference to the
/// file away; giving it up ends it and leaves every reference where it is.
pub proof fn law_reservation(fd: u32, file: usize, other: u32, other_file: usize)
    ensures
        (FileCall::FdInstall { fd, file }).ends_reservation(other) <==> other == fd,
        FileCall::PutUnusedFd(fd).ends_reservation(other) <==> other == fd,
        (FileCall::FdInstall { fd, file }).refs_gained(file) == -1,
        other_file != file ==> (FileCall::FdInstall { fd, file }).refs_gained(other_file) == 0,
        FileCall::PutUnusedFd(fd).refs_gained(other_file) == 0,
{
}

/// Adding a reference to a file and giving one back cancel out, and neither touches another file
/// or a reservation.
pub proof fn law_references(file: usize, other: usize, fd: u32)
    ensures
        FileCall::GetFile(file).refs_gained(other) + FileCall::Fput(file).refs_gained(other) == 0,
        FileCall::GetFile(file).refs_gained(file) == 1,
        other != file ==> FileCall::GetFile(file).refs_gained(other) == 0,
        !FileCall::GetFile(file).ends_reservation(fd),
        !FileCall::Fput(file).ends_reservation(fd),
{
}

/// An entry moves the reader by its increment if the actor takes it, and not at all otherwise.
pub proof fn law_emit_moves_if_taken(
    emitter: DirEmitter,
    pos_inc: i64,
    name: Seq<u8>,
    ino: u64,
    etype: DirEntryType,
    call: DirRecord,
    taken: bool,
)
    requires
        emitter.call_for(pos_inc, name, ino, etype) == Some(call),
    ensures
        call.pos == emitter.pos,
        emitter.completed(call, taken).pos == (if taken {
            emitter.pos + pos_inc
        } else {
            emitter.pos as int
        }),
        emitter.completed(call, taken).has_actor,
{
}

/// The entries of a directory for itself and for its parent are handed out once: after each that
/// is taken the next is due, and after both none.
pub proof fn law_dots_in_turn(emitter: DirEmitter, ino: usize, parent_ino: usize, call: DirRecord)
    requires
        emitter.dots_step(ino, parent_ino) == DotsStepView::Call(call),
    ensures
        emitter.pos == 0 || emitter.pos == 1,
        call.pos == emitter.pos,
        emitter.completed(call, true).pos == emitter.pos + 1,
        emitter.completed(call, false) == emitter,
        emitter.pos == 1 ==> emitter.completed(call, true).dots_step(ino, parent_ino)
            == DotsStepView::Return(true),
        emitter.pos == 0 ==> emitter.completed(call, true).dots_step(ino, parent_ino)
            is Call,
{
}

/// Regular files cannot be listed, and directories can be neither sought in nor read nor written.
pub proof fn law_tables(has_seek: bool, has_read: bool, has_read_dir: bool)
    ensures
        file_table(has_seek, has_read).iterate_shared is None,
        file_table(has_seek, has_read).llseek is Some <==> has_seek,
        file_table(has_seek, has_read).read is Some <==> has_read,
        dir_table(has_read_dir).iterate_shared is Some <==> has_read_dir,
        dir_table(has_read_dir).llseek is None,
        dir_table(has_read_dir).read is None,
        dir_table(has_read_dir).write is None,
        dir_table(has_read_dir).read_iter is None,
        dir_table(has_read_dir).write_iter is None,
{
}

/// A superblock is torn down in the way that fits how it was made.
pub proof fn law_teardown_fits(t: SuperType)
    ensures
        get_tree_call(t) == GetTreeCall::GetTreeBdev <==> kill_call(t) == KillCall::KillBlockSuper,
        get_tree_call(t) == GetTreeCall::GetTreeNodev <==> kill_call(t) == KillCall::KillAnonSuper,
{
}

/// A superblock is filled with a mapper of its own device if superblocks of its type are made for
/// block devices, and without one otherwise; and the file system is registered as one that requires
/// a device if and only if they are.
pub proof fn law_devices<T: FileSystem>(
    fs: &T,
    sb: SuperBlock<T::Data>,
    registered: FileSystemType,
    module: usize,
)
    requires
        registered.describes(fs, module),
    ensures
        ({
            let t = fs.spec_super_type();
            let begun = mount_step(sb, t, MountEvent::Begin);
            let has_device = get_tree_call(t) == GetTreeCall::GetTreeBdev;
            &&& begun == (MountStep::FillSuper {
                mapper: if has_device {
                    Some(Mapper { bdev: sb.bdev })
                } else {
                    None
                },
            })
            &&& registered.fs_flags == FS_REQUIRES_DEV <==> has_device
        }),
{
}

/// Mounting, step by step: it succeeds if and only if the superblock is filled and a root directory
/// of this very superblock is made. Then the superblock has its operations, its data and its root.
/// Once it has data it keeps it, even if mounting fails after that, so that ending it frees the
/// data; and where it never had any, ending it frees nothing.
pub proof fn law_mount<D>(
    sb: SuperBlock<D>,
    t: SuperType,
    table: SuperOperations,
    filled: Result<D, Error>,
    rooted: Result<Root, Error>,
)
    requires
        filled matches Err(e) ==> e.wf(),
        rooted matches Err(e) ==> e.wf(),
    ensures
        ({
            let sb1 = mounted(sb, table, MountEvent::Begin);
            let sb2 = mounted(sb1, table, MountEvent::Filled(filled));
            let sb3 = mounted(sb2, table, MountEvent::Rooted(rooted));
            let step2 = mount_step(sb1, t, MountEvent::Filled(filled));
            let step3 = mount_step(sb2, t, MountEvent::Rooted(rooted));
            &&& sb1 == (SuperBlock { ops: Some(table), ..sb })
            &&& step2 == MountStep::InitRoot <==> filled is Ok
            &&& filled matches Err(e) ==> step2 == MountStep::Return(e.errno) && e.errno < 0 && sb2
                == sb1
            &&& filled matches Ok(data) ==> sb2.fs_info == Some(data) && sb3.fs_info == Some(data)
            &&& filled matches Ok(data) ==> kill_step(t, KillSbEvent::TornDown(sb3.fs_info))
                == KillSbStep::Free(data)
            &&& filled is Err && sb.fs_info is None ==> kill_step(
                t,
                KillSbEvent::TornDown(sb2.fs_info),
            ) == KillSbStep::<D>::Done
            &&& step3 == MountStep::Return(0) <==> (rooted matches Ok(root) && root.super_block
                == sb.addr)
            &&& step3 == MountStep::Return(0) ==> sb3.root == Some(rooted->Ok_0.dentry) && sb3.ops
                == Some(table)
            &&& step3 != MountStep::Return(0) ==> sb3 == sb2 && step3->Return_0 < 0
        }),
{
}

} // verus!
