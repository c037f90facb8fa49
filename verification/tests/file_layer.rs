use rustezfs::error::{
    from_result_i32, from_result_i64, from_result_isize, to_result, Error, EBADF, EDOM, EINVAL,
    EIO, ENAMETOOLONG, ENOENT, ENOTSUPP,
};
use rustezfs::fs::file::callback::{return_count, seek_callback_result};
use rustezfs::fs::file::dir::{DirEmitter, DirEntryType, DotsStep};
use rustezfs::fs::file::flags;
use rustezfs::fs::file::ops::{Ops, OpsTable};
use rustezfs::fs::file::{
    generic_seek, generic_seek_result, BadFdError, Credential, DescriptorCall, File, FileCall,
    FileDescriptorReservation, LlseekCall, LocalFile, Whence,
};
use rustezfs::fs::mode;
use rustezfs::inode::{AddressSpaceOps, INode, INodeOps, Params, Timespec, Type};
use rustezfs::sb::DEntry;

fn local_file(ino: usize, parent_ino: usize) -> LocalFile<u8> {
    let t = Timespec { secs: 0, nsecs: 0 };
    LocalFile {
        addr: 0x1000,
        flags: flags::O_RDWR | flags::O_APPEND,
        inode: INode {
            ino,
            fops: Ops::generic_ro_file(),
            iops: INodeOps::EzFs,
            aops: AddressSpaceOps::EzFsIomap,
            params: Params {
                typ: Type::Dir,
                mode: 0o040755,
                size: 4096,
                blocks: 8,
                nlink: 2,
                uid: 1,
                gid: 2,
                ctime: t,
                mtime: t,
                atime: t,
                value: 7,
            },
        },
        dentry: DEntry { addr: 0x2000, parent_ino },
        cred: Credential { addr: 0x3000 },
        pos_unlocked: false,
    }
}

#[test]
fn error_numbers_keep_their_value() {
    for errno in [ENOENT, EIO, EBADF, EINVAL, EDOM, ENAMETOOLONG, ENOTSUPP, -1, -4095] {
        let e = Error::from_errno(errno);
        assert_eq!(e.to_errno(), errno);
        assert_eq!(from_result_i32(Err(e)), errno);
        assert_eq!(from_result_i64(Err(e)), errno as i64);
        assert_eq!(from_result_isize(Err(e)), errno as isize);
    }
    assert_eq!(from_result_i32(Ok(5)), 5);
    assert_eq!(from_result_i64(Ok(1 << 40)), 1 << 40);
}

#[test]
fn numbers_that_are_no_errors_become_einval() {
    assert_eq!(Error::from_errno(0).to_errno(), -22);
    assert_eq!(Error::from_errno(7).to_errno(), -22);
    assert_eq!(Error::from_errno(-4096).to_errno(), -22);
    assert_eq!(Error::from_errno(i32::MIN).to_errno(), -22);
}

#[test]
fn to_result_splits_at_zero() {
    assert_eq!(to_result(0), Ok(()));
    assert_eq!(to_result(3), Ok(()));
    assert_eq!(to_result(-5), Err(Error::of(EIO)));
    assert_eq!(to_result(-5000), Err(Error::of(EINVAL)));
}

#[test]
fn whence_numbers_round_trip() {
    let all = [
        (Whence::Start, 0),
        (Whence::Cur, 1),
        (Whence::End, 2),
        (Whence::Data, 3),
        (Whence::Hole, 4),
    ];
    for (w, n) in all {
        assert_eq!(w.number(), n);
        assert_eq!(Whence::try_from(n), Ok(w));
    }
    for n in [-1, 5, i32::MAX, i32::MIN] {
        assert_eq!(Whence::try_from(n), Err(Error::of(EDOM)));
    }
}

#[test]
fn entry_type_numbers_round_trip() {
    let all = [
        (DirEntryType::Unknown, 0),
        (DirEntryType::Fifo, 1),
        (DirEntryType::Chr, 2),
        (DirEntryType::Dir, 4),
        (DirEntryType::Blk, 6),
        (DirEntryType::Reg, 8),
        (DirEntryType::Lnk, 10),
        (DirEntryType::Sock, 12),
        (DirEntryType::Wht, 14),
    ];
    for (t, n) in all {
        assert_eq!(t.number(), n);
        assert_eq!(DirEntryType::try_from(n), Ok(t));
    }
    for n in [3, 5, 7, 9, 11, 13, 15, 16, u32::MAX] {
        assert_eq!(DirEntryType::try_from(n), Err(Error::of(EDOM)));
    }
}

#[test]
fn entry_type_comes_from_the_file_type_bits() {
    assert_eq!(DirEntryType::from_mode(mode::S_IFREG | 0o644), DirEntryType::Reg);
    assert_eq!(DirEntryType::from_mode(mode::S_IFDIR | 0o7777), DirEntryType::Dir);
    assert_eq!(DirEntryType::from_mode(mode::S_IFLNK | 0o777), DirEntryType::Lnk);
    assert_eq!(DirEntryType::from_mode(mode::S_IFIFO), DirEntryType::Fifo);
    assert_eq!(DirEntryType::from_mode(mode::S_IFCHR), DirEntryType::Chr);
    assert_eq!(DirEntryType::from_mode(mode::S_IFBLK), DirEntryType::Blk);
    assert_eq!(DirEntryType::from_mode(mode::S_IFSOCK), DirEntryType::Sock);
    assert_eq!(DirEntryType::from_mode(0o160000), DirEntryType::Wht);
    assert_eq!(DirEntryType::from_mode(0o644), DirEntryType::Unknown);
    assert_eq!(DirEntryType::from_mode(0o030000), DirEntryType::Unknown);
    assert_eq!(DirEntryType::from_mode(0xffff_0000 | mode::S_IFREG), DirEntryType::Reg);
}

#[test]
fn entry_type_of_an_inode_type_agrees_with_its_mode() {
    let all = [
        (Type::Fifo, mode::S_IFIFO),
        (Type::Chr(1, 3), mode::S_IFCHR),
        (Type::Dir, mode::S_IFDIR),
        (Type::Blk(8, 0), mode::S_IFBLK),
        (Type::Reg, mode::S_IFREG),
        (Type::Lnk(None), mode::S_IFLNK),
        (Type::Sock, mode::S_IFSOCK),
    ];
    for (typ, bits) in all {
        assert_eq!(DirEntryType::from(&typ), DirEntryType::from_mode(bits | 0o755));
    }
}

#[test]
fn access_mode_is_a_field() {
    let file = local_file(1, 1);
    assert_eq!(file.flags() & flags::O_ACCMODE, flags::O_RDWR);
    assert_ne!(file.flags() & flags::O_ACCMODE, flags::O_RDONLY);
    assert_eq!(flags::O_SYNC & flags::O_DSYNC, flags::O_DSYNC);
    assert_eq!(flags::O_TMPFILE & flags::O_DIRECTORY, flags::O_DIRECTORY);
    assert_eq!(flags::O_NDELAY, flags::O_NONBLOCK);
}

#[test]
fn a_file_shows_what_was_read_of_it() {
    let file = File::from_raw_file(local_file(5, 2));
    assert_eq!(file.as_ptr(), 0x1000);
    assert_eq!(file.inode().ino(), 5);
    assert_eq!(file.inode().blocks(), 8);
    assert_eq!(*file.inode().data(), 7);
    assert_eq!(file.dentry().addr, 0x2000);
    assert_eq!(file.parent_ino(), 2);
    assert_eq!(file.cred().addr, 0x3000);
    assert_eq!(file.inc_ref(), FileCall::GetFile(0x1000));
    assert_eq!(File::dec_ref(&file), FileCall::Fput(0x1000));
    let local = LocalFile::from_raw_file(local_file(5, 2));
    assert_eq!(local.inc_ref(), FileCall::GetFile(0x1000));
    assert_eq!(LocalFile::dec_ref(&local), FileCall::Fput(0x1000));
}

#[test]
fn a_descriptor_is_looked_up() {
    assert_eq!(LocalFile::<u8>::fget(3), DescriptorCall::Fget(3));
    assert!(matches!(LocalFile::<u8>::fget_result(0), Err(BadFdError)));
    match LocalFile::<u8>::fget_result(0x1000) {
        Ok(found) => {
            assert_eq!(found.addr, 0x1000);
            let shared = LocalFile::assume_no_fdget_pos(found, &local_file(9, 1));
            assert_eq!(shared.addr, 0x1000);
        }
        Err(_) => panic!("the descriptor has a file"),
    }
    assert_eq!(Error::from(BadFdError), Error::of(EBADF));
    assert_eq!(BadFdError.name(), "EBADF");
}

#[test]
fn a_reservation_ends_once() {
    assert_eq!(
        FileDescriptorReservation::get_unused_fd_flags(flags::O_CLOEXEC),
        DescriptorCall::GetUnusedFdFlags(0o2000000)
    );
    assert!(matches!(
        FileDescriptorReservation::from_unused_fd(-24),
        Err(e) if e.to_errno() == -24
    ));
    let Ok(reservation) = FileDescriptorReservation::from_unused_fd(4) else {
        panic!("4 is a descriptor");
    };
    assert_eq!(reservation.reserved_fd(), 4);
    let Ok(found) = LocalFile::<u8>::fget_result(0x1000) else {
        panic!("the descriptor has a file");
    };
    let file = LocalFile::assume_no_fdget_pos(found, &local_file(1, 1));
    assert_eq!(reservation.fd_install(file), FileCall::FdInstall { fd: 4, file: 0x1000 });
    let Ok(reservation) = FileDescriptorReservation::from_unused_fd(0) else {
        panic!("0 is a descriptor");
    };
    assert_eq!(reservation.drop(), FileCall::PutUnusedFd(0));
}

#[test]
fn the_generic_seek_is_asked_and_answered() {
    let file = File::from_raw_file(local_file(1, 1));
    assert_eq!(
        generic_seek(&file, -12, Whence::End),
        LlseekCall { file: 0x1000, offset: -12, whence: 2 }
    );
    assert_eq!(generic_seek_result(0), Ok(0));
    assert_eq!(generic_seek_result(1 << 50), Ok(1 << 50));
    assert_eq!(generic_seek_result(-22), Err(Error::of(EINVAL)));
    assert_eq!(generic_seek_result(-5), Err(Error::of(EIO)));
    assert_eq!(generic_seek_result(-5000), Err(Error::of(EINVAL)));
    assert_eq!(generic_seek_result(i64::MIN), Err(Error::of(EINVAL)));
    for n in [0, 1, i64::MAX, -1, -4095] {
        assert_eq!(seek_callback_result(n), n);
    }
    assert_eq!(seek_callback_result(-4096), -22);
}

#[test]
fn byte_counts_are_handed_out() {
    assert_eq!(return_count(Ok(10)), 10);
    assert_eq!(return_count(Ok(usize::MAX)), -22);
    assert_eq!(return_count(Err(Error::of(EIO))), -5);
}

#[test]
fn an_entry_is_handed_to_the_actor() {
    let mut emitter = DirEmitter { pos: 10, has_actor: true };
    let Some(call) = emitter.emit(3, b"name", 42, DirEntryType::Lnk) else {
        panic!("there is an actor");
    };
    assert_eq!(call.name, b"name".to_vec());
    assert_eq!((call.name_len, call.pos, call.ino, call.dtype), (4, 10, 42, 10));
    assert!(!emitter.complete(&call, false));
    assert_eq!(emitter.pos(), 10);
    assert!(emitter.complete(&call, true));
    assert_eq!(emitter.pos(), 13);
}

#[test]
fn an_entry_that_cannot_be_handed_over_is_refused() {
    let without = DirEmitter { pos: 0, has_actor: false };
    assert!(without.emit(1, b"a", 1, DirEntryType::Reg).is_none());
    let at_end = DirEmitter { pos: i64::MAX, has_actor: true };
    assert!(at_end.emit(1, b"a", 1, DirEntryType::Reg).is_none());
    assert!(at_end.emit(0, b"a", 1, DirEntryType::Reg).is_some());
}

#[test]
fn the_dots_come_in_turn() {
    let file = File::from_raw_file(local_file(5, 2));
    let mut emitter = DirEmitter { pos: 0, has_actor: true };
    let DotsStep::Call(call) = emitter.emit_dots(&file) else {
        panic!("the entry for the directory itself is due");
    };
    assert_eq!((call.name.as_slice(), call.ino, call.dtype), (&b"."[..], 5, 4));
    let DotsStep::Call(call) = emitter.dots_answered(&file, &call, true) else {
        panic!("the entry for the parent is due");
    };
    assert_eq!((call.name.as_slice(), call.ino, call.dtype), (&b".."[..], 2, 4));
    assert!(matches!(emitter.dots_answered(&file, &call, true), DotsStep::Return(true)));
    assert_eq!(emitter.pos(), 2);
    assert!(matches!(emitter.emit_dots(&file), DotsStep::Return(true)));
    let without = DirEmitter { pos: 1, has_actor: false };
    assert!(matches!(without.emit_dots(&file), DotsStep::Return(false)));
    let elsewhere = DirEmitter { pos: -7, has_actor: false };
    assert!(matches!(elsewhere.emit_dots(&file), DotsStep::Return(true)));
}

#[test]
fn dots_that_are_not_taken_end_the_listing_of_them() {
    let file = File::from_raw_file(local_file(5, 2));
    for pos in [0, 1] {
        let mut emitter = DirEmitter { pos, has_actor: true };
        let DotsStep::Call(call) = emitter.emit_dots(&file) else {
            panic!("an entry is due");
        };
        assert!(matches!(emitter.dots_answered(&file, &call, false), DotsStep::Return(false)));
        assert_eq!(emitter, DirEmitter { pos, has_actor: true });
    }
}

#[test]
fn the_parent_is_that_of_the_moment() {
    let mut emitter = DirEmitter { pos: 0, has_actor: true };
    let DotsStep::Call(call) = emitter.emit_dots(&File::from_raw_file(local_file(5, 2))) else {
        panic!("the entry for the directory itself is due");
    };
    let moved = File::from_raw_file(local_file(5, 8));
    let DotsStep::Call(call) = emitter.dots_answered(&moved, &call, true) else {
        panic!("the entry for the parent is due");
    };
    assert_eq!(call.ino, 8);
}

#[test]
fn read_only_files_have_the_generic_table() {
    assert_eq!(Ops::<u8>::generic_ro_file().inner, OpsTable::GenericRo);
}
