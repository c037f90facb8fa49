//! Flags of an open file.
//!
//! The access mode is a field of two bits and is compared under [`O_ACCMODE`]: a file is read-only
//! if and only if `flags & O_ACCMODE == O_RDONLY`.
//!
//! The values are Linux's generic ones, which hold on x86, RISC-V, LoongArch and s390. Other
//! architectures number some of the flags differently: Arm, for one, [`O_DIRECT`],
//! [`O_DIRECTORY`], [`O_LARGEFILE`], [`O_NOFOLLOW`] and with them [`O_TMPFILE`].
use vstd::prelude::*;

verus! {

/// File is opened in append mode.
pub const O_APPEND: u32 = 0o2000;

/// Signal-driven I/O is enabled.
pub const O_ASYNC: u32 = 0o20000;

/// Close-on-exec flag is set.
pub const O_CLOEXEC: u32 = 0o2000000;

/// File was created if it didn't already exist.
pub const O_CREAT: u32 = 0o100;

/// Direct I/O is enabled for this file.
pub const O_DIRECT: u32 = 0o40000;

/// File must be a directory.
pub const O_DIRECTORY: u32 = 0o200000;

/// Like [`O_SYNC`] except metadata is not synced.
pub const O_DSYNC: u32 = 0o10000;

/// The opening call must create the file.
pub const O_EXCL: u32 = 0o200;

/// Large file size enabled.
pub const O_LARGEFILE: u32 = 0o100000;

/// Do not update the file last access time.
pub const O_NOATIME: u32 = 0o1000000;

/// File should not be used as process's controlling terminal.
pub const O_NOCTTY: u32 = 0o400;

/// If basename of path is a symbolic link, fail open.
pub const O_NOFOLLOW: u32 = 0o400000;

/// File is using nonblocking I/O.
pub const O_NONBLOCK: u32 = 0o4000;

/// File is using nonblocking I/O.
///
/// This is effectively the same flag as [`O_NONBLOCK`] on all architectures except SPARC64, where
/// the value given here does not hold.
pub const O_NDELAY: u32 = 0o4000;

/// Used to obtain a path file descriptor.
pub const O_PATH: u32 = 0o10000000;

/// Write operations on this file will flush data and metadata.
pub const O_SYNC: u32 = 0o4010000;

/// This file is an unnamed temporary regular file.
pub const O_TMPFILE: u32 = 0o20200000;

/// File should be truncated to length 0.
pub const O_TRUNC: u32 = 0o1000;

/// Bitmask for access mode flags.
pub const O_ACCMODE: u32 = 0o3;

/// File is read only.
pub const O_RDONLY: u32 = 0o0;

/// File is write only.
pub const O_WRONLY: u32 = 0o1;

/// File can be both read and written.
pub const O_RDWR: u32 = 0o2;

} // verus!
