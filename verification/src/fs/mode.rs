//! The file type bits of a file mode.
use vstd::prelude::*;

verus! {

/// The bits of a mode that hold the file type.
pub const S_IFMT: u32 = 0o170000;

/// File type of block devices.
pub const S_IFBLK: u32 = 0o060000;

/// File type of character devices.
pub const S_IFCHR: u32 = 0o020000;

/// File type of directories.
pub const S_IFDIR: u32 = 0o040000;

/// File type of pipes.
pub const S_IFIFO: u32 = 0o010000;

/// File type of symbolic links.
pub const S_IFLNK: u32 = 0o120000;

/// File type of regular files.
pub const S_IFREG: u32 = 0o100000;

/// File type of sockets.
pub const S_IFSOCK: u32 = 0o140000;

/// How far the file type of a mode stands to the left of the type of a directory entry.
pub const S_DT_SHIFT: u32 = 12;

} // verus!
