//! Verified core of a small block-device file system and of the file layer it plugs into.
pub mod error;
pub mod ezfs;
pub mod fs;
pub mod inode;
pub mod iomap;
pub mod mapper;
pub mod sb;
