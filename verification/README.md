# rustezfs

The core of a small block-device file system, and of the file layer that it plugs into, verified
with Verus.

The library decides; it performs no I/O. An operation that needs something from outside (a folio of
the device, an inode of the inode cache, the actor that takes directory entries) is a step function:
it takes where the operation stands and what has happened, and returns what is to be done next. A
request names the device or the superblock that it is for. Each step function has a contract that
says exactly which step it takes, and the laws beside them say what the steps add up to.

What was read from outside is not kept from one use to the next. What an operation has mapped of
the device belongs to that operation, and the next one maps anew; an open file is read anew for each
use, and only handles to it are kept.

- `src/error.rs`: error numbers and results.
- `src/fs.rs`, `src/fs/`: file system types, their registration (`registration.rs`), mounting
  (`tables.rs`), and laws about them (`laws.rs`).
- `src/fs/file.rs`, `src/fs/file/`: open files and file descriptors, the tables of file operations
  (`ops.rs`), their callbacks (`callback.rs`), and directory entries on their way to a reader
  (`dir.rs`).
- `src/ezfs.rs`, `src/ezfs/`: the file system itself: mounting (`mount.rs`), reading inodes
  (`iget.rs`), looking names up (`lookup.rs`), listing directories (`read_dir.rs`, `listing.rs`),
  mapping file ranges to the device (`map.rs`), and laws about them (`laws.rs`).
- `src/inode.rs`, `src/sb.rs`, `src/mapper.rs`, `src/iomap.rs`: the values that the operations read
  and fill.
- `app/`: the callbacks that the kernel calls. They make the calls that the library asks for.
- `tests/`: the operations on concrete devices.
