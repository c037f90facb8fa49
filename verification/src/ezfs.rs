//! A small file system on a block device.
//!
//! The device holds a superblock, a store of inodes and, for each directory, a block of directory
//! entries. How large these are and where they stand is a [`layout::Layout`].
pub mod fetch;
pub mod iget;
pub mod laws;
pub mod layout;
pub mod listing;
pub mod listing_results;
pub mod lookup;
pub mod map;
pub mod mount;
pub mod range_results;
pub mod read_dir;
pub mod record;
pub mod results;

use core::marker::PhantomData;
use vstd::prelude::*;

use crate::ezfs::layout::Layout;
use crate::ezfs::record::EzfsInode;
use crate::fs::file::ops::{dir_table, file_table, Ops, OpsTable};

verus! {

/// The file system type.
pub struct RustEzFs {
    layout: Layout,
    file_fops: Ops<EzfsInode>,
    dir_fops: Ops<EzfsInode>,
}

impl RustEzFs {
    /// The layout of the device.
    pub closed spec fn layout(&self) -> Layout {
        self.layout
    }

    #[verifier::type_invariant]
    spec fn inv(self) -> bool {
        &&& self.layout.wf()
        &&& self.file_fops.inner == OpsTable::Table(file_table(true, false))
        &&& self.dir_fops.inner == OpsTable::Table(dir_table(true))
    }

    /// The file system type for devices with the given layout.
    pub fn new(layout: Layout) -> (r: Self)
        requires
            layout.wf(),
        ensures
            r.layout() == layout,
    {
        RustEzFs {
            layout,
            file_fops: Ops::new_file::<RustEzFs>(),
            dir_fops: Ops::new_dir::<RustEzFs>(),
        }
    }

    /// The layout of the device.
    pub(crate) fn get_layout(&self) -> (r: &Layout)
        ensures
            *r == self.layout(),
            r.wf(),
    {
        proof {
            use_type_invariant(self);
        }
        &self.layout
    }

    /// The operations of regular files.
    pub fn file_fops(&self) -> (r: Ops<EzfsInode>)
        ensures
            r.inner == OpsTable::Table(file_table(true, false)),
    {
        proof {
            use_type_invariant(self);
        }
        Ops { inner: self.file_fops.inner, phantom: PhantomData }
    }

    /// The operations of directories.
    pub fn dir_fops(&self) -> (r: Ops<EzfsInode>)
        ensures
            r.inner == OpsTable::Table(dir_table(true)),
    {
        proof {
            use_type_invariant(self);
        }
        Ops { inner: self.dir_fops.inner, phantom: PhantomData }
    }
}

} // verus!
