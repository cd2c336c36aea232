//! Filesystems and their files.
use vstd::prelude::*;

verus! {

/// Filesystem
///
/// `'fs` is the lifetime of the filesystem, and is used by implementations of
/// the `File` trait to hold a reference to the parent filesystem.
pub trait Filesystem<'fs, F: File<'fs>> {
    fn open(&'fs mut self, filename: &str) -> Result<F, ()>;
}

/// A file of a filesystem.
pub trait File<'fs> {
    fn read(&self, buffer: &mut [u8], offset: usize);
}

} // verus!
