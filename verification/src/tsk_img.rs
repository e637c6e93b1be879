use vstd::prelude::*;
use crate::errors::TskError;
use crate::tsk_fs::{FsLayout, TskFs};
use crate::tsk_vs::{TskVs, VsLayout};

verus! {

/// Everything the parsing engine reports about one image: the volume systems
/// and file systems it recognises, each keyed by the byte offset at which it
/// was opened. Lookups take the first entry with a matching offset.
#[derive(Debug)]
pub struct Catalog {
    pub volume_systems: Vec<(u64, VsLayout)>,
    pub file_systems: Vec<(u64, FsLayout)>,
}

/// The root of the resource chain: the image's raw bytes together with the
/// engine's catalog of what was parsed out of them. Every other resource is
/// opened from an image and borrows it, so no child can outlive it.
#[derive(Debug)]
pub struct TskImg {
    pub(crate) data: Vec<u8>,
    pub(crate) catalog: Catalog,
}

impl TskImg {
    /// The image's raw bytes.
    pub open(crate) spec fn spec_data(self) -> Seq<u8> {
        self.data@
    }

    /// The engine's parsed catalog for this image.
    pub open(crate) spec fn spec_catalog(self) -> Catalog {
        self.catalog
    }

    /// Create a TskImg from the image's raw bytes and the engine's catalog.
    pub fn from_parts(data: Vec<u8>, catalog: Catalog) -> (r: TskImg)
        ensures
            r.spec_data() == data@,
            r.spec_catalog() == catalog,
    {
        TskImg { data, catalog }
    }

    pub(crate) fn data_ref(&self) -> (r: &Vec<u8>)
        ensures
            r@ == self.spec_data(),
    {
        &self.data
    }

    /// Get a TskVs at a given offset
    pub fn get_vs_from_offset<'img>(&'img self, offset: u64) -> (r: Result<TskVs<'img>, TskError>)
        ensures
            TskVs::open_outcome(*self, offset, r),
    {
        TskVs::new(self, offset)
    }

    /// Get a TskFs at a given offset
    pub fn get_fs_from_offset<'img>(&'img self, offset: u64) -> (r: Result<TskFs<'img>, TskError>)
        ensures
            TskFs::open_outcome(*self, offset, r),
    {
        TskFs::from_fs_offset(self, offset)
    }
}

} // verus!
