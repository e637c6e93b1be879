use vstd::prelude::*;
use crate::errors::{ErrorType, TskError};
use crate::tsk_img::TskImg;
use crate::tsk_vs_part::{PartEntry, TskVsPart, TskVsPartIterator};

verus! {

/// The engine's parsed view of one volume system: the block size its table
/// speaks in, and the partition entries in the order the engine's forward
/// list yields them.
#[derive(Debug)]
pub struct VsLayout {
    pub block_size: u32,
    pub parts: Vec<PartEntry>,
}

/// Every partition's byte range, `start * block_size` for `len * block_size`
/// bytes, can be computed without leaving `u64`.
pub open spec fn vs_parts_fit(layout: VsLayout) -> bool {
    forall|i: int|
        0 <= i < layout.parts@.len() ==> ((#[trigger] layout.parts@[i]).start
            + layout.parts@[i].len) * layout.block_size <= u64::MAX
}

/// The catalog entry an open at `offset` resolves to: the first whose
/// recorded offset matches.
pub open spec fn vs_entry_at(entries: Seq<(u64, VsLayout)>, offset: u64, i: int) -> bool {
    &&& 0 <= i < entries.len()
    &&& entries[i].0 == offset
    &&& forall|j: int| 0 <= j < i ==> entries[j].0 != offset
}

/// A volume system opened from an image at a byte offset. Borrows the image,
/// so it can never outlive it.
#[derive(Debug)]
pub struct TskVs<'img> {
    pub(crate) tsk_img: &'img TskImg,
    pub(crate) vs_index: usize,
}

impl<'img> TskVs<'img> {
    #[verifier::type_invariant]
    pub open(crate) spec fn wf(self) -> bool {
        &&& self.vs_index < self.tsk_img.spec_catalog().volume_systems@.len()
        &&& vs_parts_fit(self.spec_layout())
    }

    /// The image this volume system was opened from.
    pub open(crate) spec fn spec_img(self) -> TskImg {
        *self.tsk_img
    }

    /// The catalog index this volume system resolved to.
    pub open(crate) spec fn spec_vs_index(self) -> int {
        self.vs_index as int
    }

    /// The layout the engine reported for this volume system.
    pub open(crate) spec fn spec_layout(self) -> VsLayout {
        self.tsk_img.spec_catalog().volume_systems@[self.vs_index as int].1
    }

    /// The block size the partition table speaks in.
    pub open spec fn spec_block_size(self) -> u32 {
        self.spec_layout().block_size
    }

    /// The partition entries, in list order.
    pub open spec fn spec_parts(self) -> Seq<PartEntry> {
        self.spec_layout().parts@
    }

    /// What opening a volume system at `offset` in `img` returns: the first
    /// catalog entry at that offset, or an engine error when there is none,
    /// or a validation error when an entry's byte range does not fit `u64`.
    pub open spec fn open_outcome(img: TskImg, offset: u64, r: Result<TskVs<'img>, TskError>) -> bool {
        let entries = img.spec_catalog().volume_systems@;
        match r {
            Ok(vs) => {
                &&& vs.spec_img() == img
                &&& vs_entry_at(entries, offset, vs.spec_vs_index())
                &&& vs_parts_fit(vs.spec_layout())
            },
            Err(e) => match e.kind {
                ErrorType::LibTskError => forall|i: int|
                    0 <= i < entries.len() ==> (#[trigger] entries[i]).0 != offset,
                ErrorType::Generic => exists|i: int|
                    vs_entry_at(entries, offset, i) && !vs_parts_fit(entries[i].1),
                _ => false,
            },
        }
    }

    /// Create a volume system wrapper given the TskImg and the byte offset of
    /// the partition table inside it.
    pub fn new(tsk_img: &'img TskImg, offset: u64) -> (r: Result<TskVs<'img>, TskError>)
        ensures
            Self::open_outcome(*tsk_img, offset, r),
    {
        let entries = &tsk_img.catalog.volume_systems;
        let idx: usize = match Self::find_entry(entries, offset) {
            Some(i) => i,
            None => {
                return Err(TskError::lib_tsk_error(
                    "there was an error opening the volume system handle: no volume system at the given offset".to_owned(),
                ));
            },
        };
        let layout = &entries[idx].1;
        let bs = layout.block_size;
        let m = layout.parts.len();
        let mut i: usize = 0;
        while i < m
            invariant
                entries@ == tsk_img.spec_catalog().volume_systems@,
                vs_entry_at(entries@, offset, idx as int),
                *layout == entries@[idx as int].1,
                bs == layout.block_size,
                i <= m == layout.parts@.len(),
                forall|j: int|
                    0 <= j < i ==> ((#[trigger] layout.parts@[j]).start + layout.parts@[j].len)
                        * layout.block_size <= u64::MAX,
            decreases m - i,
        {
            let p = &layout.parts[i];
            proof {
                assert((p.start as int + p.len as int) * (bs as int) <= u128::MAX) by (nonlinear_arith)
                    requires
                        p.start as int <= u64::MAX as int,
                        p.len as int <= u64::MAX as int,
                        bs as int <= u32::MAX as int,
                {}
            }
            let range_end: u128 = (p.start as u128 + p.len as u128) * bs as u128;
            if range_end > u64::MAX as u128 {
                proof {
                    let lay = entries@[idx as int].1;
                    assert(lay == *layout);
                    assert((lay.parts@[i as int].start + lay.parts@[i as int].len)
                        * lay.block_size > u64::MAX);
                    assert(!vs_parts_fit(lay));
                    assert(vs_entry_at(entries@, offset, idx as int) && !vs_parts_fit(
                        entries@[idx as int].1,
                    ));
                }
                return Err(TskError::generic(
                    "a partition table entry's byte range does not fit the address space".to_owned(),
                ));
            }
            i = i + 1;
        }
        Ok(TskVs { tsk_img, vs_index: idx })
    }

    /// Index of the first catalog entry recorded at `offset`, if any.
    fn find_entry(entries: &Vec<(u64, VsLayout)>, offset: u64) -> (r: Option<usize>)
        ensures
            match r {
                Some(i) => vs_entry_at(entries@, offset, i as int),
                None => forall|i: int|
                    0 <= i < entries@.len() ==> (#[trigger] entries@[i]).0 != offset,
            },
    {
        let n = entries.len();
        let mut idx: usize = 0;
        while idx < n
            invariant
                idx <= n == entries@.len(),
                forall|j: int| 0 <= j < idx ==> (#[trigger] entries@[j]).0 != offset,
            decreases n - idx,
        {
            if entries[idx].0 == offset {
                return Some(idx);
            }
            idx = idx + 1;
        }
        None
    }

    /// Get a specific TskVsPart at the given index
    pub fn get_partition_at_index<'vs>(&'vs self, index: u64) -> (r: Result<
        TskVsPart<'vs>,
        TskError,
    >)
        ensures
            TskVsPart::lookup_outcome(*self, index, r),
    {
        TskVsPart::new(self, index)
    }

    /// Get a partition iterator that yields TskVsPart structs, starting from
    /// the head of the partition list. It never fails; the `Result` mirrors
    /// the shape of the other open calls.
    pub fn get_partition_iter<'vs>(&'vs self) -> (r: Result<TskVsPartIterator<'vs>, TskError>)
        ensures
            r matches Ok(it) && it.spec_vs() == *self && it.spec_index() == 0,
    {
        Ok(TskVsPartIterator { tsk_vs: self, index: 0 })
    }

    pub(crate) fn block_size(&self) -> (r: u32)
        ensures
            r == self.spec_block_size(),
    {
        proof {
            use_type_invariant(self);
        }
        self.tsk_img.catalog.volume_systems[self.vs_index].1.block_size
    }

    pub(crate) fn part_count(&self) -> (r: usize)
        ensures
            r == self.spec_parts().len(),
    {
        proof {
            use_type_invariant(self);
        }
        self.tsk_img.catalog.volume_systems[self.vs_index].1.parts.len()
    }

    pub(crate) fn part_ref(&self, i: usize) -> (r: &PartEntry)
        requires
            i < self.spec_parts().len(),
        ensures
            *r == self.spec_parts()[i as int],
    {
        proof {
            use_type_invariant(self);
        }
        &self.tsk_img.catalog.volume_systems[self.vs_index].1.parts[i]
    }
}

} // verus!
