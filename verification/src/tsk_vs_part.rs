use vstd::prelude::*;
use vstd::arithmetic::mul::{lemma_mul_inequality, lemma_mul_is_distributive_add_other_way};
use crate::errors::{ErrorType, TskError};
use crate::tsk_vs::TskVs;
use crate::tsk_vs_part_handle::TskVsPartHandle;

verus! {

/// One partition table entry as the engine reports it: its slot address, its
/// start block, its length in blocks, the engine's description string and the
/// raw flag word.
#[derive(Debug)]
pub struct PartEntry {
    pub addr: u64,
    pub start: u64,
    pub len: u64,
    pub desc: String,
    pub flags: u32,
}

/// A view of one entry of a volume system's partition list. It carries no
/// resource of its own: only a back-reference to the volume system and the
/// entry's position.
#[derive(Debug)]
pub struct TskVsPart<'vs> {
    pub(crate) tsk_vs: &'vs TskVs<'vs>,
    pub(crate) index: usize,
}

impl<'vs> TskVsPart<'vs> {
    #[verifier::type_invariant]
    pub open(crate) spec fn wf(self) -> bool {
        self.index < self.tsk_vs.spec_parts().len()
    }

    /// The volume system this partition belongs to.
    pub open(crate) spec fn spec_vs(self) -> TskVs<'vs> {
        *self.tsk_vs
    }

    /// The position of this partition in the volume system's list.
    pub open(crate) spec fn spec_index(self) -> int {
        self.index as int
    }

    /// The entry this partition is a view of.
    pub open spec fn spec_entry(self) -> PartEntry {
        self.spec_vs().spec_parts()[self.spec_index()]
    }

    /// The partition's byte size: its length in blocks times the volume
    /// system's block size.
    pub open spec fn spec_size(self) -> int {
        self.spec_entry().len * self.spec_vs().spec_block_size()
    }

    /// The image byte at which the partition starts.
    pub open spec fn spec_start_byte(self) -> int {
        self.spec_entry().start * self.spec_vs().spec_block_size()
    }

    /// What looking a partition up by index returns: the view at that index,
    /// or an engine error when the index is past the end of the list.
    pub open spec fn lookup_outcome(vs: TskVs<'vs>, index: u64, r: Result<TskVsPart<'vs>, TskError>) -> bool {
        match r {
            Ok(p) => {
                &&& p.spec_vs() == vs
                &&& p.spec_index() == index as int
                &&& (index as int) < vs.spec_parts().len()
            },
            Err(e) => e.kind == ErrorType::LibTskError && index as int >= vs.spec_parts().len(),
        }
    }

    /// Create a partition view given the TskVs and the index of the entry.
    pub fn new(tsk_vs: &'vs TskVs<'vs>, index: u64) -> (r: Result<TskVsPart<'vs>, TskError>)
        ensures
            Self::lookup_outcome(*tsk_vs, index, r),
    {
        let count = tsk_vs.part_count();
        if index < count as u64 {
            Ok(TskVsPart { tsk_vs, index: index as usize })
        } else {
            Err(TskError::lib_tsk_error(
                "there was an error getting the partition: the index is past the end of the partition list".to_owned(),
            ))
        }
    }

    /// Get the length in blocks of this partition
    pub fn len(&self) -> (r: u64)
        ensures
            r == self.spec_entry().len,
    {
        proof {
            use_type_invariant(self);
        }
        self.tsk_vs.part_ref(self.index).len
    }

    /// Get the byte size of the partition: blocks times the volume system's
    /// block size.
    pub fn size(&self) -> (r: u64)
        ensures
            r == self.spec_size(),
    {
        proof {
            use_type_invariant(self);
            use_type_invariant(&*self.tsk_vs);
        }
        let e = self.tsk_vs.part_ref(self.index);
        let bs = self.tsk_vs.block_size() as u64;
        proof {
            lemma_mul_inequality(
                e.len as int,
                e.start + e.len,
                self.tsk_vs.spec_block_size() as int,
            );
        }
        e.len * bs
    }

    /// The image byte at which the partition starts.
    pub(crate) fn start_byte(&self) -> (r: u64)
        ensures
            r == self.spec_start_byte(),
    {
        proof {
            use_type_invariant(self);
            use_type_invariant(&*self.tsk_vs);
        }
        let e = self.tsk_vs.part_ref(self.index);
        let bs = self.tsk_vs.block_size() as u64;
        proof {
            lemma_mul_inequality(
                e.start as int,
                e.start + e.len,
                self.tsk_vs.spec_block_size() as int,
            );
        }
        e.start * bs
    }

    /// Law: when a partition entry's whole byte range fits `u64` — which
    /// every entry of an opened volume system satisfies — its start byte and
    /// byte size never wrap: `start * bs + len * bs` stays within `u64`.
    pub proof fn lemma_byte_range_fits(e: PartEntry, bs: u32)
        requires
            (e.start + e.len) * bs <= u64::MAX,
        ensures
            0 <= e.start * bs,
            e.start * bs + e.len * bs <= u64::MAX,
    {
        lemma_mul_is_distributive_add_other_way(bs as int, e.start as int, e.len as int);
        vstd::arithmetic::mul::lemma_mul_nonnegative(e.start as int, bs as int);
    }

    /// Get the description string
    pub fn desc(&self) -> (r: String)
        ensures
            r@ == self.spec_entry().desc@,
    {
        proof {
            use_type_invariant(self);
        }
        self.tsk_vs.part_ref(self.index).desc.clone()
    }

    /// Get an IO handle to the partition
    pub fn get_handle<'p>(&'p self) -> (r: TskVsPartHandle<'p>)
        ensures
            r.spec_part() == *self,
            r.spec_offset() == 0,
    {
        TskVsPartHandle::new(self)
    }

    /// Get an iterator over the rest of the partition list, starting at this
    /// partition.
    pub fn into_iter(self) -> (r: TskVsPartIterator<'vs>)
        ensures
            r.spec_vs() == self.spec_vs(),
            r.spec_index() == self.spec_index(),
    {
        TskVsPartIterator { tsk_vs: self.tsk_vs, index: self.index }
    }
}

/// An iterator over a volume system's partition list, following the engine's
/// forward-only chain: each step yields the current entry and moves to the
/// next, until the end of the list.
#[derive(Debug)]
pub struct TskVsPartIterator<'vs> {
    pub(crate) tsk_vs: &'vs TskVs<'vs>,
    pub(crate) index: usize,
}

/// What is left of a partition iterator: the entries it has not yielded yet,
/// those between its position and the end of the list.
pub open spec fn parts_remaining<'vs>(it: TskVsPartIterator<'vs>) -> nat {
    let len = it.spec_vs().spec_parts().len();
    if it.spec_index() >= len {
        0
    } else {
        (len - it.spec_index()) as nat
    }
}

impl<'vs> TskVsPartIterator<'vs> {
    /// The volume system whose list is being walked.
    pub open(crate) spec fn spec_vs(self) -> TskVs<'vs> {
        *self.tsk_vs
    }

    /// The position of the next entry to yield.
    pub open(crate) spec fn spec_index(self) -> int {
        self.index as int
    }

    /// Yield the partition at the current position and advance by one; `None`
    /// exactly when the chain has ended. Entries come back in list order, one
    /// each — every yield lowers the remainder by exactly one and `None`
    /// comes exactly at remainder zero — so a walk from the head yields
    /// exactly the entries reachable before the end of the list, start
    /// partition first.
    pub fn next(&mut self) -> (r: Option<TskVsPart<'vs>>)
        ensures
            final(self).spec_vs() == old(self).spec_vs(),
            match r {
                Some(p) => {
                    &&& old(self).spec_index() < old(self).spec_vs().spec_parts().len()
                    &&& p.spec_vs() == old(self).spec_vs()
                    &&& p.spec_index() == old(self).spec_index()
                    &&& final(self).spec_index() == old(self).spec_index() + 1
                    &&& parts_remaining(*final(self)) + 1 == parts_remaining(*old(self))
                },
                None => {
                    &&& old(self).spec_index() >= old(self).spec_vs().spec_parts().len()
                    &&& final(self).spec_index() == old(self).spec_index()
                    &&& parts_remaining(*old(self)) == 0
                },
            },
    {
        let count = self.tsk_vs.part_count();
        if self.index < count {
            let current = TskVsPart { tsk_vs: self.tsk_vs, index: self.index };
            self.index = self.index + 1;
            Some(current)
        } else {
            None
        }
    }
}

} // verus!
