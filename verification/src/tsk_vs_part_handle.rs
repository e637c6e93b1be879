use vstd::prelude::*;
use crate::errors::{ErrorType, TskError};
use crate::stream::{fill_prefix, read_amount, seek_outcome, seek_target, SeekFrom};
use crate::tsk_vs_part::TskVsPart;

verus! {

/// A bounded read/seek stream over one partition's byte range. It holds only
/// an integer cursor, no resource of its own.
#[derive(Debug)]
pub struct TskVsPartHandle<'p> {
    pub(crate) tsk_vs_part: &'p TskVsPart<'p>,
    pub(crate) offset_: u64,
}

impl<'p> TskVsPartHandle<'p> {
    #[verifier::type_invariant]
    pub open(crate) spec fn wf(self) -> bool {
        &&& self.tsk_vs_part.spec_index() < self.tsk_vs_part.spec_vs().spec_parts().len()
        &&& 0 <= self.offset_ <= self.tsk_vs_part.spec_size()
    }

    /// The partition this handle reads from.
    pub open(crate) spec fn spec_part(self) -> TskVsPart<'p> {
        *self.tsk_vs_part
    }

    /// The cursor: the next byte of the partition a read would hand back.
    pub open(crate) spec fn spec_offset(self) -> int {
        self.offset_ as int
    }

    /// Create a handle over a partition, with the cursor at the start.
    pub fn new(tsk_vs_part: &'p TskVsPart<'p>) -> (r: Self)
        ensures
            r.spec_part() == *tsk_vs_part,
            r.spec_offset() == 0,
    {
        proof {
            use_type_invariant(tsk_vs_part);
            vstd::arithmetic::mul::lemma_mul_nonnegative(
                tsk_vs_part.spec_entry().len as int,
                tsk_vs_part.spec_vs().spec_block_size() as int,
            );
        }
        Self { tsk_vs_part, offset_: 0 }
    }

    /// Move the cursor as the request asks, exactly as `seek_outcome` says
    /// over the partition's byte size: out-of-range requests fail with a
    /// `SeekRange` error and leave the cursor where it was.
    pub fn seek(&mut self, pos: SeekFrom) -> (r: Result<u64, TskError>)
        ensures
            final(self).spec_part() == old(self).spec_part(),
            match r {
                Ok(n) => {
                    &&& seek_outcome(old(self).spec_part().spec_size(), old(self).spec_offset(), pos)
                        == Some(n as int)
                    &&& final(self).spec_offset() == n as int
                },
                Err(e) => {
                    &&& seek_outcome(old(self).spec_part().spec_size(), old(self).spec_offset(), pos)
                        is None
                    &&& e.kind == ErrorType::SeekRange
                    &&& final(self).spec_offset() == old(self).spec_offset()
                },
            },
    {
        proof {
            use_type_invariant(&*self);
        }
        let size = self.tsk_vs_part.size();
        match seek_target(size, self.offset_, pos) {
            Ok(n) => {
                self.offset_ = n;
                Ok(n)
            },
            Err(e) => Err(e),
        }
    }

    /// Read into the front of `buf` from the cursor onward: up to `buf.len()`
    /// bytes, clamped at the end of the partition, taken from the image bytes
    /// at the partition's start byte plus the cursor. A cursor at the end
    /// hands back zero bytes. When the wanted range runs past the end of the
    /// image bytes the read fails with an engine error and moves nothing.
    pub fn read(&mut self, buf: &mut Vec<u8>) -> (r: Result<usize, TskError>)
        ensures
            final(self).spec_part() == old(self).spec_part(),
            final(buf)@.len() == old(buf)@.len(),
            ({
                let part = old(self).spec_part();
                let size = part.spec_size();
                let cur = old(self).spec_offset();
                let m = read_amount(size, cur, old(buf)@.len() as int);
                let abs = part.spec_start_byte() + cur;
                let img = part.spec_vs().spec_img().spec_data();
                match r {
                    Ok(n) => {
                        &&& n == m
                        &&& final(self).spec_offset() == cur + m
                        &&& m == 0 ==> final(buf)@ == old(buf)@
                        &&& m > 0 ==> abs + m <= img.len() && final(buf)@ == img.subrange(
                            abs,
                            abs + m,
                        ) + old(buf)@.skip(m)
                    },
                    Err(e) => {
                        &&& e.kind == ErrorType::LibTskError
                        &&& m > 0 && abs + m > img.len()
                        &&& final(buf)@ == old(buf)@
                        &&& final(self).spec_offset() == cur
                    },
                }
            }),
    {
        proof {
            use_type_invariant(&*self);
            use_type_invariant(&*self.tsk_vs_part);
            use_type_invariant(&*self.tsk_vs_part.tsk_vs);
        }
        let size = self.tsk_vs_part.size();
        let remaining: u64 = size - self.offset_;
        let buf_len: u64 = buf.len() as u64;
        let want: u64 = if buf_len <= remaining {
            buf_len
        } else {
            remaining
        };
        if want == 0 {
            return Ok(0);
        }
        let start_byte = self.tsk_vs_part.start_byte();
        proof {
            TskVsPart::lemma_byte_range_fits(
                self.tsk_vs_part.spec_entry(),
                self.tsk_vs_part.spec_vs().spec_block_size(),
            );
        }
        let abs: u64 = start_byte + self.offset_;
        let data = self.tsk_vs_part.tsk_vs.tsk_img.data_ref();
        let data_len: u64 = data.len() as u64;
        if abs > data_len || want > data_len - abs {
            return Err(TskError::lib_tsk_error(
                "there was an error reading the partition: the wanted range runs past the end of the image".to_owned(),
            ));
        }
        fill_prefix(buf, data, abs as usize, want as usize);
        self.offset_ = self.offset_ + want;
        proof {
            let part = old(self).spec_part();
            let m = read_amount(part.spec_size(), old(self).spec_offset(), old(buf)@.len() as int);
            let sabs = part.spec_start_byte() + old(self).spec_offset();
            let img = part.spec_vs().spec_img().spec_data();
            assert(buf@ =~= img.subrange(sabs, sabs + m) + old(buf)@.skip(m));
        }
        Ok(want as usize)
    }
}

} // verus!
