use vstd::prelude::*;
use crate::errors::{ErrorType, TskError};
use crate::stream::{fill_prefix, seek_outcome, seek_target, SeekFrom};
use crate::tsk_fs_attr::{AttrRecord, TskFsAttr};
use crate::tsk_fs_file::TskFsFile;

verus! {

/// Read flag word: no special handling.
pub const READ_FLAG_NONE: u32 = 0x00;

/// Read flag bit: look the attribute up by its type alone, ignoring its id.
pub const READ_FLAG_NOID: u32 = 0x02;

/// Whether one attribute record answers a lookup by type and id under the
/// given read flag word; with the no-id bit set, the type alone decides.
pub open spec fn attr_matches(rec: AttrRecord, ty: u32, id: u16, flag: u32) -> bool {
    rec.spec_type() == ty && (flag & READ_FLAG_NOID != 0 || rec.spec_id() == id)
}

/// The attribute a lookup by type and id resolves to: the first match.
pub open spec fn attr_match_at(attrs: Seq<AttrRecord>, ty: u32, id: u16, flag: u32, k: int) -> bool {
    &&& 0 <= k < attrs.len()
    &&& attr_matches(attrs[k], ty, id, flag)
    &&& forall|j: int| 0 <= j < k ==> !attr_matches(#[trigger] attrs[j], ty, id, flag)
}

/// How many bytes one handle read hands back: the request is clamped both at
/// the end of the looked-up attribute's content and at the end of the handle's
/// own attribute, whose size bounds the cursor.
pub open spec fn handle_read_amount(
    target_size: int,
    attr_size: int,
    cursor: int,
    buf_len: int,
) -> int {
    if cursor >= target_size {
        0
    } else {
        let a = if buf_len <= target_size - cursor {
            buf_len
        } else {
            target_size - cursor
        };
        if a <= attr_size - cursor {
            a
        } else {
            attr_size - cursor
        }
    }
}

/// Law: when the looked-up attribute is the handle's own — the usual case —
/// one handle read hands back exactly what one bounded stream read would.
pub proof fn lemma_handle_read_matches_stream(size: int, cursor: int, buf_len: int)
    requires
        0 <= cursor <= size,
        0 <= buf_len,
    ensures
        handle_read_amount(size, size, cursor, buf_len) == crate::stream::read_amount(
            size,
            cursor,
            buf_len,
        ),
{
}

/// What one successful handle read leaves behind, given the looked-up
/// attribute at position `k`: the byte count, the new cursor, and the buffer
/// prefix replaced by the content window.
pub open spec fn read_result_at(
    attrs: Seq<AttrRecord>,
    k: int,
    asize: int,
    cur: int,
    old_buf: Seq<u8>,
    new_buf: Seq<u8>,
    n: int,
    new_cur: int,
) -> bool {
    let m = handle_read_amount(attrs[k].spec_size(), asize, cur, old_buf.len() as int);
    &&& n == m
    &&& new_cur == cur + m
    &&& (m == 0 ==> new_buf == old_buf)
    &&& (m > 0 ==> new_buf == attrs[k].spec_data().subrange(cur, cur + m) + old_buf.skip(m))
}

/// A bounded read/seek stream over one attribute of a file, reading through
/// the file by the attribute's type and id. It holds only an integer cursor,
/// no resource of its own.
#[derive(Debug)]
pub struct TskFsFileHandle<'f> {
    pub(crate) tsk_fs_file: &'f TskFsFile<'f>,
    pub(crate) tsk_fs_attr: TskFsAttr<'f>,
    pub(crate) offset_: u64,
    pub(crate) read_flag: u32,
}

impl<'f> TskFsFileHandle<'f> {
    #[verifier::type_invariant]
    pub open(crate) spec fn wf(self) -> bool {
        0 <= self.offset_ <= self.tsk_fs_attr.spec_size()
    }

    /// The file this handle reads through.
    pub open(crate) spec fn spec_file(self) -> TskFsFile<'f> {
        *self.tsk_fs_file
    }

    /// The attribute whose type and id the reads name, and whose size bounds
    /// the cursor.
    pub open(crate) spec fn spec_attr(self) -> TskFsAttr<'f> {
        self.tsk_fs_attr
    }

    /// The cursor: the next content byte a read would hand back.
    pub open(crate) spec fn spec_offset(self) -> int {
        self.offset_ as int
    }

    /// The raw read flag word the handle was created with.
    pub open(crate) spec fn spec_read_flag(self) -> u32 {
        self.read_flag
    }

    /// Create TskFsFileHandle from TskFsFile, TskFsAttr and read flag.
    pub fn new(
        tsk_fs_file: &'f TskFsFile<'f>,
        tsk_fs_attr: TskFsAttr<'f>,
        read_flag: u32,
    ) -> (r: Result<Self, TskError>)
        ensures
            match r {
                Ok(h) => {
                    &&& h.spec_file() == *tsk_fs_file
                    &&& h.spec_attr() == tsk_fs_attr
                    &&& h.spec_offset() == 0
                    &&& h.spec_read_flag() == read_flag
                },
                Err(_) => false,
            },
    {
        proof {
            use_type_invariant(&tsk_fs_attr);
        }
        Ok(Self { tsk_fs_file, tsk_fs_attr, offset_: 0, read_flag })
    }

    /// Move the cursor as the request asks, exactly as `seek_outcome` says
    /// over the attribute's byte size: out-of-range requests fail with a
    /// `SeekRange` error and leave the cursor where it was.
    pub fn seek(&mut self, pos: SeekFrom) -> (r: Result<u64, TskError>)
        ensures
            final(self).spec_file() == old(self).spec_file(),
            final(self).spec_attr() == old(self).spec_attr(),
            final(self).spec_read_flag() == old(self).spec_read_flag(),
            match r {
                Ok(n) => {
                    &&& seek_outcome(
                        old(self).spec_attr().spec_size(),
                        old(self).spec_offset(),
                        pos,
                    ) == Some(n as int)
                    &&& final(self).spec_offset() == n as int
                },
                Err(e) => {
                    &&& seek_outcome(
                        old(self).spec_attr().spec_size(),
                        old(self).spec_offset(),
                        pos,
                    ) is None
                    &&& e.kind == ErrorType::SeekRange
                    &&& final(self).spec_offset() == old(self).spec_offset()
                },
            },
    {
        proof {
            use_type_invariant(&*self);
        }
        let size_i = self.tsk_fs_attr.size();
        match seek_target(size_i as u64, self.offset_, pos) {
            Ok(n) => {
                self.offset_ = n;
                Ok(n)
            },
            Err(e) => Err(e),
        }
    }

    /// Read into the front of `buf` from the cursor onward. The content comes
    /// from the first of the file's attributes whose type — and, unless the
    /// no-id flag is set, id — match the handle's attribute; a missing match
    /// is a read failure. A cursor at the end of the handle's attribute hands
    /// back zero bytes, not an error.
    pub fn read(&mut self, buf: &mut Vec<u8>) -> (r: Result<usize, TskError>)
        ensures
            final(self).spec_file() == old(self).spec_file(),
            final(self).spec_attr() == old(self).spec_attr(),
            final(self).spec_read_flag() == old(self).spec_read_flag(),
            final(buf)@.len() == old(buf)@.len(),
            ({
                let cur = old(self).spec_offset();
                let asize = old(self).spec_attr().spec_size();
                let attrs = old(self).spec_file().spec_attrs();
                let ty = old(self).spec_attr().spec_rec().spec_type();
                let id = old(self).spec_attr().spec_rec().spec_id();
                let flag = old(self).spec_read_flag();
                match r {
                    Ok(n) => {
                        if cur == asize {
                            n == 0 && final(buf)@ == old(buf)@ && final(self).spec_offset() == cur
                        } else {
                            exists|k: int|
                                #[trigger] attr_match_at(
                                    old(self).spec_file().spec_attrs(),
                                    old(self).spec_attr().spec_rec().spec_type(),
                                    old(self).spec_attr().spec_rec().spec_id(),
                                    old(self).spec_read_flag(),
                                    k,
                                ) && read_result_at(
                                    old(self).spec_file().spec_attrs(),
                                    k,
                                    old(self).spec_attr().spec_size(),
                                    old(self).spec_offset(),
                                    old(buf)@,
                                    final(buf)@,
                                    n as int,
                                    final(self).spec_offset(),
                                )
                        }
                    },
                    Err(e) => {
                        &&& e.kind == ErrorType::TskFsFile
                        &&& cur != asize
                        &&& forall|j: int|
                            0 <= j < attrs.len() ==> !attr_matches(
                                #[trigger] attrs[j],
                                ty,
                                id,
                                flag,
                            )
                        &&& final(buf)@ == old(buf)@
                        &&& final(self).spec_offset() == cur
                    },
                }
            }),
    {
        proof {
            use_type_invariant(&*self);
            use_type_invariant(&self.tsk_fs_attr);
        }
        let asize = self.tsk_fs_attr.size() as u64;
        if self.offset_ == asize {
            return Ok(0);
        }
        let ty = self.tsk_fs_attr.attr_type();
        let id = self.tsk_fs_attr.id();
        let flag = self.read_flag;
        let f = self.tsk_fs_file;
        let k = match Self::find_attr(f, ty, id, flag) {
            Some(k) => k,
            None => {
                return Err(TskError::tsk_fs_file_error(
                    "there was an error reading: the file has no attribute of the handle's type and id".to_owned(),
                ));
            },
        };
        let rec = f.attr_ref(k);
        proof {
            use_type_invariant(rec);
            let attrs = old(self).spec_file().spec_attrs();
            let sty = old(self).spec_attr().spec_rec().spec_type();
            let sid = old(self).spec_attr().spec_rec().spec_id();
            assert(attr_match_at(attrs, sty, sid, old(self).spec_read_flag(), k as int));
        }
        let target_size: u64 = rec.data.len() as u64;
        if self.offset_ >= target_size {
            proof {
                assert(attr_match_at(
                    old(self).spec_file().spec_attrs(),
                    old(self).spec_attr().spec_rec().spec_type(),
                    old(self).spec_attr().spec_rec().spec_id(),
                    old(self).spec_read_flag(),
                    k as int,
                ) && read_result_at(
                    old(self).spec_file().spec_attrs(),
                    k as int,
                    old(self).spec_attr().spec_size(),
                    old(self).spec_offset(),
                    old(buf)@,
                    buf@,
                    0,
                    self.spec_offset(),
                ));
            }
            return Ok(0);
        }
        let a: u64 = if buf.len() as u64 <= target_size - self.offset_ {
            buf.len() as u64
        } else {
            target_size - self.offset_
        };
        let want: u64 = if a <= asize - self.offset_ {
            a
        } else {
            asize - self.offset_
        };
        if want == 0 {
            proof {
                assert(attr_match_at(
                    old(self).spec_file().spec_attrs(),
                    old(self).spec_attr().spec_rec().spec_type(),
                    old(self).spec_attr().spec_rec().spec_id(),
                    old(self).spec_read_flag(),
                    k as int,
                ) && read_result_at(
                    old(self).spec_file().spec_attrs(),
                    k as int,
                    old(self).spec_attr().spec_size(),
                    old(self).spec_offset(),
                    old(buf)@,
                    buf@,
                    0,
                    self.spec_offset(),
                ));
            }
            return Ok(0);
        }
        fill_prefix(buf, &rec.data, self.offset_ as usize, want as usize);
        self.offset_ = self.offset_ + want;
        proof {
            let cur = old(self).spec_offset();
            let attrs = old(self).spec_file().spec_attrs();
            let m = handle_read_amount(
                attrs[k as int].spec_size(),
                old(self).spec_attr().spec_size(),
                cur,
                old(buf)@.len() as int,
            );
            assert(buf@ =~= attrs[k as int].spec_data().subrange(cur, cur + m) + old(buf)@.skip(m));
            assert(attr_match_at(
                attrs,
                old(self).spec_attr().spec_rec().spec_type(),
                old(self).spec_attr().spec_rec().spec_id(),
                old(self).spec_read_flag(),
                k as int,
            ) && read_result_at(
                attrs,
                k as int,
                old(self).spec_attr().spec_size(),
                cur,
                old(buf)@,
                buf@,
                want as int,
                self.spec_offset(),
            ));
        }
        Ok(want as usize)
    }

    /// Position of the first attribute of `f` matching the lookup, if any.
    fn find_attr(f: &TskFsFile<'f>, ty: u32, id: u16, flag: u32) -> (r: Option<usize>)
        ensures
            match r {
                Some(k) => attr_match_at(f.spec_attrs(), ty, id, flag, k as int),
                None => forall|j: int|
                    0 <= j < f.spec_attrs().len() ==> !attr_matches(
                        #[trigger] f.spec_attrs()[j],
                        ty,
                        id,
                        flag,
                    ),
            },
    {
        let noid = flag & READ_FLAG_NOID != 0;
        let n = f.attr_count_usize();
        let mut k: usize = 0;
        while k < n
            invariant
                noid == (flag & READ_FLAG_NOID != 0),
                k <= n == f.spec_attrs().len(),
                forall|j: int|
                    0 <= j < k ==> !attr_matches(#[trigger] f.spec_attrs()[j], ty, id, flag),
            decreases n - k,
        {
            let rec = f.attr_ref(k);
            if rec.attr_type == ty && (noid || rec.id == id) {
                return Some(k);
            }
            k = k + 1;
        }
        None
    }
}

} // verus!
