use vstd::prelude::*;
use crate::errors::{ErrorType, TskError};
use crate::stream::{fill_prefix, read_amount, seek_outcome, seek_target, SeekFrom};
use crate::text::{clone_opt_string, join_strings, spec_join};
use crate::tsk_fs_file::TskFsFile;

verus! {

/// Attribute flag: the attribute slot is in use.
pub const ATTR_FLAG_INUSE: u32 = 0x01;

/// Attribute flag: the attribute's content is non-resident, stored across
/// extent runs rather than inline in metadata.
pub const ATTR_FLAG_NONRES: u32 = 0x02;

/// Attribute flag: the attribute's content is resident, stored inline.
pub const ATTR_FLAG_RES: u32 = 0x04;

/// Attribute flag: the content is encrypted.
pub const ATTR_FLAG_ENC: u32 = 0x10;

/// Attribute flag: the content is compressed.
pub const ATTR_FLAG_COMP: u32 = 0x20;

/// Attribute flag: the content is sparse.
pub const ATTR_FLAG_SPARSE: u32 = 0x40;

/// Run flag: a filler entry for an as-yet unknown range.
pub const RUN_FLAG_FILLER: i32 = 0x01;

/// Run flag: a sparse range, implicit zero bytes with no physical storage.
pub const RUN_FLAG_SPARSE: i32 = 0x02;

/// Run flag: an encrypted range.
pub const RUN_FLAG_ENCRYPTED: i32 = 0x04;

/// One extent run of a non-resident attribute: its starting block address,
/// its length in blocks, and its flag word.
#[derive(Debug, Clone, Copy, PartialEq, Eq, Structural)]
pub struct TskFsAttrRun {
    pub addr: u64,
    pub len: u64,
    pub flags: i32,
}

/// The names of the run flag bits set in `flags`, in the fixed order filler,
/// sparse, encrypted.
pub open spec fn spec_run_flag_pieces(flags: i32) -> Seq<Seq<char>> {
    let a: Seq<Seq<char>> = if flags & RUN_FLAG_FILLER != 0 {
        seq!["FILLER"@]
    } else {
        Seq::empty()
    };
    let b: Seq<Seq<char>> = if flags & RUN_FLAG_SPARSE != 0 {
        seq!["SPARSE"@]
    } else {
        Seq::empty()
    };
    let c: Seq<Seq<char>> = if flags & RUN_FLAG_ENCRYPTED != 0 {
        seq!["ENCRYPTED"@]
    } else {
        Seq::empty()
    };
    a + b + c
}

impl TskFsAttrRun {
    /// The run of `nrd` at the given position, if there is one.
    pub fn from_nrd(nrd: &NonResidentData, index: usize) -> (r: Option<TskFsAttrRun>)
        ensures
            r is Some <==> index < nrd.runs@.len(),
            r matches Some(run) ==> run == nrd.runs@[index as int],
    {
        if index < nrd.runs.len() {
            Some(nrd.runs[index])
        } else {
            None
        }
    }

    /// Get the starting block address (in file system) of run
    pub fn addr(&self) -> (r: u64)
        ensures
            r == self.addr,
    {
        self.addr
    }

    /// Number of blocks in run (0 when entry is not in use)
    pub fn len(&self) -> (r: u64)
        ensures
            r == self.len,
    {
        self.len
    }

    /// Flags for run.
    pub fn flags(&self) -> (r: i32)
        ensures
            r == self.flags,
    {
        self.flags
    }

    /// The names of the run's flag bits, joined with ` | `.
    pub fn flags_str(&self) -> (r: String)
        ensures
            r@ == spec_join(spec_run_flag_pieces(self.flags), " | "@),
    {
        let mut pieces: Vec<String> = Vec::new();
        if self.flags & RUN_FLAG_FILLER != 0 {
            pieces.push("FILLER".to_owned());
        }
        if self.flags & RUN_FLAG_SPARSE != 0 {
            pieces.push("SPARSE".to_owned());
        }
        if self.flags & RUN_FLAG_ENCRYPTED != 0 {
            pieces.push("ENCRYPTED".to_owned());
        }
        proof {
            assert(pieces@.map_values(|s: String| s@) =~= spec_run_flag_pieces(self.flags));
        }
        join_strings(&pieces, " | ")
    }
}

/// What a non-resident attribute additionally carries: the skip length before
/// meaningful content, the allocated and initialized sizes, the compression
/// unit size, and the extent run list in chain order.
#[derive(Debug)]
pub struct NonResidentData {
    pub skiplen: u32,
    pub allocsize: i64,
    pub initsize: i64,
    pub compsize: u32,
    pub runs: Vec<TskFsAttrRun>,
}

/// Field-for-field agreement of two non-resident descriptions.
pub open spec fn nrd_like(a: NonResidentData, b: NonResidentData) -> bool {
    &&& a.skiplen == b.skiplen
    &&& a.allocsize == b.allocsize
    &&& a.initsize == b.initsize
    &&& a.compsize == b.compsize
    &&& a.runs@ == b.runs@
}

/// Copy a run list.
fn clone_runs(src: &Vec<TskFsAttrRun>) -> (r: Vec<TskFsAttrRun>)
    ensures
        r@ == src@,
{
    let mut out: Vec<TskFsAttrRun> = Vec::new();
    let mut i: usize = 0;
    while i < src.len()
        invariant
            i <= src@.len(),
            out@ == src@.take(i as int),
        decreases src@.len() - i,
    {
        out.push(src[i]);
        i = i + 1;
        proof {
            assert(out@ =~= src@.take(i as int));
        }
    }
    proof {
        assert(src@.take(src@.len() as int) =~= src@);
    }
    out
}

/// Copy a non-resident description.
pub(crate) fn clone_nrd(src: &NonResidentData) -> (r: NonResidentData)
    ensures
        nrd_like(r, *src),
{
    NonResidentData {
        skiplen: src.skiplen,
        allocsize: src.allocsize,
        initsize: src.initsize,
        compsize: src.compsize,
        runs: clone_runs(&src.runs),
    }
}

impl NonResidentData {
    /// Pack a non-resident description from its parts.
    pub fn new(skiplen: u32, allocsize: i64, initsize: i64, compsize: u32, runs: Vec<
        TskFsAttrRun,
    >) -> (r: Self)
        ensures
            r.skiplen == skiplen,
            r.allocsize == allocsize,
            r.initsize == initsize,
            r.compsize == compsize,
            r.runs@ == runs@,
    {
        Self { skiplen, allocsize, initsize, compsize, runs }
    }

    /// Number of initial bytes in the run to skip before content begins.
    pub fn skiplen(&self) -> (r: u32)
        ensures
            r == self.skiplen,
    {
        self.skiplen
    }

    /// Number of bytes that are allocated in all clusters of the
    /// non-resident run.
    pub fn allocsize(&self) -> (r: i64)
        ensures
            r == self.allocsize,
    {
        self.allocsize
    }

    /// Number of bytes, starting from offset 0, that have data saved for
    /// them.
    pub fn initsize(&self) -> (r: i64)
        ensures
            r == self.initsize,
    {
        self.initsize
    }

    /// Size of compression units.
    pub fn compsize(&self) -> (r: u32)
        ensures
            r == self.compsize,
    {
        self.compsize
    }

    /// Get the first data run for this non resident data, if the run list is
    /// not empty.
    pub fn run(&self) -> (r: Option<TskFsAttrRun>)
        ensures
            r is Some <==> self.runs@.len() > 0,
            r matches Some(run) ==> run == self.runs@[0],
    {
        TskFsAttrRun::from_nrd(self, 0)
    }

    /// Get an iterator over the run list, in chain order.
    pub fn iter<'a>(&'a self) -> (r: TskFsAttrRunIterator<'a>)
        ensures
            r.spec_runs() == self.runs@,
            r.spec_index() == 0,
    {
        TskFsAttrRunIterator { nrd: self, index: 0 }
    }
}

/// An iterator over a non-resident attribute's run list, following the
/// engine's forward-only chain until its end.
#[derive(Debug)]
pub struct TskFsAttrRunIterator<'a> {
    pub(crate) nrd: &'a NonResidentData,
    pub(crate) index: usize,
}

impl<'a> TskFsAttrRunIterator<'a> {
    /// The run list being walked.
    pub open(crate) spec fn spec_runs(self) -> Seq<TskFsAttrRun> {
        self.nrd.runs@
    }

    /// The position of the next run to yield.
    pub open(crate) spec fn spec_index(self) -> int {
        self.index as int
    }

    /// Yield the run at the current position and advance by one; `None`
    /// exactly when the chain has ended.
    pub fn next(&mut self) -> (r: Option<TskFsAttrRun>)
        ensures
            final(self).spec_runs() == old(self).spec_runs(),
            match r {
                Some(run) => {
                    &&& old(self).spec_index() < old(self).spec_runs().len()
                    &&& run == old(self).spec_runs()[old(self).spec_index()]
                    &&& final(self).spec_index() == old(self).spec_index() + 1
                },
                None => {
                    &&& old(self).spec_index() >= old(self).spec_runs().len()
                    &&& final(self).spec_index() == old(self).spec_index()
                },
            },
    {
        if self.index < self.nrd.runs.len() {
            let run = self.nrd.runs[self.index];
            self.index = self.index + 1;
            Some(run)
        } else {
            None
        }
    }
}

/// One attribute as the engine reports it: its id, optional name, raw type
/// code and flag word, its content bytes, and — when it is non-resident — the
/// extent description.
#[derive(Debug)]
pub struct AttrRecord {
    pub(crate) id: u16,
    pub(crate) name: Option<String>,
    pub(crate) attr_type: u32,
    pub(crate) flags: u32,
    pub(crate) data: Vec<u8>,
    pub(crate) nrd: Option<NonResidentData>,
}

impl AttrRecord {
    /// The content's byte count is representable as the engine's signed size,
    /// and an attribute whose flag word marks it non-resident always carries
    /// its extent description, as the engine's records do.
    #[verifier::type_invariant]
    pub open(crate) spec fn wf(self) -> bool {
        &&& self.data@.len() <= i64::MAX
        &&& self.flags & ATTR_FLAG_NONRES != 0 ==> self.nrd is Some
    }

    /// The attribute's id.
    pub open(crate) spec fn spec_id(self) -> u16 {
        self.id
    }

    /// The attribute's optional name.
    pub open(crate) spec fn spec_name(self) -> Option<String> {
        self.name
    }

    /// The attribute's raw type code.
    pub open(crate) spec fn spec_type(self) -> u32 {
        self.attr_type
    }

    /// The attribute's raw flag word.
    pub open(crate) spec fn spec_flags(self) -> u32 {
        self.flags
    }

    /// The attribute's content bytes.
    pub open(crate) spec fn spec_data(self) -> Seq<u8> {
        self.data@
    }

    /// The attribute's non-resident description, when it has one.
    pub open(crate) spec fn spec_nrd(self) -> Option<NonResidentData> {
        self.nrd
    }

    /// The attribute's byte size: the length of its content.
    pub open spec fn spec_size(self) -> int {
        self.spec_data().len() as int
    }

    /// Pack an attribute record from what the engine reports, rejecting with
    /// a `Generic` error what no engine record holds: content longer than the
    /// signed size field can say, or a non-resident flag word without the
    /// extent description.
    pub fn new(
        id: u16,
        name: Option<String>,
        attr_type: u32,
        flags: u32,
        data: Vec<u8>,
        nrd: Option<NonResidentData>,
    ) -> (r: Result<AttrRecord, TskError>)
        ensures
            match r {
                Ok(rec) => {
                    &&& data@.len() <= i64::MAX
                    &&& !(flags & ATTR_FLAG_NONRES != 0 && nrd is None)
                    &&& rec.spec_id() == id
                    &&& rec.spec_name() == name
                    &&& rec.spec_type() == attr_type
                    &&& rec.spec_flags() == flags
                    &&& rec.spec_data() == data@
                    &&& rec.spec_nrd() == nrd
                },
                Err(e) => e.kind == ErrorType::Generic && (data@.len() > i64::MAX || (flags
                    & ATTR_FLAG_NONRES != 0 && nrd is None)),
            },
    {
        if data.len() as u64 > i64::MAX as u64 {
            return Err(TskError::generic(
                "the attribute's content is longer than its size field can say".to_owned(),
            ));
        }
        if flags & ATTR_FLAG_NONRES != 0 && nrd.is_none() {
            return Err(TskError::generic(
                "a non-resident attribute must carry its extent description".to_owned(),
            ));
        }
        Ok(AttrRecord { id, name, attr_type, flags, data, nrd })
    }
}

/// A view of one attribute of a file, together with a read cursor. It carries
/// no resource of its own: only a back-reference to the file and the
/// attribute's position in the file's attribute list.
#[derive(Debug, Clone, Copy)]
pub struct TskFsAttr<'f> {
    pub(crate) tsk_fs_file: &'f TskFsFile<'f>,
    pub(crate) attr_index: usize,
    pub(crate) offset_: u64,
}

impl<'f> TskFsAttr<'f> {
    #[verifier::type_invariant]
    pub open(crate) spec fn wf(self) -> bool {
        &&& self.attr_index < self.tsk_fs_file.spec_attrs().len()
        &&& self.offset_ <= self.tsk_fs_file.spec_attrs()[self.attr_index as int].spec_size()
    }

    /// The file this attribute belongs to.
    pub open(crate) spec fn spec_file(self) -> TskFsFile<'f> {
        *self.tsk_fs_file
    }

    /// The attribute's position in the file's attribute list.
    pub open(crate) spec fn spec_attr_index(self) -> int {
        self.attr_index as int
    }

    /// The read cursor: the next content byte a read would hand back.
    pub open(crate) spec fn spec_offset(self) -> int {
        self.offset_ as int
    }

    /// The record this attribute is a view of.
    pub open spec fn spec_rec(self) -> AttrRecord {
        self.spec_file().spec_attrs()[self.spec_attr_index()]
    }

    /// The attribute's byte size.
    pub open spec fn spec_size(self) -> int {
        self.spec_rec().spec_size()
    }

    /// What looking an attribute up by position returns: the view at that
    /// position with its cursor at the start, or an attribute error when the
    /// position is past the end of the file's attribute list.
    pub open spec fn lookup_outcome(
        file: TskFsFile<'f>,
        index: int,
        r: Result<TskFsAttr<'f>, TskError>,
    ) -> bool {
        match r {
            Ok(a) => {
                &&& a.spec_file() == file
                &&& a.spec_attr_index() == index
                &&& a.spec_offset() == 0
                &&& index < file.spec_attrs().len()
            },
            Err(e) => e.kind == ErrorType::TskFsAttr && index >= file.spec_attrs().len(),
        }
    }

    /// Create an attribute view given the TskFsFile and the position of the
    /// attribute.
    pub fn from_index(tsk_fs_file: &'f TskFsFile<'f>, index: u16) -> (r: Result<
        TskFsAttr<'f>,
        TskError,
    >)
        ensures
            Self::lookup_outcome(*tsk_fs_file, index as int, r),
    {
        if (index as usize) < tsk_fs_file.attr_count_usize() {
            Ok(TskFsAttr { tsk_fs_file, attr_index: index as usize, offset_: 0 })
        } else {
            Err(TskError::tsk_attr_error(
                "there was an error getting the attribute: the index is past the end of the attribute list".to_owned(),
            ))
        }
    }

    /// Create an attribute view of the file's default attribute.
    pub fn from_default(tsk_fs_file: &'f TskFsFile<'f>) -> (r: Result<TskFsAttr<'f>, TskError>)
        ensures
            Self::lookup_outcome(*tsk_fs_file, tsk_fs_file.spec_entry().default_attr as int, r),
    {
        let d = tsk_fs_file.default_attr_index();
        if d < tsk_fs_file.attr_count_usize() {
            Ok(TskFsAttr { tsk_fs_file, attr_index: d, offset_: 0 })
        } else {
            Err(TskError::tsk_attr_error(
                "there was an error getting the default attribute: the file has none".to_owned(),
            ))
        }
    }

    /// Get the name of the attribute if available
    pub fn name(&self) -> (r: Option<String>)
        ensures
            r is Some <==> self.spec_rec().spec_name() is Some,
            r matches Some(s) ==> self.spec_rec().spec_name() matches Some(t) && s@ == t@,
    {
        proof {
            use_type_invariant(self);
        }
        let f = self.tsk_fs_file;
        clone_opt_string(&f.attr_ref(self.attr_index).name)
    }

    /// Get the size of this attribute
    pub fn size(&self) -> (r: i64)
        ensures
            r == self.spec_size(),
    {
        proof {
            use_type_invariant(self);
        }
        let f = self.tsk_fs_file;
        let rec = f.attr_ref(self.attr_index);
        proof {
            use_type_invariant(rec);
        }
        rec.data.len() as i64
    }

    /// Get the raw type code of the attribute
    pub fn attr_type(&self) -> (r: u32)
        ensures
            r == self.spec_rec().spec_type(),
    {
        proof {
            use_type_invariant(self);
        }
        let f = self.tsk_fs_file;
        f.attr_ref(self.attr_index).attr_type
    }

    /// Get the raw flag word of the attribute
    pub fn attr_flags(&self) -> (r: u32)
        ensures
            r == self.spec_rec().spec_flags(),
    {
        proof {
            use_type_invariant(self);
        }
        let f = self.tsk_fs_file;
        f.attr_ref(self.attr_index).flags
    }

    /// Get the id of this attribute
    pub fn id(&self) -> (r: u16)
        ensures
            r == self.spec_rec().spec_id(),
    {
        proof {
            use_type_invariant(self);
        }
        let f = self.tsk_fs_file;
        f.attr_ref(self.attr_index).id
    }

    /// Get an iterator over the rest of the file's attribute list, starting
    /// at this attribute.
    pub fn into_iter(self) -> (r: TskFsAttrIterator<'f>)
        ensures
            r.spec_file() == self.spec_file(),
            r.spec_index() == self.spec_attr_index(),
    {
        TskFsAttrIterator { tsk_fs_file: self.tsk_fs_file, index: self.attr_index }
    }

    /// Get the non-resident description, present exactly when the attribute's
    /// flag word marks it non-resident.
    pub fn get_non_resident_data(&self) -> (r: Option<NonResidentData>)
        ensures
            r is Some <==> self.spec_rec().spec_flags() & ATTR_FLAG_NONRES != 0,
            r matches Some(n) ==> self.spec_rec().spec_nrd() matches Some(m) && nrd_like(n, m),
    {
        proof {
            use_type_invariant(self);
        }
        let f = self.tsk_fs_file;
        let rec = f.attr_ref(self.attr_index);
        proof {
            use_type_invariant(rec);
        }
        if rec.flags & ATTR_FLAG_NONRES != 0 {
            match &rec.nrd {
                Some(m) => Some(clone_nrd(m)),
                None => {
                    // A non-resident record always carries its description:
                    // the record's invariant rules this arm out.
                    proof {
                        assert(false);
                    }
                    None
                },
            }
        } else {
            None
        }
    }

    /// Move the read cursor as the request asks, exactly as `seek_outcome`
    /// says over the attribute's byte size: out-of-range requests fail with a
    /// `SeekRange` error and leave the cursor where it was.
    pub fn seek(&mut self, pos: SeekFrom) -> (r: Result<u64, TskError>)
        ensures
            final(self).spec_file() == old(self).spec_file(),
            final(self).spec_attr_index() == old(self).spec_attr_index(),
            match r {
                Ok(n) => {
                    &&& seek_outcome(old(self).spec_size(), old(self).spec_offset(), pos) == Some(
                        n as int,
                    )
                    &&& final(self).spec_offset() == n as int
                },
                Err(e) => {
                    &&& seek_outcome(old(self).spec_size(), old(self).spec_offset(), pos) is None
                    &&& e.kind == ErrorType::SeekRange
                    &&& final(self).spec_offset() == old(self).spec_offset()
                },
            },
    {
        proof {
            use_type_invariant(&*self);
        }
        let size_i = self.size();
        match seek_target(size_i as u64, self.offset_, pos) {
            Ok(n) => {
                self.offset_ = n;
                Ok(n)
            },
            Err(e) => Err(e),
        }
    }

    /// Read into the front of `buf` from the cursor onward: up to `buf.len()`
    /// bytes of the attribute's content, clamped at its end. A cursor at the
    /// end hands back zero bytes, not an error; in this in-memory model a
    /// read never fails.
    pub fn read(&mut self, buf: &mut Vec<u8>) -> (r: Result<usize, TskError>)
        ensures
            final(self).spec_file() == old(self).spec_file(),
            final(self).spec_attr_index() == old(self).spec_attr_index(),
            final(buf)@.len() == old(buf)@.len(),
            ({
                let size = old(self).spec_size();
                let cur = old(self).spec_offset();
                let m = read_amount(size, cur, old(buf)@.len() as int);
                let data = old(self).spec_rec().spec_data();
                match r {
                    Ok(n) => {
                        &&& n == m
                        &&& final(self).spec_offset() == cur + m
                        &&& m == 0 ==> final(buf)@ == old(buf)@
                        &&& m > 0 ==> final(buf)@ == data.subrange(cur, cur + m) + old(buf)@.skip(m)
                    },
                    Err(_) => false,
                }
            }),
    {
        proof {
            use_type_invariant(&*self);
        }
        let f = self.tsk_fs_file;
        let rec = f.attr_ref(self.attr_index);
        proof {
            use_type_invariant(rec);
        }
        let size: u64 = rec.data.len() as u64;
        let remaining: u64 = size - self.offset_;
        let buf_len: u64 = buf.len() as u64;
        let want: u64 = if buf_len <= remaining {
            buf_len
        } else {
            remaining
        };
        if want == 0 {
            return Ok(0);
        }
        fill_prefix(buf, &rec.data, self.offset_ as usize, want as usize);
        self.offset_ = self.offset_ + want;
        proof {
            let cur = old(self).spec_offset();
            let m = read_amount(old(self).spec_size(), cur, old(buf)@.len() as int);
            let data = old(self).spec_rec().spec_data();
            assert(buf@ =~= data.subrange(cur, cur + m) + old(buf)@.skip(m));
        }
        Ok(want as usize)
    }
}

/// An iterator over a file's attribute list, following the engine's
/// forward-only chain: each step yields a view of the current attribute and
/// moves to the next, until the end of the list.
#[derive(Debug)]
pub struct TskFsAttrIterator<'f> {
    pub(crate) tsk_fs_file: &'f TskFsFile<'f>,
    pub(crate) index: usize,
}

impl<'f> TskFsAttrIterator<'f> {
    /// The file whose attribute list is being walked.
    pub open(crate) spec fn spec_file(self) -> TskFsFile<'f> {
        *self.tsk_fs_file
    }

    /// The position of the next attribute to yield.
    pub open(crate) spec fn spec_index(self) -> int {
        self.index as int
    }

    /// Yield a view of the attribute at the current position, with its cursor
    /// at the start, and advance by one; `None` exactly when the chain has
    /// ended.
    pub fn next(&mut self) -> (r: Option<TskFsAttr<'f>>)
        ensures
            final(self).spec_file() == old(self).spec_file(),
            match r {
                Some(a) => {
                    &&& old(self).spec_index() < old(self).spec_file().spec_attrs().len()
                    &&& a.spec_file() == old(self).spec_file()
                    &&& a.spec_attr_index() == old(self).spec_index()
                    &&& a.spec_offset() == 0
                    &&& final(self).spec_index() == old(self).spec_index() + 1
                },
                None => {
                    &&& old(self).spec_index() >= old(self).spec_file().spec_attrs().len()
                    &&& final(self).spec_index() == old(self).spec_index()
                },
            },
    {
        if self.index < self.tsk_fs_file.attr_count_usize() {
            let current = TskFsAttr {
                tsk_fs_file: self.tsk_fs_file,
                attr_index: self.index,
                offset_: 0,
            };
            self.index = self.index + 1;
            Some(current)
        } else {
            None
        }
    }
}

} // verus!
