use vstd::prelude::*;
use crate::errors::{ErrorType, TskError};
use crate::tsk_img::{Catalog, TskImg};

verus! {

/// A seekable byte source that can act as an image: the capability the
/// engine's external-image callbacks need. Implement it to read an image out
/// of memory, a network blob, a decrypted container — anything that can seek
/// to an absolute position and hand bytes back. Short reads are allowed; a
/// read at or past the end hands back nothing.
pub trait ReadSeek {
    /// The source's whole content.
    spec fn spec_data(&self) -> Seq<u8>;

    /// The cursor the next read starts at.
    spec fn spec_pos(&self) -> int;

    /// Move the cursor to an absolute position — which may lie past the end —
    /// and hand it back.
    fn seek(&mut self, pos: u64) -> (r: u64)
        ensures
            final(self).spec_data() == old(self).spec_data(),
            final(self).spec_pos() == pos as int,
            r == pos,
    ;

    /// Read up to `len` bytes at the cursor, advancing it by what came back.
    fn read(&mut self, len: usize) -> (r: Vec<u8>)
        ensures
            final(self).spec_data() == old(self).spec_data(),
            r@.len() <= len,
            final(self).spec_pos() == old(self).spec_pos() + r@.len(),
            0 <= old(self).spec_pos() <= old(self).spec_data().len() ==> old(self).spec_pos()
                + r@.len() <= old(self).spec_data().len() && r@ == old(self).spec_data().subrange(
                old(self).spec_pos(),
                old(self).spec_pos() + r@.len(),
            ),
            old(self).spec_pos() > old(self).spec_data().len() ==> r@.len() == 0,
    ;
}

/// A byte source held in memory, the simplest image source.
#[derive(Debug)]
pub struct MemReadSeek {
    pub data: Vec<u8>,
    pub pos: u64,
}

impl MemReadSeek {
    /// Wrap a byte vector as a seekable source, with the cursor at the start.
    pub fn new(data: Vec<u8>) -> (r: MemReadSeek)
        ensures
            r.spec_data() == data@,
            r.spec_pos() == 0,
    {
        MemReadSeek { data, pos: 0 }
    }
}

impl ReadSeek for MemReadSeek {
    open spec fn spec_data(&self) -> Seq<u8> {
        self.data@
    }

    open spec fn spec_pos(&self) -> int {
        self.pos as int
    }

    fn seek(&mut self, pos: u64) -> (r: u64) {
        self.pos = pos;
        pos
    }

    fn read(&mut self, len: usize) -> (r: Vec<u8>) {
        let total: u64 = self.data.len() as u64;
        if self.pos >= total {
            return Vec::new();
        }
        let remaining: u64 = total - self.pos;
        let want: u64 = if len as u64 <= remaining {
            len as u64
        } else {
            remaining
        };
        let out = crate::stream::copy_range(
            &self.data,
            self.pos as usize,
            (self.pos + want) as usize,
        );
        self.pos = self.pos + want;
        out
    }
}

/// An image backed by an arbitrary seekable byte source. Creating it pulls
/// the source's declared span into memory through the same
/// seek-then-read-exactly discipline the engine's read-at-offset callback
/// uses: a seek that lands elsewhere or a read that comes up short is a
/// failure, never silently padded.
#[derive(Debug)]
pub struct TskImgReadSeek {
    pub(crate) source: String,
    pub(crate) data: Vec<u8>,
}

impl TskImgReadSeek {
    /// The description of where the bytes came from.
    pub open(crate) spec fn spec_source(self) -> Seq<char> {
        self.source@
    }

    /// The image bytes pulled from the source.
    pub open(crate) spec fn spec_data(self) -> Seq<u8> {
        self.data@
    }

    /// Pull `size` bytes from the start of `stream`. A negative size is
    /// rejected outright; a source that seeks elsewhere than asked or whose
    /// read comes up short of what was asked is an engine-style open failure.
    /// A zero size asks nothing of the source and always succeeds.
    pub fn from_read_seek<S: ReadSeek>(source: &str, stream: &mut S, size: i64) -> (r: Result<
        TskImgReadSeek,
        TskError,
    >)
        ensures
            size == 0 ==> r is Ok,
            match r {
                Ok(img) => {
                    &&& img.spec_source() == source@
                    &&& size >= 0
                    &&& img.spec_data().len() == size as int
                    &&& size <= old(stream).spec_data().len()
                    &&& img.spec_data() == old(stream).spec_data().take(size as int)
                },
                Err(e) => {
                    &&& (e.kind == ErrorType::Generic <==> size < 0)
                    &&& (e.kind == ErrorType::Generic || e.kind == ErrorType::LibTskError)
                },
            },
    {
        if size < 0 {
            return Err(TskError::generic(
                "there was an error opening the read/seek img handle: the declared size is negative".to_owned(),
            ));
        }
        let total: u64 = size as u64;
        let mut data: Vec<u8> = Vec::new();
        let mut have: u64 = 0;
        let ghost sdata = stream.spec_data();
        while have < total
            invariant
                total == size as u64,
                0 <= size,
                have == data@.len(),
                have <= total,
                stream.spec_data() == sdata,
                data@.len() <= sdata.len(),
                data@ == sdata.take(data@.len() as int),
            decreases total - have,
        {
            let landed = stream.seek(have);
            if landed != have {
                return Err(TskError::lib_tsk_error(
                    "there was an error opening the read/seek img handle: the source seeked elsewhere than asked".to_owned(),
                ));
            }
            let chunk_max: usize = 1048576;
            let room: u64 = total - have;
            let want: usize = if (chunk_max as u64) <= room {
                chunk_max
            } else {
                room as usize
            };
            let mut piece = stream.read(want);
            if piece.len() != want {
                return Err(TskError::lib_tsk_error(
                    "there was an error opening the read/seek img handle: the source's read came up short".to_owned(),
                ));
            }
            let piece_len: u64 = piece.len() as u64;
            data.append(&mut piece);
            have = have + piece_len;
            proof {
                assert(data@ =~= sdata.take(data@.len() as int));
            }
        }
        proof {
            assert(data@ =~= sdata.take(size as int));
        }
        Ok(TskImgReadSeek { source: source.to_owned(), data })
    }

    /// Turn the pulled bytes into an image, attaching the engine's catalog
    /// for them.
    pub fn into_img(self, catalog: Catalog) -> (r: TskImg)
        ensures
            r.spec_data() == self.spec_data(),
            r.spec_catalog() == catalog,
    {
        TskImg::from_parts(self.data, catalog)
    }
}

} // verus!
