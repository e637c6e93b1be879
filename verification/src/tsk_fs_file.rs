use vstd::prelude::*;
use crate::errors::{ErrorType, TskError};
use crate::stream::{copy_range, read_amount};
use crate::text::{contains_nul, str_eq};
use crate::tsk_fs::{file_at, file_at_path, FileEntry, TskFs};
use crate::tsk_fs_attr::{AttrRecord, TskFsAttr, TskFsAttrIterator};
use crate::tsk_fs_file_handle::TskFsFileHandle;
use crate::tsk_fs_meta::TskFsMeta;

verus! {

/// The window size of one `copy_to` read, one mebibyte.
pub const COPY_CHUNK: usize = 1048576;

/// How many bytes `copy_to` hands over: the metadata-reported size, clamped
/// to what the default attribute actually holds, and never negative.
pub open spec fn copy_amount(meta_size: int, attr_size: int) -> int {
    if meta_size <= 0 {
        0
    } else if meta_size <= attr_size {
        meta_size
    } else {
        attr_size
    }
}

/// Law: when the metadata-reported size agrees with the default attribute's
/// byte size — as the engine keeps them for an intact file — the chunked copy
/// hands over the whole content: the attribute's bytes, at their exact
/// length.
pub proof fn lemma_copy_roundtrip(size: int)
    requires
        0 <= size,
    ensures
        copy_amount(size, size) == size,
{
}

/// A file opened from a file system, by path or by inode. Borrows the file
/// system, so it can never outlive it.
#[derive(Debug)]
pub struct TskFsFile<'fs> {
    pub(crate) tsk_fs: &'fs TskFs<'fs>,
    pub(crate) file_index: usize,
}

impl<'fs> TskFsFile<'fs> {
    #[verifier::type_invariant]
    pub open(crate) spec fn wf(self) -> bool {
        self.file_index < self.tsk_fs.spec_files().len()
    }

    /// The file system this file belongs to.
    pub open(crate) spec fn spec_fs(self) -> TskFs<'fs> {
        *self.tsk_fs
    }

    /// The position of this file among the file system's files.
    pub open(crate) spec fn spec_file_index(self) -> int {
        self.file_index as int
    }

    /// The entry this file is a view of.
    pub open spec fn spec_entry(self) -> FileEntry {
        self.spec_fs().spec_files()[self.spec_file_index()]
    }

    /// The file's attribute list, in chain order.
    pub open spec fn spec_attrs(self) -> Seq<AttrRecord> {
        self.spec_entry().attrs@
    }

    /// The file's metadata, when the engine has any.
    pub open spec fn spec_meta(self) -> Option<TskFsMeta> {
        self.spec_entry().meta
    }

    /// What opening a file by path returns: a `Generic` error for a path the
    /// engine cannot take (an embedded null), else the first file with that
    /// path, or an engine error when there is none.
    pub open spec fn open_path_outcome(
        fs: TskFs<'fs>,
        path: Seq<char>,
        r: Result<TskFsFile<'fs>, TskError>,
    ) -> bool {
        match r {
            Ok(f) => {
                &&& f.spec_fs() == fs
                &&& file_at_path(fs.spec_files(), path, f.spec_file_index())
                &&& !path.contains('\0')
            },
            Err(e) => {
                ||| (e.kind == ErrorType::Generic && path.contains('\0'))
                ||| (e.kind == ErrorType::LibTskError && !path.contains('\0') && forall|i: int|
                    0 <= i < fs.spec_files().len() ==> (#[trigger] fs.spec_files()[i]).path@
                        != path)
            },
        }
    }

    /// What opening a file by inode returns: the first file with that inode,
    /// or an engine error when there is none.
    pub open spec fn open_meta_outcome(
        fs: TskFs<'fs>,
        inode: u64,
        r: Result<TskFsFile<'fs>, TskError>,
    ) -> bool {
        match r {
            Ok(f) => f.spec_fs() == fs && file_at(fs.spec_files(), inode, f.spec_file_index()),
            Err(e) => e.kind == ErrorType::LibTskError && forall|i: int|
                0 <= i < fs.spec_files().len() ==> (#[trigger] fs.spec_files()[i]).inode != inode,
        }
    }

    /// Create a file wrapper given TskFs and a path (use '/' as separators)
    pub fn from_path(tsk_fs: &'fs TskFs<'fs>, path: &str) -> (r: Result<TskFsFile<'fs>, TskError>)
        ensures
            Self::open_path_outcome(*tsk_fs, path@, r),
    {
        if contains_nul(path) {
            return Err(TskError::generic(
                "unable to pass the path to the engine: it holds an embedded null".to_owned(),
            ));
        }
        let files = &tsk_fs.layout_ref().files;
        let n = files.len();
        let mut idx: usize = 0;
        while idx < n
            invariant
                files@ == tsk_fs.spec_files(),
                idx <= n == files@.len(),
                !path@.contains('\0'),
                forall|j: int| 0 <= j < idx ==> (#[trigger] files@[j]).path@ != path@,
            decreases n - idx,
        {
            if str_eq(files[idx].path.as_str(), path) {
                return Ok(TskFsFile { tsk_fs, file_index: idx });
            }
            idx = idx + 1;
        }
        Err(TskError::lib_tsk_error(
            "there was an error opening the path: no file with that path".to_owned(),
        ))
    }

    /// Create a file wrapper given TskFs and an inode
    pub fn from_meta(tsk_fs: &'fs TskFs<'fs>, inode: u64) -> (r: Result<TskFsFile<'fs>, TskError>)
        ensures
            Self::open_meta_outcome(*tsk_fs, inode, r),
    {
        let files = &tsk_fs.layout_ref().files;
        let n = files.len();
        let mut idx: usize = 0;
        while idx < n
            invariant
                files@ == tsk_fs.spec_files(),
                idx <= n == files@.len(),
                forall|j: int| 0 <= j < idx ==> (#[trigger] files@[j]).inode != inode,
            decreases n - idx,
        {
            if files[idx].inode == inode {
                return Ok(TskFsFile { tsk_fs, file_index: idx });
            }
            idx = idx + 1;
        }
        Err(TskError::lib_tsk_error(
            "there was an error opening the inode: no file with that inode".to_owned(),
        ))
    }

    /// Return the number of attributes in the file: an error when the count
    /// does not fit the engine's signed counter.
    pub fn attr_getsize(&self) -> (r: Result<i32, TskError>)
        ensures
            match r {
                Ok(n) => self.spec_attrs().len() <= i32::MAX && n == self.spec_attrs().len(),
                Err(e) => e.kind == ErrorType::TskFsAttr && self.spec_attrs().len() > i32::MAX,
            },
    {
        let n = self.attr_count_usize();
        if n as u64 <= i32::MAX as u64 {
            Ok(n as i32)
        } else {
            Err(TskError::tsk_attr_error(
                "there was an error getting the attribute count: it does not fit the counter".to_owned(),
            ))
        }
    }

    /// Get the default TskFsAttr for this TskFsFile
    pub fn get_attr(&self) -> (r: Result<TskFsAttr, TskError>)
        ensures
            TskFsAttr::lookup_outcome(*self, self.spec_entry().default_attr as int, r),
    {
        TskFsAttr::from_default(self)
    }

    /// Get the TskFsAttr at a given index for this TskFsFile (note this is
    /// not the id)
    pub fn get_attr_at_index(&self, index: u16) -> (r: Result<TskFsAttr, TskError>)
        ensures
            TskFsAttr::lookup_outcome(*self, index as int, r),
    {
        TskFsAttr::from_index(self, index)
    }

    /// Get an iterator over this file's attribute list; an error when the
    /// list is empty.
    pub fn get_attr_iter<'f>(&'f self) -> (r: Result<TskFsAttrIterator<'f>, TskError>)
        ensures
            match r {
                Ok(it) => {
                    &&& it.spec_file() == *self
                    &&& it.spec_index() == 0
                    &&& self.spec_attrs().len() > 0
                },
                Err(e) => e.kind == ErrorType::TskFsAttr && self.spec_attrs().len() == 0,
            },
    {
        match TskFsAttr::from_index(self, 0) {
            Ok(a) => Ok(a.into_iter()),
            Err(e) => Err(e),
        }
    }

    /// Get the TskFsMeta for this TskFsFile: an error when the engine
    /// reported none.
    pub fn get_meta(&self) -> (r: Result<TskFsMeta, TskError>)
        ensures
            match r {
                Ok(m) => self.spec_meta() == Some(m),
                Err(e) => e.kind == ErrorType::TskFsMeta && self.spec_meta() is None,
            },
    {
        proof {
            use_type_invariant(self);
        }
        match self.tsk_fs.layout_ref().files[self.file_index].meta {
            Some(m) => Ok(m),
            None => Err(TskError::tsk_fs_meta_error(
                "error getting the file's metadata: the engine reported none".to_owned(),
            )),
        }
    }

    /// Get a read handle over one attribute of this file.
    pub fn get_file_handle<'f>(
        &'f self,
        tsk_fs_attr: TskFsAttr<'f>,
        read_flag: u32,
    ) -> (r: Result<TskFsFileHandle<'f>, TskError>)
        ensures
            match r {
                Ok(h) => {
                    &&& h.spec_file() == *self
                    &&& h.spec_attr() == tsk_fs_attr
                    &&& h.spec_offset() == 0
                    &&& h.spec_read_flag() == read_flag
                },
                Err(_) => false,
            },
    {
        TskFsFileHandle::new(self, tsk_fs_attr, read_flag)
    }

    /// Read up to `len` bytes of the file's default attribute from `offset`
    /// onward, clamped at its end: the direct whole-file read path. Fails
    /// when the file has no default attribute or the offset leaves the
    /// content's bounds.
    pub fn read_range(&self, offset: i64, len: usize) -> (r: Result<Vec<u8>, TskError>)
        ensures
            ({
                let attrs = self.spec_attrs();
                let d = self.spec_entry().default_attr as int;
                match r {
                    Ok(bytes) => {
                        &&& d < attrs.len()
                        &&& 0 <= offset <= attrs[d].spec_size()
                        &&& bytes@ == attrs[d].spec_data().subrange(
                            offset as int,
                            offset + read_amount(attrs[d].spec_size(), offset as int, len as int),
                        )
                    },
                    Err(e) => {
                        ||| (e.kind == ErrorType::TskFsAttr && d >= attrs.len())
                        ||| (e.kind == ErrorType::TskFsFile && d < attrs.len() && (offset < 0
                            || offset > attrs[d].spec_size()))
                    },
                }
            }),
    {
        proof {
            use_type_invariant(self);
        }
        let d = self.default_attr_index();
        if d >= self.attr_count_usize() {
            return Err(TskError::tsk_attr_error(
                "there was an error reading the file: it has no default attribute".to_owned(),
            ));
        }
        let rec = self.attr_ref(d);
        proof {
            use_type_invariant(rec);
        }
        let size: u64 = rec.data.len() as u64;
        if offset < 0 || offset as u64 > size {
            return Err(TskError::tsk_fs_file_error(
                "there was an error reading the file: the offset leaves the content".to_owned(),
            ));
        }
        let start: u64 = offset as u64;
        let remaining: u64 = size - start;
        let want: u64 = if len as u64 <= remaining {
            len as u64
        } else {
            remaining
        };
        Ok(copy_range(&rec.data, start as usize, (start + want) as usize))
    }

    /// Copy the file's content — the default attribute's bytes, up to the
    /// metadata-reported size — onto the end of `dest`, reading in
    /// `COPY_CHUNK` windows through `read_range`. Hands back how many bytes
    /// were appended.
    pub fn copy_to(&self, dest: &mut Vec<u8>) -> (r: Result<u64, TskError>)
        ensures
            ({
                let attrs = self.spec_attrs();
                let d = self.spec_entry().default_attr as int;
                match r {
                    Ok(n) => {
                        &&& self.spec_meta() matches Some(m) && d < attrs.len()
                        &&& n == copy_amount(
                            self.spec_meta().unwrap().size as int,
                            attrs[d].spec_size(),
                        )
                        &&& final(dest)@ == old(dest)@ + attrs[d].spec_data().take(n as int)
                    },
                    Err(e) => {
                        &&& final(dest)@ == old(dest)@
                        &&& {
                            ||| (e.kind == ErrorType::TskFsMeta && self.spec_meta() is None)
                            ||| (e.kind == ErrorType::TskFsAttr && d >= attrs.len())
                        }
                    },
                }
            }),
    {
        proof {
            use_type_invariant(self);
        }
        let meta = match self.get_meta() {
            Ok(m) => m,
            Err(e) => {
                return Err(e);
            },
        };
        let d = self.default_attr_index();
        if d >= self.attr_count_usize() {
            return Err(TskError::tsk_attr_error(
                "there was an error copying the file: it has no default attribute".to_owned(),
            ));
        }
        let rec = self.attr_ref(d);
        proof {
            use_type_invariant(rec);
        }
        let attr_size: u64 = rec.data.len() as u64;
        let meta_size: u64 = if meta.size < 0 {
            0
        } else {
            meta.size as u64
        };
        let target: u64 = if meta_size <= attr_size {
            meta_size
        } else {
            attr_size
        };
        let ghost data = self.spec_attrs()[self.spec_entry().default_attr as int].spec_data();
        let mut offset: u64 = 0;
        while offset < target
            invariant
                0 <= offset <= target,
                target == copy_amount(
                    self.spec_meta().unwrap().size as int,
                    self.spec_attrs()[self.spec_entry().default_attr as int].spec_size(),
                ),
                self.spec_entry().default_attr < self.spec_attrs().len(),
                data == self.spec_attrs()[self.spec_entry().default_attr as int].spec_data(),
                target <= data.len(),
                dest@ == old(dest)@ + data.take(offset as int),
            decreases target - offset,
        {
            let room: u64 = target - offset;
            let chunk: usize = if (COPY_CHUNK as u64) <= room {
                COPY_CHUNK
            } else {
                room as usize
            };
            let mut piece = match self.read_range(offset as i64, chunk) {
                Ok(p) => p,
                Err(e) => {
                    // The window stays inside the content, so the read cannot
                    // fail.
                    proof {
                        assert(false);
                    }
                    return Err(e);
                },
            };
            let piece_len = piece.len() as u64;
            dest.append(&mut piece);
            offset = offset + piece_len;
            proof {
                assert(dest@ =~= old(dest)@ + data.take(offset as int));
            }
        }
        proof {
            assert(dest@ == old(dest)@ + data.take(target as int));
        }
        Ok(target)
    }

    pub(crate) fn attr_count_usize(&self) -> (r: usize)
        ensures
            r == self.spec_attrs().len(),
    {
        proof {
            use_type_invariant(self);
        }
        self.tsk_fs.layout_ref().files[self.file_index].attrs.len()
    }

    pub(crate) fn default_attr_index(&self) -> (r: usize)
        ensures
            r == self.spec_entry().default_attr,
    {
        proof {
            use_type_invariant(self);
        }
        self.tsk_fs.layout_ref().files[self.file_index].default_attr
    }

    pub(crate) fn attr_ref(&self, i: usize) -> (r: &AttrRecord)
        requires
            i < self.spec_attrs().len(),
        ensures
            *r == self.spec_attrs()[i as int],
    {
        proof {
            use_type_invariant(self);
        }
        &self.tsk_fs.layout_ref().files[self.file_index].attrs[i]
    }
}

} // verus!
