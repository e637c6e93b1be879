use vstd::prelude::*;
use crate::errors::{ErrorType, TskError};
use crate::text::{contains_nul, str_eq};
use crate::tsk_fs::{dir_at, dir_at_path, DirEntry, TskFs};
use crate::tsk_fs_name::{clone_name, name_like, TskFsName};

verus! {

/// A directory opened from a file system, by inode or by path. Borrows the
/// file system, so it can never outlive it.
#[derive(Debug)]
pub struct TskFsDir<'fs> {
    pub(crate) tsk_fs: &'fs TskFs<'fs>,
    pub(crate) dir_index: usize,
}

impl<'fs> TskFsDir<'fs> {
    #[verifier::type_invariant]
    pub open(crate) spec fn wf(self) -> bool {
        self.dir_index < self.tsk_fs.spec_dirs().len()
    }

    /// The file system this directory belongs to.
    pub open(crate) spec fn spec_fs(self) -> TskFs<'fs> {
        *self.tsk_fs
    }

    /// The position of this directory among the file system's directories.
    pub open(crate) spec fn spec_dir_index(self) -> int {
        self.dir_index as int
    }

    /// The entry this directory is a view of.
    pub open spec fn spec_entry(self) -> DirEntry {
        self.spec_fs().spec_dirs()[self.spec_dir_index()]
    }

    /// The directory's name entries. Their count is the directory's "names
    /// used" figure.
    pub open spec fn spec_names(self) -> Seq<TskFsName> {
        self.spec_entry().names@
    }

    /// What opening a directory by inode returns: the first directory with
    /// that inode, or an engine error when there is none.
    pub open spec fn open_meta_outcome(
        fs: TskFs<'fs>,
        inode: u64,
        r: Result<TskFsDir<'fs>, TskError>,
    ) -> bool {
        match r {
            Ok(d) => d.spec_fs() == fs && dir_at(fs.spec_dirs(), inode, d.spec_dir_index()),
            Err(e) => e.kind == ErrorType::LibTskError && forall|i: int|
                0 <= i < fs.spec_dirs().len() ==> (#[trigger] fs.spec_dirs()[i]).inode != inode,
        }
    }

    /// What opening a directory by path returns: a `Generic` error for a path
    /// the engine cannot take (an embedded null), else the first directory
    /// with that path, or an engine error when there is none.
    pub open spec fn open_path_outcome(
        fs: TskFs<'fs>,
        path: Seq<char>,
        r: Result<TskFsDir<'fs>, TskError>,
    ) -> bool {
        match r {
            Ok(d) => {
                &&& d.spec_fs() == fs
                &&& dir_at_path(fs.spec_dirs(), path, d.spec_dir_index())
                &&& !path.contains('\0')
            },
            Err(e) => {
                ||| (e.kind == ErrorType::Generic && path.contains('\0'))
                ||| (e.kind == ErrorType::LibTskError && !path.contains('\0') && forall|i: int|
                    0 <= i < fs.spec_dirs().len() ==> (#[trigger] fs.spec_dirs()[i]).path@ != path)
            },
        }
    }

    /// Create a directory wrapper given TskFs and inode
    pub fn from_meta(tsk_fs: &'fs TskFs<'fs>, inode: u64) -> (r: Result<TskFsDir<'fs>, TskError>)
        ensures
            Self::open_meta_outcome(*tsk_fs, inode, r),
    {
        let dirs = &tsk_fs.layout_ref().dirs;
        let n = dirs.len();
        let mut idx: usize = 0;
        while idx < n
            invariant
                dirs@ == tsk_fs.spec_dirs(),
                idx <= n == dirs@.len(),
                forall|j: int| 0 <= j < idx ==> (#[trigger] dirs@[j]).inode != inode,
            decreases n - idx,
        {
            if dirs[idx].inode == inode {
                return Ok(TskFsDir { tsk_fs, dir_index: idx });
            }
            idx = idx + 1;
        }
        Err(TskError::lib_tsk_error(
            "there was an error opening the inode as a dir: no directory with that inode".to_owned(),
        ))
    }

    /// Create a directory wrapper given TskFs and a path (use '/' as
    /// separators)
    pub fn from_path(tsk_fs: &'fs TskFs<'fs>, path: &str) -> (r: Result<TskFsDir<'fs>, TskError>)
        ensures
            Self::open_path_outcome(*tsk_fs, path@, r),
    {
        if contains_nul(path) {
            return Err(TskError::generic(
                "unable to pass the path to the engine: it holds an embedded null".to_owned(),
            ));
        }
        let dirs = &tsk_fs.layout_ref().dirs;
        let n = dirs.len();
        let mut idx: usize = 0;
        while idx < n
            invariant
                dirs@ == tsk_fs.spec_dirs(),
                idx <= n == dirs@.len(),
                !path@.contains('\0'),
                forall|j: int| 0 <= j < idx ==> (#[trigger] dirs@[j]).path@ != path@,
            decreases n - idx,
        {
            if str_eq(dirs[idx].path.as_str(), path) {
                return Ok(TskFsDir { tsk_fs, dir_index: idx });
            }
            idx = idx + 1;
        }
        Err(TskError::lib_tsk_error(
            "there was an error opening the path as a dir: no directory with that path".to_owned(),
        ))
    }

    /// Get the name entry at a given index: an error — not an empty result —
    /// when the index is at or past the directory's "names used" count.
    pub fn get_name(&self, index: u64) -> (r: Result<TskFsName, TskError>)
        ensures
            match r {
                Ok(name) => index < self.spec_names().len() && name_like(
                    name,
                    self.spec_names()[index as int],
                ),
                Err(e) => e.kind == ErrorType::TskFsName && index >= self.spec_names().len(),
            },
    {
        proof {
            use_type_invariant(self);
        }
        let names = &self.tsk_fs.layout_ref().dirs[self.dir_index].names;
        if index < names.len() as u64 {
            Ok(clone_name(&names[index as usize]))
        } else {
            Err(TskError::tsk_fs_name_error(
                "error getting the name: the index is at or past the names used count".to_owned(),
            ))
        }
    }

    /// Get an iterator over this directory's name entries.
    pub fn get_name_iter<'d>(&'d self) -> (r: DirNameIter<'d>)
        ensures
            r.spec_dir() == *self,
            r.spec_index() == 0,
    {
        DirNameIter { tsk_fs_dir: self, index: 0 }
    }

    /// Turn this directory into an iterator over its name entries.
    pub fn into_name_iter(self) -> (r: IntoDirNameIter<'fs>)
        ensures
            r.spec_dir() == self,
            r.spec_index() == 0,
    {
        IntoDirNameIter { tsk_fs_dir: self, index: 0 }
    }
}

/// What is left of an owning name iterator: the names it has not yielded yet.
pub open spec fn iter_remaining<'fs>(it: IntoDirNameIter<'fs>) -> nat {
    let len = it.spec_dir().spec_names().len();
    if it.spec_index() >= len {
        0
    } else {
        (len - it.spec_index()) as nat
    }
}

/// What is left of a borrowing name iterator, in the same way.
pub open spec fn dir_iter_remaining<'d>(it: DirNameIter<'d>) -> nat {
    let len = it.spec_dir().spec_names().len();
    if it.spec_index() >= len {
        0
    } else {
        (len - it.spec_index()) as nat
    }
}

/// An iterator over a directory's name array that owns its directory view:
/// index 0 up to the directory's "names used" count.
#[derive(Debug)]
pub struct IntoDirNameIter<'fs> {
    pub(crate) tsk_fs_dir: TskFsDir<'fs>,
    pub(crate) index: usize,
}

impl<'fs> IntoDirNameIter<'fs> {
    /// The directory whose names are being yielded.
    pub open(crate) spec fn spec_dir(self) -> TskFsDir<'fs> {
        self.tsk_fs_dir
    }

    /// The file system that directory belongs to.
    pub open spec fn spec_fs(self) -> TskFs<'fs> {
        self.spec_dir().spec_fs()
    }

    /// The position of the next name to yield.
    pub open(crate) spec fn spec_index(self) -> int {
        self.index as int
    }

    /// Yield the name entry at the current position and advance by one;
    /// `None` exactly when the count of names used is reached. Entries come
    /// back in array order, one each — every yield lowers the remainder by
    /// exactly one and `None` comes exactly at remainder zero, so a walk from
    /// position zero yields exactly the directory's "names used" count of
    /// entries, and position `i` matches `get_name(i)`.
    pub fn next(&mut self) -> (r: Option<TskFsName>)
        ensures
            final(self).spec_dir() == old(self).spec_dir(),
            0 <= old(self).spec_dir().spec_dir_index() < old(self).spec_fs().spec_dirs().len(),
            match r {
                Some(name) => {
                    &&& old(self).spec_index() < old(self).spec_dir().spec_names().len()
                    &&& name_like(name, old(self).spec_dir().spec_names()[old(self).spec_index()])
                    &&& final(self).spec_index() == old(self).spec_index() + 1
                    &&& iter_remaining(*final(self)) + 1 == iter_remaining(*old(self))
                },
                None => {
                    &&& old(self).spec_index() >= old(self).spec_dir().spec_names().len()
                    &&& final(self).spec_index() == old(self).spec_index()
                    &&& iter_remaining(*old(self)) == 0
                },
            },
    {
        proof {
            use_type_invariant(&self.tsk_fs_dir);
        }
        let dir = &self.tsk_fs_dir;
        let names = &dir.tsk_fs.layout_ref().dirs[dir.dir_index].names;
        if self.index < names.len() {
            let name = clone_name(&names[self.index]);
            self.index = self.index + 1;
            Some(name)
        } else {
            None
        }
    }
}

/// An iterator over a directory's name array that borrows its directory:
/// index 0 up to the directory's "names used" count.
#[derive(Debug)]
pub struct DirNameIter<'d> {
    pub(crate) tsk_fs_dir: &'d TskFsDir<'d>,
    pub(crate) index: usize,
}

impl<'d> DirNameIter<'d> {
    /// The directory whose names are being yielded.
    pub open(crate) spec fn spec_dir(self) -> TskFsDir<'d> {
        *self.tsk_fs_dir
    }

    /// The position of the next name to yield.
    pub open(crate) spec fn spec_index(self) -> int {
        self.index as int
    }

    /// The directory this iterator walks.
    pub fn get_dir(&self) -> (r: &'d TskFsDir<'d>)
        ensures
            *r == self.spec_dir(),
    {
        self.tsk_fs_dir
    }

    /// Yield the name entry at the current position and advance by one;
    /// `None` exactly when the count of names used is reached. Every yield
    /// lowers the remainder by exactly one and `None` comes exactly at
    /// remainder zero, so a walk from position zero yields exactly the
    /// directory's "names used" count of entries, in array order.
    pub fn next(&mut self) -> (r: Option<TskFsName>)
        ensures
            final(self).spec_dir() == old(self).spec_dir(),
            match r {
                Some(name) => {
                    &&& old(self).spec_index() < old(self).spec_dir().spec_names().len()
                    &&& name_like(name, old(self).spec_dir().spec_names()[old(self).spec_index()])
                    &&& final(self).spec_index() == old(self).spec_index() + 1
                    &&& dir_iter_remaining(*final(self)) + 1 == dir_iter_remaining(*old(self))
                },
                None => {
                    &&& old(self).spec_index() >= old(self).spec_dir().spec_names().len()
                    &&& final(self).spec_index() == old(self).spec_index()
                    &&& dir_iter_remaining(*old(self)) == 0
                },
            },
    {
        proof {
            use_type_invariant(self.tsk_fs_dir);
        }
        let dir = self.tsk_fs_dir;
        let names = &dir.tsk_fs.layout_ref().dirs[dir.dir_index].names;
        if self.index < names.len() {
            let name = clone_name(&names[self.index]);
            self.index = self.index + 1;
            Some(name)
        } else {
            None
        }
    }
}

} // verus!
