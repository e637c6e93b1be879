use vstd::prelude::*;
use crate::errors::{ErrorType, TskError};
use crate::text::{is_dot, is_dot_dot, join_strings, spec_join};
use crate::tsk_fs_attr::AttrRecord;
use crate::tsk_fs_dir::{iter_remaining, IntoDirNameIter, TskFsDir};
use crate::tsk_fs_file::TskFsFile;
use crate::tsk_fs_meta::TskFsMeta;
use crate::tsk_fs_name::{name_like, TskFsName, NAME_TYPE_DIR};
use crate::tsk_img::TskImg;

verus! {

/// One directory as the engine reports it: its inode, the path it was parsed
/// under, and its array of name entries.
#[derive(Debug)]
pub struct DirEntry {
    pub inode: u64,
    pub path: String,
    pub names: Vec<TskFsName>,
}

/// One file as the engine reports it: its inode, the path it was parsed
/// under, its metadata when the engine has any, the position of its default
/// data attribute in `attrs`, and its attribute list in chain order.
#[derive(Debug)]
pub struct FileEntry {
    pub inode: u64,
    pub path: String,
    pub meta: Option<TskFsMeta>,
    pub default_attr: usize,
    pub attrs: Vec<AttrRecord>,
}

/// The engine's parsed view of one file system: its geometry, its root inode,
/// and the directories and files it decodes.
#[derive(Debug)]
pub struct FsLayout {
    pub block_count: u64,
    pub block_pre_size: u32,
    pub block_post_size: u32,
    pub block_size: u32,
    pub dev_bsize: u32,
    pub first_block: u64,
    pub first_inum: u64,
    pub inum_count: u64,
    pub journ_inum: u64,
    pub last_block: u64,
    pub last_block_act: u64,
    pub last_inum: u64,
    pub root_inum: u64,
    pub dirs: Vec<DirEntry>,
    pub files: Vec<FileEntry>,
}

/// The catalog entry an open at `offset` resolves to: the first whose
/// recorded offset matches.
pub open spec fn fs_entry_at(entries: Seq<(u64, FsLayout)>, offset: u64, i: int) -> bool {
    &&& 0 <= i < entries.len()
    &&& entries[i].0 == offset
    &&& forall|j: int| 0 <= j < i ==> entries[j].0 != offset
}

/// The directory an open by inode resolves to: the first with that inode.
pub open spec fn dir_at(dirs: Seq<DirEntry>, inode: u64, i: int) -> bool {
    &&& 0 <= i < dirs.len()
    &&& dirs[i].inode == inode
    &&& forall|j: int| 0 <= j < i ==> dirs[j].inode != inode
}

/// The directory an open by path resolves to: the first with that path.
pub open spec fn dir_at_path(dirs: Seq<DirEntry>, path: Seq<char>, i: int) -> bool {
    &&& 0 <= i < dirs.len()
    &&& dirs[i].path@ == path
    &&& forall|j: int| 0 <= j < i ==> dirs[j].path@ != path
}

/// The file an open by inode resolves to: the first with that inode.
pub open spec fn file_at(files: Seq<FileEntry>, inode: u64, i: int) -> bool {
    &&& 0 <= i < files.len()
    &&& files[i].inode == inode
    &&& forall|j: int| 0 <= j < i ==> files[j].inode != inode
}

/// The file an open by path resolves to: the first with that path.
pub open spec fn file_at_path(files: Seq<FileEntry>, path: Seq<char>, i: int) -> bool {
    &&& 0 <= i < files.len()
    &&& files[i].path@ == path
    &&& forall|j: int| 0 <= j < i ==> files[j].path@ != path
}

/// A file system opened from an image at a byte offset. Borrows the image, so
/// it can never outlive it.
#[derive(Debug)]
pub struct TskFs<'img> {
    pub(crate) tsk_img: &'img TskImg,
    pub(crate) fs_index: usize,
}

impl<'img> TskFs<'img> {
    #[verifier::type_invariant]
    pub open(crate) spec fn wf(self) -> bool {
        self.fs_index < self.tsk_img.spec_catalog().file_systems@.len()
    }

    /// The image this file system was opened from.
    pub open(crate) spec fn spec_img(self) -> TskImg {
        *self.tsk_img
    }

    /// The catalog index this file system resolved to.
    pub open(crate) spec fn spec_fs_index(self) -> int {
        self.fs_index as int
    }

    /// The layout the engine reported for this file system.
    pub open(crate) spec fn spec_layout(self) -> FsLayout {
        self.tsk_img.spec_catalog().file_systems@[self.fs_index as int].1
    }

    /// The directories the engine decodes for this file system.
    pub open spec fn spec_dirs(self) -> Seq<DirEntry> {
        self.spec_layout().dirs@
    }

    /// The files the engine decodes for this file system.
    pub open spec fn spec_files(self) -> Seq<FileEntry> {
        self.spec_layout().files@
    }

    /// What opening a file system at `offset` in `img` returns: the first
    /// catalog entry at that offset, or an engine error when there is none.
    pub open spec fn open_outcome(img: TskImg, offset: u64, r: Result<TskFs<'img>, TskError>) -> bool {
        let entries = img.spec_catalog().file_systems@;
        match r {
            Ok(fs) => {
                &&& fs.spec_img() == img
                &&& fs_entry_at(entries, offset, fs.spec_fs_index())
            },
            Err(e) => e.kind == ErrorType::LibTskError && forall|i: int|
                0 <= i < entries.len() ==> (#[trigger] entries[i]).0 != offset,
        }
    }

    /// Create a file system wrapper given the TskImg and the byte offset of
    /// the file system inside it.
    pub fn from_fs_offset(tsk_img: &'img TskImg, offset: u64) -> (r: Result<TskFs<'img>, TskError>)
        ensures
            Self::open_outcome(*tsk_img, offset, r),
    {
        match Self::find_entry(&tsk_img.catalog.file_systems, offset) {
            Some(i) => Ok(TskFs { tsk_img, fs_index: i }),
            None => Err(TskError::lib_tsk_error(
                "there was an error opening the fs handle: no file system at the given offset".to_owned(),
            )),
        }
    }

    /// Index of the first catalog entry recorded at `offset`, if any.
    fn find_entry(entries: &Vec<(u64, FsLayout)>, offset: u64) -> (r: Option<usize>)
        ensures
            match r {
                Some(i) => fs_entry_at(entries@, offset, i as int),
                None => forall|i: int|
                    0 <= i < entries@.len() ==> (#[trigger] entries@[i]).0 != offset,
            },
    {
        let n = entries.len();
        let mut idx: usize = 0;
        while idx < n
            invariant
                idx <= n == entries@.len(),
                forall|j: int| 0 <= j < idx ==> (#[trigger] entries@[j]).0 != offset,
            decreases n - idx,
        {
            if entries[idx].0 == offset {
                return Some(idx);
            }
            idx = idx + 1;
        }
        None
    }

    pub(crate) fn layout_ref(&self) -> (r: &FsLayout)
        ensures
            *r == self.spec_layout(),
    {
        proof {
            use_type_invariant(self);
        }
        &self.tsk_img.catalog.file_systems[self.fs_index].1
    }

    /// Open a file by a given path. (use '/' as separators)
    pub fn file_open<'fs>(&'fs self, path: &str) -> (r: Result<TskFsFile<'fs>, TskError>)
        ensures
            TskFsFile::open_path_outcome(*self, path@, r),
    {
        TskFsFile::from_path(self, path)
    }

    /// Open a file by a given inode.
    pub fn file_open_meta<'fs>(&'fs self, inode: u64) -> (r: Result<TskFsFile<'fs>, TskError>)
        ensures
            TskFsFile::open_meta_outcome(*self, inode, r),
    {
        TskFsFile::from_meta(self, inode)
    }

    /// Open a directory by a given path
    pub fn dir_open<'fs>(&'fs self, path: &str) -> (r: Result<TskFsDir<'fs>, TskError>)
        ensures
            TskFsDir::open_path_outcome(*self, path@, r),
    {
        TskFsDir::from_path(self, path)
    }

    /// Open a file name iterator that walks the tree from the root inode.
    pub fn iter_file_names<'fs>(&'fs self) -> (r: Result<FsNameIter<'fs>, TskError>)
        ensures
            FsNameIter::open_outcome(*self, self.spec_layout().root_inum, r),
    {
        let root_inode = self.layout_ref().root_inum;
        FsNameIter::from_inode(self, root_inode)
    }

    /// Open a file name iterator that walks the tree from a given inode.
    pub fn iter_file_names_from_inode<'fs>(&'fs self, inode: u64) -> (r: Result<
        FsNameIter<'fs>,
        TskError,
    >)
        ensures
            FsNameIter::open_outcome(*self, inode, r),
    {
        FsNameIter::from_inode(self, inode)
    }

    /// Open a file name iterator that walks the tree from a given path.
    pub fn iter_file_names_from_path<'fs>(&'fs self, path: &str) -> (r: Result<
        FsNameIter<'fs>,
        TskError,
    >)
        ensures
            FsNameIter::open_path_outcome(*self, path@, r),
    {
        FsNameIter::from_path(self, path)
    }

    /// Number of blocks in fs.
    pub fn block_count(&self) -> (r: u64)
        ensures
            r == self.spec_layout().block_count,
    {
        self.layout_ref().block_count
    }

    /// Number of bytes that precede each block.
    pub fn block_pre_size(&self) -> (r: u32)
        ensures
            r == self.spec_layout().block_pre_size,
    {
        self.layout_ref().block_pre_size
    }

    /// Number of bytes that follow each block.
    pub fn block_post_size(&self) -> (r: u32)
        ensures
            r == self.spec_layout().block_post_size,
    {
        self.layout_ref().block_post_size
    }

    /// Size of each block (in bytes)
    pub fn block_size(&self) -> (r: u32)
        ensures
            r == self.spec_layout().block_size,
    {
        self.layout_ref().block_size
    }

    /// Size of device block (typically always 512)
    pub fn dev_bsize(&self) -> (r: u32)
        ensures
            r == self.spec_layout().dev_bsize,
    {
        self.layout_ref().dev_bsize
    }

    /// Address of first block.
    pub fn first_block(&self) -> (r: u64)
        ensures
            r == self.spec_layout().first_block,
    {
        self.layout_ref().first_block
    }

    /// First valid metadata address.
    pub fn first_inum(&self) -> (r: u64)
        ensures
            r == self.spec_layout().first_inum,
    {
        self.layout_ref().first_inum
    }

    /// Number of metadata addresses.
    pub fn inum_count(&self) -> (r: u64)
        ensures
            r == self.spec_layout().inum_count,
    {
        self.layout_ref().inum_count
    }

    /// Address of journal inode.
    pub fn journ_inum(&self) -> (r: u64)
        ensures
            r == self.spec_layout().journ_inum,
    {
        self.layout_ref().journ_inum
    }

    /// Address of last block as reported by file system.
    pub fn last_block(&self) -> (r: u64)
        ensures
            r == self.spec_layout().last_block,
    {
        self.layout_ref().last_block
    }

    /// Address of last block, adjusted so that it is equal to the last block
    /// in the image or volume (if the image is not complete).
    pub fn last_block_act(&self) -> (r: u64)
        ensures
            r == self.spec_layout().last_block_act,
    {
        self.layout_ref().last_block_act
    }

    /// Last valid metadata address.
    pub fn last_inum(&self) -> (r: u64)
        ensures
            r == self.spec_layout().last_inum,
    {
        self.layout_ref().last_inum
    }

    /// Root metadata address.
    pub fn root_inum(&self) -> (r: u64)
        ensures
            r == self.spec_layout().root_inum,
    {
        self.layout_ref().root_inum
    }
}

/// What is left of a whole iterator stack: the sum of its iterators'
/// remainders. The walk's termination measure.
pub open spec fn stack_remaining<'fs>(s: Seq<IntoDirNameIter<'fs>>) -> nat
    decreases s.len(),
{
    if s.len() == 0 {
        0
    } else {
        stack_remaining(s.drop_last()) + iter_remaining(s.last())
    }
}

proof fn lemma_stack_remaining_push<'fs>(s: Seq<IntoDirNameIter<'fs>>, it: IntoDirNameIter<'fs>)
    ensures
        stack_remaining(s.push(it)) == stack_remaining(s) + iter_remaining(it),
{
    assert(s.push(it).drop_last() =~= s);
    assert(s.push(it).last() == it);
}

/// A depth-first walk over a file system's directory tree, yielding each name
/// entry together with the path of the directory that holds it. The walk
/// keeps an explicit stack of directory iterators, skips the `.` and `..`
/// entries, and silently skips any subdirectory that fails to open — counting
/// the skips — so that corrupted subtrees do not abort the walk.
#[derive(Debug)]
pub struct FsNameIter<'fs> {
    pub(crate) tsk_fs: &'fs TskFs<'fs>,
    pub(crate) dir_iter_stack: Vec<IntoDirNameIter<'fs>>,
    pub(crate) path_stack: Vec<String>,
    pub(crate) skipped: u64,
}

impl<'fs> FsNameIter<'fs> {
    /// Every iterator on the stack walks a directory of this walk's file
    /// system. Constructors establish it and `next` keeps it.
    pub open(crate) spec fn wf(self) -> bool {
        forall|i: int|
            0 <= i < self.dir_iter_stack@.len() ==> (#[trigger] self.dir_iter_stack@[i]).spec_fs()
                == *self.tsk_fs
    }

    /// The file system whose tree is being walked.
    pub open(crate) spec fn spec_fs(self) -> TskFs<'fs> {
        *self.tsk_fs
    }

    /// How many subdirectories failed to open and were skipped so far.
    pub open(crate) spec fn spec_skipped(self) -> u64 {
        self.skipped
    }

    /// How many directory iterators the walk's stack holds.
    pub open(crate) spec fn spec_depth(self) -> int {
        self.dir_iter_stack@.len() as int
    }

    /// The walk's stack of directory iterators, bottom first.
    pub open(crate) spec fn spec_stack(self) -> Seq<IntoDirNameIter<'fs>> {
        self.dir_iter_stack@
    }

    /// The path components of the directories the walk has descended into,
    /// bottom first.
    pub open(crate) spec fn spec_paths(self) -> Seq<Seq<char>> {
        self.path_stack@.map_values(|s: String| s@)
    }

    /// What a freshly opened walk looks like, rooted at the directory at
    /// position `root` of the file system's directory table: one iterator on
    /// the stack, standing at that directory's first name, with an empty path
    /// prefix and no skips.
    pub open spec fn fresh_walk_at(it: FsNameIter<'fs>, fs: TskFs<'fs>, root: int) -> bool {
        &&& it.wf()
        &&& it.spec_fs() == fs
        &&& it.spec_skipped() == 0
        &&& it.spec_depth() == 1
        &&& it.spec_paths().len() == 0
        &&& it.spec_stack()[0].spec_index() == 0
        &&& it.spec_stack()[0].spec_dir().spec_dir_index() == root
    }

    /// What opening a walk at an inode returns: a walk rooted at the first
    /// directory with that inode, or that directory's open error.
    pub open spec fn open_outcome(fs: TskFs<'fs>, inode: u64, r: Result<FsNameIter<'fs>, TskError>) -> bool {
        match r {
            Ok(it) => exists|root: int|
                #[trigger] dir_at(fs.spec_dirs(), inode, root) && Self::fresh_walk_at(
                    it,
                    fs,
                    root,
                ),
            Err(e) => e.kind == ErrorType::LibTskError && forall|i: int|
                0 <= i < fs.spec_dirs().len() ==> (#[trigger] fs.spec_dirs()[i]).inode != inode,
        }
    }

    /// What opening a walk at a path returns, in the same way.
    pub open spec fn open_path_outcome(
        fs: TskFs<'fs>,
        path: Seq<char>,
        r: Result<FsNameIter<'fs>, TskError>,
    ) -> bool {
        match r {
            Ok(it) => exists|root: int|
                #[trigger] dir_at_path(fs.spec_dirs(), path, root) && Self::fresh_walk_at(
                    it,
                    fs,
                    root,
                ),
            Err(e) => {
                ||| (e.kind == ErrorType::Generic && path.contains('\0'))
                ||| (e.kind == ErrorType::LibTskError && forall|i: int|
                    0 <= i < fs.spec_dirs().len() ==> (#[trigger] fs.spec_dirs()[i]).path@ != path)
            },
        }
    }

    /// Open a walk over the tree under the first directory with the given
    /// path.
    pub fn from_path(tsk_fs: &'fs TskFs<'fs>, path: &str) -> (r: Result<FsNameIter<'fs>, TskError>)
        ensures
            Self::open_path_outcome(*tsk_fs, path@, r),
    {
        let dir = match TskFsDir::from_path(tsk_fs, path) {
            Ok(d) => d,
            Err(e) => {
                return Err(e);
            },
        };
        let ghost root = dir.spec_dir_index();
        let mut stack: Vec<IntoDirNameIter<'fs>> = Vec::new();
        stack.push(dir.into_name_iter());
        let it = FsNameIter { tsk_fs, dir_iter_stack: stack, path_stack: Vec::new(), skipped: 0 };
        proof {
            assert(it.spec_paths() =~= Seq::<Seq<char>>::empty());
            assert(dir_at_path(tsk_fs.spec_dirs(), path@, root) && Self::fresh_walk_at(
                it,
                *tsk_fs,
                root,
            ));
        }
        Ok(it)
    }

    /// Open a walk over the tree under the first directory with the given
    /// inode.
    pub fn from_inode(tsk_fs: &'fs TskFs<'fs>, inode: u64) -> (r: Result<FsNameIter<'fs>, TskError>)
        ensures
            Self::open_outcome(*tsk_fs, inode, r),
    {
        let dir = match TskFsDir::from_meta(tsk_fs, inode) {
            Ok(d) => d,
            Err(e) => {
                return Err(e);
            },
        };
        let ghost root = dir.spec_dir_index();
        let mut stack: Vec<IntoDirNameIter<'fs>> = Vec::new();
        stack.push(dir.into_name_iter());
        let it = FsNameIter { tsk_fs, dir_iter_stack: stack, path_stack: Vec::new(), skipped: 0 };
        proof {
            assert(it.spec_paths() =~= Seq::<Seq<char>>::empty());
            assert(dir_at(tsk_fs.spec_dirs(), inode, root) && Self::fresh_walk_at(
                it,
                *tsk_fs,
                root,
            ));
        }
        Ok(it)
    }

    /// How many subdirectories failed to open and were skipped so far.
    pub fn skipped_count(&self) -> (r: u64)
        ensures
            r == self.spec_skipped(),
    {
        self.skipped
    }

    /// Yield the next name entry of the walk, with the path of the directory
    /// holding it, in depth-first order. Every yielded entry is one of the
    /// file system's directory entries; a yielded directory entry is never
    /// named `.` or `..` and always opens — an entry named `.` or `..` is
    /// passed over, and a directory entry whose own open fails is skipped
    /// with its subtree, counted, while the walk goes on. `None` comes only
    /// once the stack is exhausted — or on the engine corner of a directory
    /// entry that carries no name at all.
    pub fn next(&mut self) -> (r: Option<(String, TskFsName)>)
        requires
            old(self).wf(),
        ensures
            final(self).wf(),
            final(self).spec_fs() == old(self).spec_fs(),
            final(self).spec_skipped() >= old(self).spec_skipped(),
            match r {
                Some(yielded) => {
                    &&& exists|d: int, k: int|
                        #![trigger old(self).spec_fs().spec_dirs()[d].names@[k]]
                        {
                            &&& 0 <= d < old(self).spec_fs().spec_dirs().len()
                            &&& 0 <= k < old(self).spec_fs().spec_dirs()[d].names@.len()
                            &&& name_like(yielded.1, old(self).spec_fs().spec_dirs()[d].names@[k])
                        }
                    &&& (yielded.1.name_type == NAME_TYPE_DIR ==> (yielded.1.name matches Some(s)
                        && s@ != seq!['.'] && s@ != seq!['.', '.']))
                    &&& (yielded.1.name_type != NAME_TYPE_DIR ==> {
                        let top = final(self).spec_stack().last();
                        &&& final(self).spec_depth() >= 1
                        &&& yielded.0@ == spec_join(final(self).spec_paths(), seq!['/'])
                        &&& top.spec_index() >= 1
                        &&& name_like(
                            yielded.1,
                            top.spec_dir().spec_names()[top.spec_index() - 1],
                        )
                    })
                    &&& (yielded.1.name_type == NAME_TYPE_DIR ==> {
                        let parent = final(self).spec_stack()[final(self).spec_depth() - 2];
                        let child = final(self).spec_stack().last();
                        &&& final(self).spec_depth() >= 2
                        &&& final(self).spec_paths().len() >= 1
                        &&& yielded.0@ == spec_join(
                            final(self).spec_paths().drop_last(),
                            seq!['/'],
                        )
                        &&& (yielded.1.name matches Some(s) && final(self).spec_paths().last()
                            == s@)
                        &&& parent.spec_index() >= 1
                        &&& name_like(
                            yielded.1,
                            parent.spec_dir().spec_names()[parent.spec_index() - 1],
                        )
                        &&& child.spec_index() == 0
                        &&& dir_at(
                            old(self).spec_fs().spec_dirs(),
                            yielded.1.meta_addr,
                            child.spec_dir().spec_dir_index(),
                        )
                    })
                },
                None => final(self).spec_depth() == 0 || exists|d: int, k: int|
                    #![trigger old(self).spec_fs().spec_dirs()[d].names@[k]]
                    {
                        &&& 0 <= d < old(self).spec_fs().spec_dirs().len()
                        &&& 0 <= k < old(self).spec_fs().spec_dirs()[d].names@.len()
                        &&& old(self).spec_fs().spec_dirs()[d].names@[k].name_type == NAME_TYPE_DIR
                        &&& old(self).spec_fs().spec_dirs()[d].names@[k].name is None
                    },
            },
    {
        loop
            invariant
                self.wf(),
                self.tsk_fs == old(self).tsk_fs,
                self.skipped >= old(self).skipped,
            decreases stack_remaining(self.dir_iter_stack@), self.dir_iter_stack@.len(),
        {
            let ghost s0 = self.dir_iter_stack@;
            let depth = self.dir_iter_stack.len();
            if depth == 0 {
                return None;
            }
            let mut current_dir_itr = match self.dir_iter_stack.pop() {
                Some(it) => it,
                None => {
                    return None;
                },
            };
            let ghost pre_itr = current_dir_itr;
            proof {
                assert(s0.drop_last() == self.dir_iter_stack@);
                assert(stack_remaining(s0) == stack_remaining(s0.drop_last()) + iter_remaining(
                    s0.last(),
                ));
            }
            match current_dir_itr.next() {
                Some(tsk_fn) => {
                    proof {
                        lemma_stack_remaining_push(self.dir_iter_stack@, current_dir_itr);
                    }
                    self.dir_iter_stack.push(current_dir_itr);
                    proof {
                        assert(stack_remaining(self.dir_iter_stack@) < stack_remaining(s0));
                    }
                    if tsk_fn.is_dir() {
                        let file_name = match tsk_fn.name() {
                            Some(n) => n,
                            None => {
                                proof {
                                    let d = pre_itr.spec_dir().spec_dir_index();
                                    let k = pre_itr.spec_index();
                                    assert(old(self).spec_fs().spec_dirs()[d].names@[k]
                                        == pre_itr.spec_dir().spec_names()[k]);
                                    assert(name_like(
                                        tsk_fn,
                                        old(self).spec_fs().spec_dirs()[d].names@[k],
                                    ));
                                }
                                return None;
                            },
                        };
                        if is_dot(&file_name) || is_dot_dot(&file_name) {
                            continue;
                        }
                        match TskFsDir::from_meta(self.tsk_fs, tsk_fn.get_inode()) {
                            Ok(tsk_fs_dir) => {
                                let new_dir_iter = tsk_fs_dir.into_name_iter();
                                self.dir_iter_stack.push(new_dir_iter);
                                let ghost pre_paths = self.spec_paths();
                                let path = join_strings(&self.path_stack, "/");
                                self.path_stack.push(file_name);
                                proof {
                                    let d = pre_itr.spec_dir().spec_dir_index();
                                    let k = pre_itr.spec_index();
                                    assert(old(self).spec_fs().spec_dirs()[d].names@[k]
                                        == pre_itr.spec_dir().spec_names()[k]);
                                    assert(name_like(
                                        tsk_fn,
                                        old(self).spec_fs().spec_dirs()[d].names@[k],
                                    ));
                                    reveal_strlit("/");
                                    assert("/"@ =~= seq!['/']);
                                    assert(self.spec_paths().drop_last() =~= pre_paths);
                                    assert(self.spec_paths().last() == file_name@);
                                }
                                return Some((path, tsk_fn));
                            },
                            Err(_e) => {
                                if self.skipped < u64::MAX {
                                    self.skipped = self.skipped + 1;
                                }
                                continue;
                            },
                        }
                    } else {
                        let path = join_strings(&self.path_stack, "/");
                        proof {
                            let d = pre_itr.spec_dir().spec_dir_index();
                            let k = pre_itr.spec_index();
                            assert(old(self).spec_fs().spec_dirs()[d].names@[k]
                                == pre_itr.spec_dir().spec_names()[k]);
                            assert(name_like(
                                tsk_fn,
                                old(self).spec_fs().spec_dirs()[d].names@[k],
                            ));
                            reveal_strlit("/");
                            assert("/"@ =~= seq!['/']);
                        }
                        return Some((path, tsk_fn));
                    }
                },
                None => {
                    proof {
                        assert(iter_remaining(s0.last()) == 0);
                    }
                    self.path_stack.pop();
                },
            }
        }
    }
}

} // verus!
