use vstd::prelude::*;

verus! {

/// Metadata flag: the inode is allocated.
pub const META_FLAG_ALLOC: u32 = 0x01;

/// Metadata flag: the inode is unallocated.
pub const META_FLAG_UNALLOC: u32 = 0x02;

/// Metadata flag: the inode slot is in use.
pub const META_FLAG_USED: u32 = 0x04;

/// Metadata flag: the inode slot is not in use.
pub const META_FLAG_UNUSED: u32 = 0x08;

/// Metadata flag: the content is compressed.
pub const META_FLAG_COMP: u32 = 0x10;

/// Metadata flag: the inode is orphaned (no name points at it).
pub const META_FLAG_ORPHAN: u32 = 0x20;

/// Metadata type code: unknown.
pub const META_TYPE_UNDEF: u32 = 0;

/// Metadata type code: a regular file.
pub const META_TYPE_REG: u32 = 1;

/// Metadata type code: a directory.
pub const META_TYPE_DIR: u32 = 2;

/// A named metadata flag, decoded from the raw flag word.
#[derive(Debug, Clone, Copy, PartialEq, Eq, Structural)]
pub enum TskFsMetaFlag {
    Alloc,
    Unalloc,
    Used,
    Unused,
    Comp,
    Orphan,
}

/// The file metadata the engine reports for an inode: size, timestamps
/// (epoch seconds), address, raw type code and raw flag word.
#[derive(Debug, Clone, Copy, PartialEq, Eq, Structural)]
pub struct TskFsMeta {
    pub size: i64,
    pub crtime: i64,
    pub mtime: i64,
    pub atime: i64,
    pub addr: u64,
    pub meta_type: u32,
    pub flags: u32,
}

/// The decoded flag list: the first named bit found set, checked in the
/// fixed order alloc, unalloc, used, unused, compressed, orphan.
pub open spec fn spec_meta_flags(flags: u32) -> Seq<TskFsMetaFlag> {
    if flags & META_FLAG_ALLOC != 0 {
        seq![TskFsMetaFlag::Alloc]
    } else if flags & META_FLAG_UNALLOC != 0 {
        seq![TskFsMetaFlag::Unalloc]
    } else if flags & META_FLAG_USED != 0 {
        seq![TskFsMetaFlag::Used]
    } else if flags & META_FLAG_UNUSED != 0 {
        seq![TskFsMetaFlag::Unused]
    } else if flags & META_FLAG_COMP != 0 {
        seq![TskFsMetaFlag::Comp]
    } else if flags & META_FLAG_ORPHAN != 0 {
        seq![TskFsMetaFlag::Orphan]
    } else {
        Seq::empty()
    }
}

impl TskFsMeta {
    /// Get the size of the file
    pub fn size(&self) -> (r: i64)
        ensures
            r == self.size,
    {
        self.size
    }

    /// Get the creation time of the file (epoch time)
    pub fn crtime(&self) -> (r: i64)
        ensures
            r == self.crtime,
    {
        self.crtime
    }

    /// Get the modification time of the file (epoch time)
    pub fn mtime(&self) -> (r: i64)
        ensures
            r == self.mtime,
    {
        self.mtime
    }

    /// Get the access time of the file (epoch time)
    pub fn atime(&self) -> (r: i64)
        ensures
            r == self.atime,
    {
        self.atime
    }

    /// Get the inode
    pub fn addr(&self) -> (r: u64)
        ensures
            r == self.addr,
    {
        self.addr
    }

    /// Get the raw type code
    pub fn meta_type(&self) -> (r: u32)
        ensures
            r == self.meta_type,
    {
        self.meta_type
    }

    /// Get flags
    pub fn flags(&self) -> (r: Vec<TskFsMetaFlag>)
        ensures
            r@ == spec_meta_flags(self.flags),
    {
        let mut flags: Vec<TskFsMetaFlag> = Vec::new();
        if self.flags & META_FLAG_ALLOC != 0 {
            flags.push(TskFsMetaFlag::Alloc);
        } else if self.flags & META_FLAG_UNALLOC != 0 {
            flags.push(TskFsMetaFlag::Unalloc);
        } else if self.flags & META_FLAG_USED != 0 {
            flags.push(TskFsMetaFlag::Used);
        } else if self.flags & META_FLAG_UNUSED != 0 {
            flags.push(TskFsMetaFlag::Unused);
        } else if self.flags & META_FLAG_COMP != 0 {
            flags.push(TskFsMetaFlag::Comp);
        } else if self.flags & META_FLAG_ORPHAN != 0 {
            flags.push(TskFsMetaFlag::Orphan);
        }
        proof {
            assert(flags@ =~= spec_meta_flags(self.flags));
        }
        flags
    }

    /// Directory check: true exactly when the type code names a directory.
    pub fn is_directory(&self) -> (r: bool)
        ensures
            r == (self.meta_type == META_TYPE_DIR),
    {
        self.meta_type == META_TYPE_DIR
    }

    /// Allocation check: true exactly when the decoded flag list carries
    /// the unallocated flag.
    pub fn is_unallocated(&self) -> (r: bool)
        ensures
            r == spec_meta_flags(self.flags).contains(TskFsMetaFlag::Unalloc),
            r == (self.flags & META_FLAG_UNALLOC != 0 && self.flags & META_FLAG_ALLOC == 0),
    {
        proof {
            if self.flags & META_FLAG_UNALLOC != 0 && self.flags & META_FLAG_ALLOC == 0 {
                assert(spec_meta_flags(self.flags)[0] == TskFsMetaFlag::Unalloc);
            }
        }
        self.flags & META_FLAG_UNALLOC != 0 && self.flags & META_FLAG_ALLOC == 0
    }
}

} // verus!
