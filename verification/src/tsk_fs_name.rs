use vstd::prelude::*;
use crate::text::clone_opt_string;

verus! {

/// Name entry type code: unknown.
pub const NAME_TYPE_UNDEF: u32 = 0;

/// Name entry type code: directory.
pub const NAME_TYPE_DIR: u32 = 3;

/// Name entry type code: regular file.
pub const NAME_TYPE_REG: u32 = 5;

/// Presence and character-for-character agreement of two optional strings.
pub open spec fn opt_str_like(a: Option<String>, b: Option<String>) -> bool {
    match (a, b) {
        (Some(x), Some(y)) => x@ == y@,
        (None, None) => true,
        _ => false,
    }
}

/// Field-for-field agreement of two name entries, comparing the strings by
/// their characters.
pub open spec fn name_like(a: TskFsName, b: TskFsName) -> bool {
    &&& opt_str_like(a.name, b.name)
    &&& opt_str_like(a.shrt_name, b.shrt_name)
    &&& a.meta_addr == b.meta_addr
    &&& a.name_type == b.name_type
    &&& a.flags == b.flags
}

/// Copy a name entry.
pub(crate) fn clone_name(src: &TskFsName) -> (r: TskFsName)
    ensures
        name_like(r, *src),
{
    TskFsName {
        name: clone_opt_string(&src.name),
        shrt_name: clone_opt_string(&src.shrt_name),
        meta_addr: src.meta_addr,
        name_type: src.name_type,
        flags: src.flags,
    }
}

/// One slot of a directory's name array: the display name, the short name,
/// the inode the entry points at, its raw type code and raw flag word.
#[derive(Debug, Clone)]
pub struct TskFsName {
    pub name: Option<String>,
    pub shrt_name: Option<String>,
    pub meta_addr: u64,
    pub name_type: u32,
    pub flags: u32,
}

impl TskFsName {
    /// TskFsName represents a directory file
    pub fn is_dir(&self) -> (r: bool)
        ensures
            r == (self.name_type == NAME_TYPE_DIR),
    {
        self.name_type == NAME_TYPE_DIR
    }

    /// Get the inode for this name entry
    pub fn get_inode(&self) -> (r: u64)
        ensures
            r == self.meta_addr,
    {
        self.meta_addr
    }

    /// Get the name of the entry if available
    pub fn name(&self) -> (r: Option<String>)
        ensures
            r is Some <==> self.name is Some,
            r matches Some(s) ==> self.name matches Some(t) && s@ == t@,
    {
        clone_opt_string(&self.name)
    }

    /// Get the short name of the entry if available
    pub fn shrt_name(&self) -> (r: Option<String>)
        ensures
            r is Some <==> self.shrt_name is Some,
            r matches Some(s) ==> self.shrt_name matches Some(t) && s@ == t@,
    {
        clone_opt_string(&self.shrt_name)
    }
}

} // verus!
