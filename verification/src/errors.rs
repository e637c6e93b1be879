use vstd::prelude::*;

verus! {

/// The category of a failure, mirroring where in the resource chain it arose.
#[derive(Debug, Clone, Copy, PartialEq, Eq, Structural)]
pub enum ErrorType {
    /// A metadata view was requested but the engine reported none.
    TskFsMeta,
    /// A file operation (open, read) failed.
    TskFsFile,
    /// The engine reported a failure on an open or get call.
    LibTskError,
    /// An attribute lookup by index or id failed.
    TskFsAttr,
    /// A directory name lookup was out of bounds.
    TskFsName,
    /// A directory operation failed.
    TskFsDir,
    /// A seek request would move a cursor outside its bounds.
    SeekRange,
    /// Argument validation failed locally, before reaching the engine.
    Generic,
}

/// A structured error value: a message together with its category.
#[derive(Debug)]
pub struct TskError {
    pub message: String,
    pub kind: ErrorType,
}

impl TskError {
    /// Error function for TskFsDir operations
    pub fn tsk_fs_dir_error(message: String) -> (r: Self)
        ensures
            r.kind == ErrorType::TskFsDir,
            r.message == message,
    {
        Self { message, kind: ErrorType::TskFsDir }
    }

    /// Error function for TskFsName operations
    pub fn tsk_fs_name_error(message: String) -> (r: Self)
        ensures
            r.kind == ErrorType::TskFsName,
            r.message == message,
    {
        Self { message, kind: ErrorType::TskFsName }
    }

    /// Error function for TskFsAttr operations
    pub fn tsk_attr_error(message: String) -> (r: Self)
        ensures
            r.kind == ErrorType::TskFsAttr,
            r.message == message,
    {
        Self { message, kind: ErrorType::TskFsAttr }
    }

    /// A Generic error
    pub fn generic(message: String) -> (r: Self)
        ensures
            r.kind == ErrorType::Generic,
            r.message == message,
    {
        Self { message, kind: ErrorType::Generic }
    }

    /// Error originating from an engine call
    pub fn lib_tsk_error(message: String) -> (r: Self)
        ensures
            r.kind == ErrorType::LibTskError,
            r.message == message,
    {
        Self { message, kind: ErrorType::LibTskError }
    }

    /// Error function for TskFsMeta operations
    pub fn tsk_fs_meta_error(message: String) -> (r: Self)
        ensures
            r.kind == ErrorType::TskFsMeta,
            r.message == message,
    {
        Self { message, kind: ErrorType::TskFsMeta }
    }

    /// Error function for TskFsFile operations
    pub fn tsk_fs_file_error(message: String) -> (r: Self)
        ensures
            r.kind == ErrorType::TskFsFile,
            r.message == message,
    {
        Self { message, kind: ErrorType::TskFsFile }
    }

    /// Error for a seek request that would leave a stream's bounds
    pub fn seek_range_error(message: String) -> (r: Self)
        ensures
            r.kind == ErrorType::SeekRange,
            r.message == message,
    {
        Self { message, kind: ErrorType::SeekRange }
    }
}

} // verus!
