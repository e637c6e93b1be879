//! Safe, verified access to a forensic disk-image / volume / file-system
//! object graph.
//!
//! The parsing engine that decodes volume tables and file-system metadata is
//! out of scope: this crate takes the engine's parsed results as plain values
//! (a catalog of volume-system and file-system layouts, attached to the raw
//! image bytes) and provides the resource chain on top of them — partitions,
//! files, directories, attributes — together with bounded seek/read streams,
//! lazy iteration, and a structured error taxonomy.
//!
//! Every child in the chain borrows its parent — a partition its volume
//! system, a file its file system, a file system its image — so the borrow
//! checker makes it a compile-time error to keep a child past its parent, and
//! a whole chain is confined to one logical owner at a time. Views own no
//! resource of their own and streams hold only an integer cursor.

/// Error handling for this crate
pub mod errors;
/// Bounded-stream primitives: seek resolution, read clamping, byte copies
pub mod stream;
/// String helpers shared by paths and flag formatting
pub mod text;
/// Wrapper for file metadata
pub mod tsk_fs_meta;
/// Wrapper for directory name entries
pub mod tsk_fs_name;
/// Wrapper for a file system and the tree walk over it
pub mod tsk_fs;
/// Wrapper for a directory and its name iterators
pub mod tsk_fs_dir;
/// Wrapper for a file
pub mod tsk_fs_file;
/// A bounded read/seek stream over a file's attribute
pub mod tsk_fs_file_handle;
/// Wrapper for attributes, their runs and iterators
pub mod tsk_fs_attr;
/// The image at the root of the resource chain
pub mod tsk_img;
/// The external-source adapter: any seekable byte source as an image
pub mod tsk_img_reader;
/// Wrapper for a volume system
pub mod tsk_vs;
/// Wrapper for one partition of a volume system
pub mod tsk_vs_part;
/// A bounded read/seek stream over a partition
pub mod tsk_vs_part_handle;
