//! Parsing of NTFS on-disk structures: File Records of the Master File Table
//! and the Index Entries that make up the nodes of an index B+tree.
//!
//! Every read goes through a reader that is handed in per call and borrowed
//! only for that call: a byte slice whose indices are the offsets of the
//! structure's byte range.
pub mod attribute;
pub mod attribute_value;
pub mod bytes;
pub mod error;
pub mod index_entry;
pub mod ntfs_file;
pub mod structured_values;
pub mod traversal;
