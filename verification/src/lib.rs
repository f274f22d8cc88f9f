//! Verified core of a small file-management tool: bucket-key derivation and
//! planning for organizing a directory's files by extension or by modification
//! date, glob-based name filtering, aggregate statistics, and parsing of the
//! interactive command language. Filesystem access itself stays outside the
//! library; callers hand in snapshots of directory entries and carry out the
//! planned operations.

pub mod text;
pub mod date;
pub mod entry;
pub mod bucket;
pub mod organize;
pub mod stats;
pub mod find;
pub mod repl;
