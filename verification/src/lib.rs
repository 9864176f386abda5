//! A relational store exposed as a hierarchical filesystem.
//!
//! Directory and file metadata, the directory tree and file contents all live
//! in three SQLite tables (`Inode`, `Path`, `Page`); every filesystem request
//! is answered by translating it into SQL against those tables. The SQL calls
//! stand behind a small trusted layer in [`store`]; everything that decides or
//! computes — attribute assembly, path resolution, content assembly, the
//! get-or-create protocol for directory creation — is verified against a
//! mathematical model of the three tables.

pub mod attrs;
pub mod model;
pub mod store;
pub mod fs;
pub mod laws;

pub use attrs::DirectoryEntry;
pub use attrs::FileAttr;
pub use attrs::FileKind;
pub use attrs::FsError;
pub use attrs::InodeRow;
pub use attrs::Timestamp;
pub use fs::BasicFilesystem;
pub use fs::Elkridge;
