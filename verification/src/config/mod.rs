//! The plain-text configuration format: its `key=value` document
//! (`loader`), how a document is written back (`writer`), how old documents
//! are carried forward (`migration`), and where the files live (`paths`).

pub mod entries;
pub mod loader;
pub mod writer;
pub mod migration;
pub mod paths;
pub mod file_lock;
