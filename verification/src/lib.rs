//! Decisions of an archive extractor: which decoder a file name selects, how a
//! password may be supplied, and how the answer of a foreign decoder is read.
//!
//! Nothing here touches the file system or a terminal. A caller reads the
//! arguments, the file name and the typed line, asks this crate what to do with
//! them, and performs the work.
pub mod error;
pub mod extension;
pub mod foreign;
pub mod password;
pub mod plan;
pub mod text;
