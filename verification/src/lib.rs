//! Renders a directory walk as a labelled tree and counts what it saw.
//!
//! The library receives plain walk entries (depth, kind, name, and for
//! symlinks the resolved target text), folds them into a `ptree` tree
//! builder while keeping directory / file / symlink counts, and renders
//! the closing summary line.  Reading the filesystem, parsing arguments
//! and printing belong to the surrounding binary.

pub mod digits;
pub mod counts;
pub mod entry;
pub mod text;
pub mod tree;
pub mod fold;
pub mod select;
