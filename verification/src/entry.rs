//! Classification of walk entries.

use vstd::prelude::*;

verus! {

/// The four classes a traversed entry falls into.
#[derive(Debug, Clone, Copy, PartialEq, Eq, Structural)]
pub enum FileType {
    Directory,
    File,
    Symlink,
    Other,
}

/// The class chosen from the three tests the filesystem offers,
/// in the order directory, file, symlink; anything else is `Other`.
pub open spec fn spec_classify(is_dir: bool, is_file: bool, is_symlink: bool) -> FileType {
    if is_dir {
        FileType::Directory
    } else if is_file {
        FileType::File
    } else if is_symlink {
        FileType::Symlink
    } else {
        FileType::Other
    }
}

impl FileType {
    /// Classifies an entry from the answers of the filesystem's
    /// `is_dir` / `is_file` / `is_symlink` tests.
    pub fn from_flags(is_dir: bool, is_file: bool, is_symlink: bool) -> (t: FileType)
        ensures
            t == spec_classify(is_dir, is_file, is_symlink),
    {
        if is_dir {
            FileType::Directory
        } else if is_file {
            FileType::File
        } else if is_symlink {
            FileType::Symlink
        } else {
            FileType::Other
        }
    }
}

/// What the walk reports of one entry, reduced to plain values.
///
/// `Opaque` stands for an entry whose type the walk could not name.
/// A symlink whose target could not be read carries `None`; such an
/// entry still closes tree levels but adds no node and no count.
#[derive(Debug, PartialEq, Eq)]
pub enum EntryData {
    Opaque,
    Dir { name: String },
    File { name: String },
    Symlink { name: String, target: Option<String> },
    Other { name: String },
}

} // verus!
