//! The three counters and the closing summary line.

use vstd::prelude::*;
use vstd::string::StringExecFns;
use crate::digits::{spec_decimal, format_u64};

verus! {

/// How many directories, files and symlinks the walk has seen.
/// Symlinks are counted twice over: once as files, once as symlinks.
#[derive(Debug, Clone, Copy, PartialEq, Eq, Structural)]
pub struct Counts {
    pub dirs: u64,
    pub files: u64,
    pub symlinks: u64,
}

pub open spec fn seq_directories_sep() -> Seq<char> {
    seq![' ', 'd', 'i', 'r', 'e', 'c', 't', 'o', 'r', 'i', 'e', 's', ',', ' ']
}

pub open spec fn seq_files_word() -> Seq<char> {
    seq![' ', 'f', 'i', 'l', 'e', 's']
}

pub open spec fn seq_comma_sep() -> Seq<char> {
    seq![',', ' ']
}

pub open spec fn seq_symlinks_word() -> Seq<char> {
    seq![' ', 's', 'y', 'm', 'l', 'i', 'n', 'k', 's']
}

/// The text of the summary line: `<dirs> directories, <files> files`,
/// and a `, <symlinks> symlinks` clause exactly when at least one
/// symlink was counted.
pub open spec fn spec_summary(dirs: nat, files: nat, symlinks: nat) -> Seq<char> {
    spec_decimal(dirs) + seq_directories_sep() + spec_decimal(files) + seq_files_word() + (if
    symlinks > 0 {
        seq_comma_sep() + spec_decimal(symlinks) + seq_symlinks_word()
    } else {
        Seq::<char>::empty()
    })
}

impl Counts {
    /// A fresh, all-zero set of counters.
    pub fn new() -> (c: Counts)
        ensures
            c == (Counts { dirs: 0, files: 0, symlinks: 0 }),
    {
        Counts { dirs: 0, files: 0, symlinks: 0 }
    }

    /// Renders the summary line for these counters.
    pub fn summary_line(&self) -> (s: String)
        ensures
            s@ == spec_summary(self.dirs as nat, self.files as nat, self.symlinks as nat),
    {
        proof {
            reveal_strlit(" directories, ");
            reveal_strlit(" files");
            reveal_strlit(", ");
            reveal_strlit(" symlinks");
            assert(" directories, "@ =~= seq_directories_sep());
            assert(" files"@ =~= seq_files_word());
            assert(", "@ =~= seq_comma_sep());
            assert(" symlinks"@ =~= seq_symlinks_word());
        }
        let mut s = format_u64(self.dirs);
        s.append(" directories, ");
        let files_text = format_u64(self.files);
        s.append(files_text.as_str());
        s.append(" files");
        if self.symlinks > 0 {
            s.append(", ");
            let symlinks_text = format_u64(self.symlinks);
            s.append(symlinks_text.as_str());
            s.append(" symlinks");
        }
        proof {
            assert(s@ =~= spec_summary(
                self.dirs as nat,
                self.files as nat,
                self.symlinks as nat,
            ));
        }
        s
    }
}

} // verus!
