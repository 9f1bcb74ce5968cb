//! Folding walk entries into the tree buffer and the counters.
//!
//! The fold mirrors the walk: it keeps the depth of the currently open
//! tree node, closes as many levels as the walk backed out of, then
//! appends the entry as a node and counts it.

use vstd::prelude::*;
use crate::counts::Counts;
use crate::entry::EntryData;
use crate::text::{
    spec_dir_label, spec_file_label, spec_symlink_label, spec_other_label, dir_label,
    symlink_label, other_label,
};
use crate::tree::{
    builder_root, builder_ops, builder_new, builder_begin_child, builder_add_empty_child,
    builder_end_child, builder_build, ops_wf, open_depth, op_open, op_leaf, op_close,
    lemma_ops_wf_push, lemma_open_depth_push,
};

verus! {

/// A run of `k` close operations.
pub open spec fn close_ops(k: nat) -> Seq<(u8, Seq<char>)>
    decreases k,
{
    if k == 0 {
        Seq::<(u8, Seq<char>)>::empty()
    } else {
        close_ops((k - 1) as nat).push(op_close())
    }
}

/// The tree operation an entry itself contributes: a directory opens a
/// node, a countable entry adds a leaf, a skipped entry contributes
/// nothing.
pub open spec fn spec_entry_ops(e: EntryData) -> Seq<(u8, Seq<char>)> {
    match e {
        EntryData::Opaque => Seq::<(u8, Seq<char>)>::empty(),
        EntryData::Dir { name } => seq![op_open(spec_dir_label(name@))],
        EntryData::File { name } => seq![op_leaf(spec_file_label(name@))],
        EntryData::Symlink { name, target } => match target {
            Some(t) => seq![op_leaf(spec_symlink_label(name@, t@))],
            None => Seq::<(u8, Seq<char>)>::empty(),
        },
        EntryData::Other { name } => seq![op_leaf(spec_other_label(name@))],
    }
}

/// Everything one entry appends to the operation sequence: first the
/// closes that bring the open depth back down to the entry's depth,
/// then the entry's own operation.
pub open spec fn spec_ops_delta(cur: nat, depth: nat, e: EntryData) -> Seq<(u8, Seq<char>)> {
    close_ops(if depth < cur {
        (cur - depth) as nat
    } else {
        0
    }) + spec_entry_ops(e)
}

/// The open depth after an entry: levels above the entry's depth are
/// closed, and a directory opens one more.
pub open spec fn spec_depth_after(cur: nat, depth: nat, e: EntryData) -> nat {
    (if depth < cur {
        depth
    } else {
        cur
    }) + (if e is Dir {
        1nat
    } else {
        0nat
    })
}

/// The counters after an entry: a directory counts as a directory, a
/// file or an entry of unknown type as a file, a resolved symlink as a
/// file and as a symlink; a skipped entry counts as nothing.
pub open spec fn spec_counts_after(c: Counts, e: EntryData) -> Counts {
    match e {
        EntryData::Opaque => c,
        EntryData::Dir { .. } => Counts {
            dirs: (c.dirs + 1) as u64,
            files: c.files,
            symlinks: c.symlinks,
        },
        EntryData::File { .. } => Counts {
            dirs: c.dirs,
            files: (c.files + 1) as u64,
            symlinks: c.symlinks,
        },
        EntryData::Symlink { target, .. } => if target is Some {
            Counts {
                dirs: c.dirs,
                files: (c.files + 1) as u64,
                symlinks: (c.symlinks + 1) as u64,
            }
        } else {
            c
        },
        EntryData::Other { .. } => Counts {
            dirs: c.dirs,
            files: (c.files + 1) as u64,
            symlinks: c.symlinks,
        },
    }
}

/// The counters a sequence of entries accumulates from zero.
pub open spec fn spec_counts_of(entries: Seq<EntryData>) -> Counts
    decreases entries.len(),
{
    if entries.len() == 0 {
        Counts { dirs: 0, files: 0, symlinks: 0 }
    } else {
        spec_counts_after(spec_counts_of(entries.drop_last()), entries.last())
    }
}

/// The print buffer, the open depth and the counters of one walk.
pub struct TreeFold {
    pub builder: ptree::builder::TreeBuilder,
    pub current_depth: usize,
    pub counts: Counts,
}

impl TreeFold {
    /// The open depth always names the tree level the next entry of
    /// equal depth lands in: one more than the number of unclosed
    /// opens, and within the range the builder's level counter holds.
    pub open spec fn wf(self) -> bool {
        &&& 1 <= self.current_depth
        &&& self.current_depth <= u32::MAX as usize
        &&& ops_wf(builder_ops(self.builder))
        &&& open_depth(builder_ops(self.builder)) == self.current_depth - 1
    }

    /// Starts a fold whose tree root carries the given text.
    pub fn new(root_text: String) -> (f: TreeFold)
        ensures
            f.wf(),
            builder_root(f.builder) == root_text@,
            builder_ops(f.builder) == Seq::<(u8, Seq<char>)>::empty(),
            f.current_depth == 1,
            f.counts == (Counts { dirs: 0, files: 0, symlinks: 0 }),
    {
        TreeFold { builder: builder_new(root_text), current_depth: 1, counts: Counts::new() }
    }

    /// Records one walk entry: closes the levels the walk backed out
    /// of, appends the entry's node, and counts it.
    pub fn record(&mut self, depth: usize, data: EntryData)
        requires
            old(self).wf(),
            1 <= depth,
            depth < u32::MAX as usize,
            old(self).counts.dirs < u64::MAX,
            old(self).counts.files < u64::MAX,
            old(self).counts.symlinks < u64::MAX,
        ensures
            final(self).wf(),
            builder_root(final(self).builder) == builder_root(old(self).builder),
            builder_ops(final(self).builder) == builder_ops(old(self).builder) + spec_ops_delta(
                old(self).current_depth as nat,
                depth as nat,
                data,
            ),
            final(self).current_depth == spec_depth_after(
                old(self).current_depth as nat,
                depth as nat,
                data,
            ),
            final(self).counts == spec_counts_after(old(self).counts, data),
    {
        let ghost ops0 = builder_ops(self.builder);
        let ghost root0 = builder_root(self.builder);
        let ghost cur0 = self.current_depth as nat;
        let ghost closes = (if (depth as nat) < cur0 {
            (cur0 - depth) as nat
        } else {
            0nat
        });
        if depth < self.current_depth {
            let k = self.current_depth - depth;
            let mut i: usize = 0;
            while i < k
                invariant
                    i <= k,
                    k == cur0 - depth,
                    1 <= depth,
                    depth < u32::MAX as usize,
                    cur0 <= u32::MAX as usize,
                    ops_wf(builder_ops(self.builder)),
                    open_depth(builder_ops(self.builder)) == cur0 - 1 - i,
                    builder_ops(self.builder) == ops0 + close_ops(i as nat),
                    builder_root(self.builder) == root0,
                    self.current_depth == cur0,
                    self.counts == old(self).counts,
                decreases k - i,
            {
                proof {
                    lemma_ops_wf_push(builder_ops(self.builder), op_close());
                    lemma_open_depth_push(builder_ops(self.builder), op_close());
                }
                builder_end_child(&mut self.builder);
                proof {
                    assert(close_ops((i + 1) as nat) == close_ops(i as nat).push(op_close()));
                    assert((ops0 + close_ops(i as nat)).push(op_close()) =~= ops0 + close_ops(
                        (i + 1) as nat,
                    ));
                }
                i = i + 1;
            }
            self.current_depth = depth;
        }
        proof {
            assert(builder_ops(self.builder) == ops0 + close_ops(closes));
            assert(open_depth(builder_ops(self.builder)) == self.current_depth - 1);
        }
        let ghost opsc = builder_ops(self.builder);
        match data {
            EntryData::Opaque => {
                proof {
                    assert(opsc + spec_entry_ops(EntryData::Opaque) =~= opsc);
                    assert(builder_ops(self.builder) =~= ops0 + spec_ops_delta(
                        cur0,
                        depth as nat,
                        EntryData::Opaque,
                    ));
                }
            },
            EntryData::Dir { name } => {
                let label = dir_label(name.as_str());
                proof {
                    lemma_ops_wf_push(builder_ops(self.builder), op_open(label@));
                    lemma_open_depth_push(builder_ops(self.builder), op_open(label@));
                }
                builder_begin_child(&mut self.builder, label);
                self.current_depth = self.current_depth + 1;
                self.counts.dirs = self.counts.dirs + 1;
                proof {
                    let e = EntryData::Dir { name };
                    assert(opsc.push(op_open(spec_dir_label(name@))) =~= ops0 + spec_ops_delta(
                        cur0,
                        depth as nat,
                        e,
                    ));
                }
            },
            EntryData::File { name } => {
                proof {
                    lemma_ops_wf_push(builder_ops(self.builder), op_leaf(name@));
                    lemma_open_depth_push(builder_ops(self.builder), op_leaf(name@));
                }
                builder_add_empty_child(&mut self.builder, name);
                self.counts.files = self.counts.files + 1;
                proof {
                    assert(builder_ops(self.builder) =~= ops0 + spec_ops_delta(
                        cur0,
                        depth as nat,
                        data,
                    ));
                }
            },
            EntryData::Symlink { name, target } => {
                match target {
                    Some(t) => {
                        let label = symlink_label(name.as_str(), t.as_str());
                        proof {
                            lemma_ops_wf_push(builder_ops(self.builder), op_leaf(label@));
                            lemma_open_depth_push(builder_ops(self.builder), op_leaf(label@));
                        }
                        builder_add_empty_child(&mut self.builder, label);
                        self.counts.files = self.counts.files + 1;
                        self.counts.symlinks = self.counts.symlinks + 1;
                        proof {
                            let e = EntryData::Symlink { name, target: Some(t) };
                            assert(opsc.push(op_leaf(spec_symlink_label(name@, t@))) =~= ops0
                                + spec_ops_delta(cur0, depth as nat, e));
                        }
                    },
                    None => {
                        proof {
                            let e = EntryData::Symlink { name, target: None };
                            assert(opsc + spec_entry_ops(e) =~= opsc);
                            assert(builder_ops(self.builder) =~= ops0 + spec_ops_delta(
                                cur0,
                                depth as nat,
                                e,
                            ));
                        }
                    },
                }
            },
            EntryData::Other { name } => {
                let label = other_label(name.as_str());
                proof {
                    lemma_ops_wf_push(builder_ops(self.builder), op_leaf(label@));
                    lemma_open_depth_push(builder_ops(self.builder), op_leaf(label@));
                }
                builder_add_empty_child(&mut self.builder, label);
                self.counts.files = self.counts.files + 1;
                proof {
                    let e = EntryData::Other { name };
                    assert(opsc.push(op_leaf(spec_other_label(name@))) =~= ops0 + spec_ops_delta(
                        cur0,
                        depth as nat,
                        e,
                    ));
                }
            },
        }
    }

    /// Hands out the tree built so far: the item whose root text and
    /// canonical operation sequence are the fold's own.  The fold
    /// itself is unchanged.
    pub fn finish(&mut self) -> (item: ptree::item::StringItem)
        requires
            old(self).wf(),
        ensures
            final(self).wf(),
            builder_root(final(self).builder) == builder_root(old(self).builder),
            builder_ops(final(self).builder) == builder_ops(old(self).builder),
            final(self).current_depth == old(self).current_depth,
            final(self).counts == old(self).counts,
            crate::tree::item_root(item) == builder_root(old(self).builder),
            crate::tree::item_ops(item) == crate::tree::canon_ops(builder_ops(old(self).builder)),
    {
        builder_build(&mut self.builder)
    }
}

/// A walk that sees only plain files accumulates no directory count,
/// one file per entry and no symlink count; the summary line for such
/// counters carries no symlink clause.
pub proof fn lemma_flat_directory(entries: Seq<EntryData>)
    requires
        entries.len() <= u64::MAX,
        forall|i: int| 0 <= i < entries.len() ==> entries[i] is File,
    ensures
        spec_counts_of(entries) == (Counts {
            dirs: 0,
            files: entries.len() as u64,
            symlinks: 0,
        }),
        crate::counts::spec_summary(0, entries.len() as nat, 0) == seq!['0']
            + crate::counts::seq_directories_sep() + crate::digits::spec_decimal(
            entries.len() as nat,
        ) + crate::counts::seq_files_word(),
    decreases entries.len(),
{
    if entries.len() == 0 {
    } else {
        lemma_flat_directory(entries.drop_last());
    }
    assert(crate::counts::spec_summary(0, entries.len() as nat, 0) =~= seq!['0']
        + crate::counts::seq_directories_sep() + crate::digits::spec_decimal(entries.len() as nat)
        + crate::counts::seq_files_word());
}

} // verus!
