//! What the walk's configuration admits.
//!
//! The traversal itself is delegated to a walker built by the
//! surrounding binary; this module states, over plain values, which
//! entries a walk so configured yields.  A candidate entry carries the
//! attributes the walker consults: its depth below the root, whether
//! its name or an ancestor's name starts with a dot, and whether an
//! ignore rule matches it or an ancestor.

use vstd::prelude::*;
use crate::entry::EntryData;
use crate::fold::spec_counts_of;

verus! {

/// The walk's configuration, as the command line sets it.
#[derive(Debug, Clone, Copy, PartialEq, Eq, Structural)]
pub struct WalkConfig {
    /// Entries deeper than this are not walked; `None` puts no limit.
    pub max_depth: Option<usize>,
    /// Walk entries whose name starts with a dot.
    pub show_hidden: bool,
    /// Pay no attention to ignore files.
    pub no_ignore: bool,
    /// Print no error text to standard error.
    pub ignore_errors: bool,
}

/// One potential walk entry with the attributes the filters consult.
#[derive(Debug, PartialEq, Eq)]
pub struct Candidate {
    /// Depth below the walk's root; the root's own entries sit at one.
    pub depth: usize,
    /// The entry's name, or an ancestor's, starts with a dot.
    pub hidden: bool,
    /// An ignore rule matches the entry or an ancestor.
    pub ignored: bool,
    /// What the walk would report of the entry.
    pub data: EntryData,
}

/// The depth filter alone: the entry lies within the limit, if any.
pub open spec fn spec_depth_ok(cfg: WalkConfig, c: Candidate) -> bool {
    match cfg.max_depth {
        Some(d) => c.depth <= d,
        None => true,
    }
}

/// Whether a walk configured by `cfg` yields the candidate: it lies
/// within the depth limit, is not hidden unless hidden entries are
/// shown, and is not ignored unless ignore files go unheeded.
pub open spec fn spec_admits(cfg: WalkConfig, c: Candidate) -> bool {
    spec_depth_ok(cfg, c) && (cfg.show_hidden || !c.hidden) && (cfg.no_ignore || !c.ignored)
}

/// The candidates a walk configured by `cfg` yields, in order.
pub open spec fn spec_selected(cfg: WalkConfig, cs: Seq<Candidate>) -> Seq<Candidate>
    decreases cs.len(),
{
    if cs.len() == 0 {
        Seq::<Candidate>::empty()
    } else {
        spec_selected(cfg, cs.drop_last()) + (if spec_admits(cfg, cs.last()) {
            seq![cs.last()]
        } else {
            Seq::<Candidate>::empty()
        })
    }
}

/// The entry data of a candidate sequence, in order.
pub open spec fn spec_entry_data(cs: Seq<Candidate>) -> Seq<EntryData> {
    cs.map_values(|c: Candidate| c.data)
}

/// Decides `spec_admits` for one candidate.
pub fn admits(cfg: &WalkConfig, c: &Candidate) -> (r: bool)
    ensures
        r == spec_admits(*cfg, *c),
{
    let depth_ok = match cfg.max_depth {
        Some(d) => c.depth <= d,
        None => true,
    };
    depth_ok && (cfg.show_hidden || !c.hidden) && (cfg.no_ignore || !c.ignored)
}

/// A depth limit of `d` excludes every entry nested deeper than `d`.
pub proof fn lemma_depth_limit_excludes(cfg: WalkConfig, c: Candidate, d: usize)
    requires
        cfg.max_depth == Some(d),
        c.depth > d,
    ensures
        !spec_admits(cfg, c),
{
}

/// Under a depth limit of `d` the walk yields exactly what it yields
/// of the candidates at depth `d` or less: entries nested deeper
/// reach neither the tree nor the counts, both being functions of the
/// yielded sequence.
pub proof fn lemma_depth_limit_selection(cfg: WalkConfig, cs: Seq<Candidate>, d: usize)
    requires
        cfg.max_depth == Some(d),
    ensures
        spec_selected(cfg, cs) == spec_selected(cfg, cs.filter(|c: Candidate| c.depth <= d)),
    decreases cs.len(),
{
    reveal(Seq::filter);
    let shallow = |c: Candidate| c.depth <= d;
    if cs.len() == 0 {
        assert(cs.filter(shallow) =~= Seq::<Candidate>::empty());
    } else {
        lemma_depth_limit_selection(cfg, cs.drop_last(), d);
        assert(cs.filter(shallow) == cs.drop_last().filter(shallow) + (if shallow(cs.last()) {
            seq![cs.last()]
        } else {
            Seq::<Candidate>::empty()
        }));
        if shallow(cs.last()) {
            assert(cs.filter(shallow).drop_last() =~= cs.drop_last().filter(shallow));
            assert(cs.filter(shallow).last() == cs.last());
        } else {
            assert(cs.filter(shallow) =~= cs.drop_last().filter(shallow));
            assert(!spec_admits(cfg, cs.last()));
        }
    }
}

/// The hidden-entry flag toggles exactly the dot-named entries: with
/// the flag off no hidden entry is yielded; entries that are not
/// hidden are unaffected; with the flag on a hidden entry is yielded
/// whenever the other filters admit it.
pub proof fn lemma_hidden_flag_toggles(shown: WalkConfig, dropped: WalkConfig, c: Candidate)
    requires
        shown == (WalkConfig { show_hidden: true, ..dropped }),
        !dropped.show_hidden,
    ensures
        c.hidden ==> !spec_admits(dropped, c),
        !c.hidden ==> spec_admits(shown, c) == spec_admits(dropped, c),
        c.hidden && spec_depth_ok(shown, c) && (shown.no_ignore || !c.ignored) ==> spec_admits(
            shown,
            c,
        ),
{
}

/// Disabling ignore-file filtering includes the entries an ignore
/// rule would otherwise exclude: with filtering on no ignored entry
/// is yielded; everything yielded under filtering is still yielded
/// without it; without it an ignored entry is yielded whenever the
/// other filters admit it.
pub proof fn lemma_no_ignore_includes(unfiltered: WalkConfig, filtered: WalkConfig, c: Candidate)
    requires
        unfiltered == (WalkConfig { no_ignore: true, ..filtered }),
        !filtered.no_ignore,
    ensures
        c.ignored ==> !spec_admits(filtered, c),
        spec_admits(filtered, c) ==> spec_admits(unfiltered, c),
        c.ignored && spec_depth_ok(unfiltered, c) && (unfiltered.show_hidden || !c.hidden)
            ==> spec_admits(unfiltered, c),
{
}

/// Suppressing error text changes neither which entries the walk
/// yields nor the counters they accumulate; it only decides whether
/// error lines go to standard error, which is the binary's doing.
pub proof fn lemma_error_suppression(quiet: WalkConfig, loud: WalkConfig, cs: Seq<Candidate>)
    requires
        quiet == (WalkConfig { ignore_errors: true, ..loud }),
    ensures
        spec_selected(quiet, cs) == spec_selected(loud, cs),
        spec_counts_of(spec_entry_data(spec_selected(quiet, cs))) == spec_counts_of(
            spec_entry_data(spec_selected(loud, cs)),
        ),
    decreases cs.len(),
{
    if cs.len() == 0 {
    } else {
        lemma_error_suppression(quiet, loud, cs.drop_last());
    }
}

} // verus!
