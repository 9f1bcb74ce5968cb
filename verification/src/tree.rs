//! The tree print buffer, kept in `ptree`'s builder.
//!
//! A builder value is modelled by its root text and by the sequence of
//! operations applied to it so far.  An operation is a pair: a tag
//! (`OP_OPEN` begins a child node, `OP_LEAF` adds a childless node,
//! `OP_CLOSE` returns to the parent) and the node's label, empty for a
//! close.  `ptree` recurses along the last open chain, so an operation
//! sequence is usable only while no prefix closes more nodes than it
//! has opened.

use vstd::prelude::*;

verus! {

/// `ptree`'s tree builder, declared so it can stand in signatures;
/// its state is seen only through `builder_root` and `builder_ops`.
#[verifier::external_type_specification]
#[verifier::external_body]
pub struct ExTreeBuilder(ptree::builder::TreeBuilder);

/// `ptree`'s finished tree, carried opaquely to the printer.
#[verifier::external_type_specification]
#[verifier::external_body]
pub struct ExStringItem(ptree::item::StringItem);

pub const OP_OPEN: u8 = 0;

pub const OP_LEAF: u8 = 1;

pub const OP_CLOSE: u8 = 2;

/// The root text the builder was made with.
pub uninterp spec fn builder_root(b: ptree::builder::TreeBuilder) -> Seq<char>;

/// The operations applied to the builder since it was made.
pub uninterp spec fn builder_ops(b: ptree::builder::TreeBuilder) -> Seq<(u8, Seq<char>)>;

/// The text of a finished tree's root node.
pub uninterp spec fn item_root(i: ptree::item::StringItem) -> Seq<char>;

/// The canonical operation sequence a finished tree is the replay of:
/// open and close operations only, leaves written as an open followed
/// at once by a close.
pub uninterp spec fn item_ops(i: ptree::item::StringItem) -> Seq<(u8, Seq<char>)>;

pub open spec fn op_open(label: Seq<char>) -> (u8, Seq<char>) {
    (OP_OPEN, label)
}

pub open spec fn op_leaf(label: Seq<char>) -> (u8, Seq<char>) {
    (OP_LEAF, label)
}

pub open spec fn op_close() -> (u8, Seq<char>) {
    (OP_CLOSE, Seq::<char>::empty())
}

/// How many nodes an operation sequence leaves open: opens minus
/// closes.
pub open spec fn open_depth(ops: Seq<(u8, Seq<char>)>) -> int
    decreases ops.len(),
{
    if ops.len() == 0 {
        0
    } else {
        open_depth(ops.drop_last()) + (if ops.last().0 == OP_OPEN {
            1int
        } else if ops.last().0 == OP_CLOSE {
            -1int
        } else {
            0int
        })
    }
}

/// The canonical form of an operation sequence: each leaf operation
/// rewritten into an open followed at once by a close, which builds
/// the same tree.
pub open spec fn canon_ops(ops: Seq<(u8, Seq<char>)>) -> Seq<(u8, Seq<char>)>
    decreases ops.len(),
{
    if ops.len() == 0 {
        Seq::<(u8, Seq<char>)>::empty()
    } else {
        canon_ops(ops.drop_last()) + (if ops.last().0 == OP_LEAF {
            seq![op_open(ops.last().1), op_close()]
        } else {
            seq![ops.last()]
        })
    }
}

/// No prefix of the sequence closes more nodes than it has opened.
pub open spec fn ops_wf(ops: Seq<(u8, Seq<char>)>) -> bool {
    forall|i: int| 0 <= i <= ops.len() ==> open_depth(#[trigger] ops.take(i)) >= 0
}

pub proof fn lemma_open_depth_push(ops: Seq<(u8, Seq<char>)>, op: (u8, Seq<char>))
    ensures
        open_depth(ops.push(op)) == open_depth(ops) + (if op.0 == OP_OPEN {
            1int
        } else if op.0 == OP_CLOSE {
            -1int
        } else {
            0int
        }),
{
    assert(ops.push(op).drop_last() =~= ops);
    assert(ops.push(op).last() == op);
}

/// Appending an operation keeps the sequence well formed, as long as a
/// close only comes while a node is open.
pub proof fn lemma_ops_wf_push(ops: Seq<(u8, Seq<char>)>, op: (u8, Seq<char>))
    requires
        ops_wf(ops),
        op.0 == OP_CLOSE ==> open_depth(ops) > 0,
    ensures
        ops_wf(ops.push(op)),
{
    let pushed = ops.push(op);
    assert forall|i: int| 0 <= i <= pushed.len() implies open_depth(#[trigger] pushed.take(i))
        >= 0 by {
        if i <= ops.len() {
            assert(pushed.take(i) =~= ops.take(i));
        } else {
            assert(pushed.take(i) =~= pushed);
            assert(ops.take(ops.len() as int) =~= ops);
            lemma_open_depth_push(ops, op);
        }
    }
}

/// Relies on ptree::builder::TreeBuilder::new: the builder starts with
/// the given root text and no children.
#[verifier::external_body]
pub fn builder_new(text: String) -> (b: ptree::builder::TreeBuilder)
    ensures
        builder_root(b) == text@,
        builder_ops(b) == Seq::<(u8, Seq<char>)>::empty(),
{
    ptree::builder::TreeBuilder::new(text)
}

/// Relies on ptree::builder::TreeBuilder::begin_child: adds a child
/// with the given text to the node the last open chain ends in, and
/// makes that child current.  Needs a well-formed history, else the
/// recursion along the last children could meet a node that is not
/// there; the builder's level counter must not be exhausted.
#[verifier::external_body]
pub fn builder_begin_child(b: &mut ptree::builder::TreeBuilder, text: String)
    requires
        ops_wf(builder_ops(*old(b))),
        open_depth(builder_ops(*old(b))) < u32::MAX as int,
    ensures
        builder_root(*final(b)) == builder_root(*old(b)),
        builder_ops(*final(b)) == builder_ops(*old(b)).push(op_open(text@)),
{
    b.begin_child(text);
}

/// Relies on ptree::builder::TreeBuilder::add_empty_child: adds a
/// childless node with the given text at the current position.
#[verifier::external_body]
pub fn builder_add_empty_child(b: &mut ptree::builder::TreeBuilder, text: String)
    requires
        ops_wf(builder_ops(*old(b))),
        open_depth(builder_ops(*old(b))) < u32::MAX as int,
    ensures
        builder_root(*final(b)) == builder_root(*old(b)),
        builder_ops(*final(b)) == builder_ops(*old(b)).push(op_leaf(text@)),
{
    b.add_empty_child(text);
}

/// Relies on ptree::builder::TreeBuilder::end_child: makes the current
/// node's parent current.  A node must be open, else the builder's
/// level counter would fall below zero.
#[verifier::external_body]
pub fn builder_end_child(b: &mut ptree::builder::TreeBuilder)
    requires
        ops_wf(builder_ops(*old(b))),
        open_depth(builder_ops(*old(b))) > 0,
    ensures
        builder_root(*final(b)) == builder_root(*old(b)),
        builder_ops(*final(b)) == builder_ops(*old(b)).push(op_close()),
{
    b.end_child();
}

/// Relies on ptree::builder::TreeBuilder::build: hands out a clone of
/// the tree built so far and leaves the builder as it was.  The item
/// is determined by the builder's accumulated state alone: its root
/// text and its operation history, the latter up to rewriting each
/// leaf into an open followed by a close, since `add_empty_child` is
/// exactly `begin_child` then `end_child`.
#[verifier::external_body]
pub fn builder_build(b: &mut ptree::builder::TreeBuilder) -> (item: ptree::item::StringItem)
    ensures
        builder_root(*final(b)) == builder_root(*old(b)),
        builder_ops(*final(b)) == builder_ops(*old(b)),
        item_root(item) == builder_root(*old(b)),
        item_ops(item) == canon_ops(builder_ops(*old(b))),
{
    b.build()
}

} // verus!
