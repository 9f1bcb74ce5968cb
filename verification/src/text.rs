//! Label texts for tree nodes, with their terminal colouring.

use vstd::prelude::*;
use vstd::string::StringExecFns;
use owo_colors::OwoColorize;

verus! {

/// ANSI sequence that switches the foreground to green.
pub open spec fn fg_green() -> Seq<char> {
    seq!['\u{1b}', '[', '3', '2', 'm']
}

/// ANSI sequence that switches the foreground to red.
pub open spec fn fg_red() -> Seq<char> {
    seq!['\u{1b}', '[', '3', '1', 'm']
}

/// ANSI sequence that switches the foreground to blue.
pub open spec fn fg_blue() -> Seq<char> {
    seq!['\u{1b}', '[', '3', '4', 'm']
}

/// ANSI sequence that switches the foreground to cyan.
pub open spec fn fg_cyan() -> Seq<char> {
    seq!['\u{1b}', '[', '3', '6', 'm']
}

/// ANSI sequence that restores the default foreground.
pub open spec fn fg_reset() -> Seq<char> {
    seq!['\u{1b}', '[', '3', '9', 'm']
}

/// Relies on owo_colors::OwoColorize::green: displaying the returned
/// wrapper writes `"\x1b[32m"`, the text unchanged, then `"\x1b[39m"`.
#[verifier::external_body]
fn paint_green(s: &str) -> (r: String)
    ensures
        r@ == fg_green() + s@ + fg_reset(),
{
    format!("{}", s.green())
}

/// Relies on owo_colors::OwoColorize::red: displaying the returned
/// wrapper writes `"\x1b[31m"`, the text unchanged, then `"\x1b[39m"`.
#[verifier::external_body]
fn paint_red(s: &str) -> (r: String)
    ensures
        r@ == fg_red() + s@ + fg_reset(),
{
    format!("{}", s.red())
}

/// Relies on owo_colors::OwoColorize::blue: displaying the returned
/// wrapper writes `"\x1b[34m"`, the text unchanged, then `"\x1b[39m"`.
#[verifier::external_body]
fn paint_blue(s: &str) -> (r: String)
    ensures
        r@ == fg_blue() + s@ + fg_reset(),
{
    format!("{}", s.blue())
}

/// Relies on owo_colors::OwoColorize::cyan: displaying the returned
/// wrapper writes `"\x1b[36m"`, the text unchanged, then `"\x1b[39m"`.
#[verifier::external_body]
fn paint_cyan(s: &str) -> (r: String)
    ensures
        r@ == fg_cyan() + s@ + fg_reset(),
{
    format!("{}", s.cyan())
}

/// A directory's node label: the name in green, a trailing slash.
pub open spec fn spec_dir_label(name: Seq<char>) -> Seq<char> {
    fg_green() + name + fg_reset() + seq!['/']
}

/// A plain file's node label: the bare name.
pub open spec fn spec_file_label(name: Seq<char>) -> Seq<char> {
    name
}

/// A symlink's node label: the name in blue, an arrow, the resolved
/// target text in cyan.
pub open spec fn spec_symlink_label(name: Seq<char>, target: Seq<char>) -> Seq<char> {
    fg_blue() + name + fg_reset() + seq![' ', '-', '>', ' '] + fg_cyan() + target + fg_reset()
}

/// An unclassifiable entry's node label: the name in red.
pub open spec fn spec_other_label(name: Seq<char>) -> Seq<char> {
    fg_red() + name + fg_reset()
}

/// Builds a directory's label.
pub fn dir_label(name: &str) -> (r: String)
    ensures
        r@ == spec_dir_label(name@),
{
    let mut s = paint_green(name);
    s.append("/");
    proof {
        reveal_strlit("/");
        assert(s@ =~= spec_dir_label(name@));
    }
    s
}

/// Builds a symlink's label from its name and its target text.
pub fn symlink_label(name: &str, target: &str) -> (r: String)
    ensures
        r@ == spec_symlink_label(name@, target@),
{
    let mut s = paint_blue(name);
    s.append(" -> ");
    let painted_target = paint_cyan(target);
    s.append(painted_target.as_str());
    proof {
        reveal_strlit(" -> ");
        assert(s@ =~= spec_symlink_label(name@, target@));
    }
    s
}

/// Builds the label of an entry of unknown type.
pub fn other_label(name: &str) -> (r: String)
    ensures
        r@ == spec_other_label(name@),
{
    paint_red(name)
}

/// The link name stands unchanged inside a symlink's label, right
/// after the colour prefix.
pub proof fn lemma_symlink_label_has_name(name: Seq<char>, target: Seq<char>)
    ensures
        spec_symlink_label(name, target).subrange(5, 5 + name.len() as int) == name,
{
    assert(spec_symlink_label(name, target).subrange(5, 5 + name.len() as int) =~= name);
}

/// The resolved target text stands unchanged inside a symlink's
/// label, right after the second colour prefix.
pub proof fn lemma_symlink_label_has_target(name: Seq<char>, target: Seq<char>)
    ensures
        spec_symlink_label(name, target).subrange(
            19 + name.len() as int,
            19 + name.len() as int + target.len() as int,
        ) == target,
{
    assert(spec_symlink_label(name, target).subrange(
        19 + name.len() as int,
        19 + name.len() as int + target.len() as int,
    ) =~= target);
}

} // verus!
