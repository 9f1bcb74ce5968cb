use dirtree::counts::Counts;
use dirtree::digits::format_u64;
use dirtree::entry::{EntryData, FileType};
use dirtree::fold::TreeFold;

#[test]
fn format_u64_values() {
    assert_eq!(format_u64(0), "0");
    assert_eq!(format_u64(7), "7");
    assert_eq!(format_u64(10), "10");
    assert_eq!(format_u64(123), "123");
    assert_eq!(format_u64(9_007_000), "9007000");
    assert_eq!(format_u64(u64::MAX), "18446744073709551615");
}

#[test]
fn classify_variants() {
    assert_eq!(FileType::from_flags(true, false, false), FileType::Directory);
    assert_eq!(FileType::from_flags(false, true, false), FileType::File);
    assert_eq!(FileType::from_flags(false, false, true), FileType::Symlink);
    assert_eq!(FileType::from_flags(false, false, false), FileType::Other);
    assert_eq!(FileType::from_flags(true, true, true), FileType::Directory);
    assert_eq!(FileType::from_flags(false, true, true), FileType::File);
}

#[test]
fn summary_no_symlink_clause() {
    let c = Counts { dirs: 0, files: 0, symlinks: 0 };
    assert_eq!(c.summary_line(), "0 directories, 0 files");
    let c = Counts { dirs: 4, files: 11, symlinks: 0 };
    assert_eq!(c.summary_line(), "4 directories, 11 files");
}

#[test]
fn summary_with_symlink_clause() {
    let c = Counts { dirs: 1, files: 3, symlinks: 2 };
    assert_eq!(c.summary_line(), "1 directories, 3 files, 2 symlinks");
}

#[test]
fn flat_directory_counts() {
    let mut fold = TreeFold::new(String::from("."));
    for name in ["a.txt", "b.txt", "c.txt", "d.txt", "e.txt"] {
        fold.record(1, EntryData::File { name: String::from(name) });
    }
    assert_eq!(fold.counts.dirs, 0);
    assert_eq!(fold.counts.files, 5);
    assert_eq!(fold.counts.symlinks, 0);
    assert_eq!(fold.counts.summary_line(), "0 directories, 5 files");
}

#[test]
fn fold_builds_nested_tree() {
    let mut fold = TreeFold::new(String::from("root"));
    fold.record(1, EntryData::Dir { name: String::from("sub") });
    fold.record(2, EntryData::File { name: String::from("inner") });
    fold.record(1, EntryData::File { name: String::from("top") });
    let item = fold.finish();
    assert_eq!(item.text, "root");
    assert_eq!(item.children.len(), 2);
    assert_eq!(item.children[0].text, "\u{1b}[32msub\u{1b}[39m/");
    assert_eq!(item.children[0].children.len(), 1);
    assert_eq!(item.children[0].children[0].text, "inner");
    assert_eq!(item.children[1].text, "top");
    assert!(item.children[1].children.is_empty());
}

#[test]
fn fold_closes_several_levels() {
    let mut fold = TreeFold::new(String::from("root"));
    fold.record(1, EntryData::Dir { name: String::from("a") });
    fold.record(2, EntryData::Dir { name: String::from("b") });
    fold.record(3, EntryData::File { name: String::from("deep") });
    fold.record(1, EntryData::File { name: String::from("flat") });
    let item = fold.finish();
    assert_eq!(item.children.len(), 2);
    assert_eq!(item.children[0].children.len(), 1);
    assert_eq!(item.children[0].children[0].children.len(), 1);
    assert_eq!(item.children[0].children[0].children[0].text, "deep");
    assert_eq!(item.children[1].text, "flat");
    assert_eq!(fold.counts.dirs, 2);
    assert_eq!(fold.counts.files, 2);
}

#[test]
fn symlink_line_has_name_and_target() {
    let mut fold = TreeFold::new(String::from("."));
    fold.record(
        1,
        EntryData::Symlink { name: String::from("link"), target: Some(String::from("real/place")) },
    );
    let item = fold.finish();
    assert_eq!(item.children.len(), 1);
    let line = &item.children[0].text;
    assert!(line.contains("link"));
    assert!(line.contains("real/place"));
    assert_eq!(line, "\u{1b}[34mlink\u{1b}[39m -> \u{1b}[36mreal/place\u{1b}[39m");
    assert_eq!(fold.counts.files, 1);
    assert_eq!(fold.counts.symlinks, 1);
    assert_eq!(fold.counts.summary_line(), "0 directories, 1 files, 1 symlinks");
}

#[test]
fn unresolved_symlink_adds_nothing_but_closes_levels() {
    let mut fold = TreeFold::new(String::from("."));
    fold.record(1, EntryData::Dir { name: String::from("d") });
    fold.record(1, EntryData::Symlink { name: String::from("bad"), target: None });
    fold.record(1, EntryData::File { name: String::from("after") });
    let item = fold.finish();
    assert_eq!(item.children.len(), 2);
    assert!(item.children[0].children.is_empty());
    assert_eq!(item.children[1].text, "after");
    assert_eq!(fold.counts.dirs, 1);
    assert_eq!(fold.counts.files, 1);
    assert_eq!(fold.counts.symlinks, 0);
}

#[test]
fn opaque_entry_adds_nothing_but_closes_levels() {
    let mut fold = TreeFold::new(String::from("."));
    fold.record(1, EntryData::Dir { name: String::from("d") });
    fold.record(1, EntryData::Opaque);
    let item = fold.finish();
    assert_eq!(item.children.len(), 1);
    assert!(item.children[0].children.is_empty());
    assert_eq!(fold.counts.dirs, 1);
    assert_eq!(fold.counts.files, 0);
}

#[test]
fn other_entry_counts_as_file() {
    let mut fold = TreeFold::new(String::from("."));
    fold.record(1, EntryData::Other { name: String::from("fifo") });
    let item = fold.finish();
    assert_eq!(item.children[0].text, "\u{1b}[31mfifo\u{1b}[39m");
    assert_eq!(fold.counts.files, 1);
    assert_eq!(fold.counts.dirs, 0);
    assert_eq!(fold.counts.symlinks, 0);
}

#[test]
fn labels_exact() {
    assert_eq!(dirtree::text::dir_label("src"), "\u{1b}[32msrc\u{1b}[39m/");
    assert_eq!(dirtree::text::other_label("x"), "\u{1b}[31mx\u{1b}[39m");
    assert_eq!(
        dirtree::text::symlink_label("a", "b"),
        "\u{1b}[34ma\u{1b}[39m -> \u{1b}[36mb\u{1b}[39m"
    );
}
