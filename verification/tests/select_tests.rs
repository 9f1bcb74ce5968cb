use dirtree::entry::EntryData;
use dirtree::select::{admits, Candidate, WalkConfig};

fn plain_config() -> WalkConfig {
    WalkConfig { max_depth: None, show_hidden: false, no_ignore: false, ignore_errors: false }
}

fn candidate(depth: usize, hidden: bool, ignored: bool) -> Candidate {
    Candidate { depth, hidden, ignored, data: EntryData::File { name: String::from("f") } }
}

#[test]
fn hidden_flag_toggles_dotfiles() {
    let off = plain_config();
    let on = WalkConfig { show_hidden: true, ..off };
    let dotfile = candidate(1, true, false);
    let plain = candidate(1, false, false);
    assert!(!admits(&off, &dotfile));
    assert!(admits(&on, &dotfile));
    assert!(admits(&off, &plain));
    assert!(admits(&on, &plain));
}

#[test]
fn depth_limit_excludes_deeper_entries() {
    let limited = WalkConfig { max_depth: Some(2), ..plain_config() };
    assert!(admits(&limited, &candidate(1, false, false)));
    assert!(admits(&limited, &candidate(2, false, false)));
    assert!(!admits(&limited, &candidate(3, false, false)));
    let unlimited = plain_config();
    assert!(admits(&unlimited, &candidate(3, false, false)));
}

#[test]
fn no_ignore_includes_ignored_entries() {
    let respecting = plain_config();
    let unfiltered = WalkConfig { no_ignore: true, ..respecting };
    let listed = candidate(1, false, true);
    let unlisted = candidate(1, false, false);
    assert!(!admits(&respecting, &listed));
    assert!(admits(&unfiltered, &listed));
    assert!(admits(&respecting, &unlisted));
    assert!(admits(&unfiltered, &unlisted));
}

#[test]
fn error_suppression_changes_no_selection() {
    let loud = plain_config();
    let quiet = WalkConfig { ignore_errors: true, ..loud };
    let cases = [
        candidate(1, false, false),
        candidate(2, true, false),
        candidate(3, false, true),
        candidate(4, true, true),
    ];
    for c in &cases {
        assert_eq!(admits(&loud, c), admits(&quiet, c));
    }
}
