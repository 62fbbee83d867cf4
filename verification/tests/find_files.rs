use korah::time::Timestamp;
use korah::tool::find_files::{
    FileEntry, FileMeta, Filter, FindFiles, FindFilesIterator, FindFilesParams, WalkAction,
    WalkEvent,
};
use korah::tool::{Tool, ToolError};

fn params(dir: &str) -> FindFilesParams {
    FindFilesParams {
        in_directory: dir.to_owned(),
        is_directory: None,
        is_symlink: None,
        min_size: None,
        min_time_created: None,
        max_size: None,
        max_time_created: None,
        min_time_modified: None,
        max_time_modified: None,
        name_regex: None,
    }
}

fn file_meta(len: u64) -> FileMeta {
    FileMeta {
        is_symlink: false,
        is_dir: false,
        len,
        created: Some(Timestamp::new(1_000, 0)),
        modified: Some(Timestamp::new(2_000, 0)),
    }
}

fn dir_meta() -> FileMeta {
    FileMeta { is_dir: true, ..file_meta(4096) }
}

fn entry(path: &str, meta: FileMeta) -> FileEntry {
    let name = path.rsplit('/').next().map(|n| n.to_owned());
    FileEntry { path: path.to_owned(), name, meta, target: None }
}

/// A directory of the mock file system: its entries, and for each entry that
/// is a directory what listing it gives.
#[derive(Clone)]
struct Node {
    entry_path: String,
    meta: FileMeta,
    children: Option<Vec<Node>>,
}

fn leaf(path: &str, len: u64) -> Node {
    Node { entry_path: path.to_owned(), meta: file_meta(len), children: None }
}

fn folder(path: &str, children: Vec<Node>) -> Node {
    Node { entry_path: path.to_owned(), meta: dir_meta(), children: Some(children) }
}

type Cursor = std::vec::IntoIter<Node>;

/// Runs a search over the mock file system. The cancellation flag is set
/// once `cancel_after` entries have been read.
fn walk(mut search: FindFilesIterator<Cursor>, cancel_after: Option<usize>) -> (Vec<String>, usize) {
    let mut found = Vec::new();
    let mut read = 0usize;
    let mut event = WalkEvent::Resume;
    let mut opened: Option<Vec<Node>> = None;
    loop {
        let cancelled = cancel_after.map(|n| read >= n).unwrap_or(false);
        match search.step(event, cancelled) {
            WalkAction::Finished => break,
            WalkAction::Yield(output) => {
                found.push(output.path);
                event = WalkEvent::Resume;
            }
            WalkAction::OpenDirectory(_) => {
                event = WalkEvent::Listing(opened.take().map(|c| c.into_iter()));
            }
            WalkAction::ReadEntry => {
                let cursor = search.cursor().expect("a directory is being listed");
                match cursor.next() {
                    None => event = WalkEvent::EndOfDirectory,
                    Some(node) => {
                        read += 1;
                        opened = node.children.clone();
                        event = WalkEvent::Entry(entry(&node.entry_path, node.meta));
                    }
                }
            }
        }
    }
    (found, read)
}

fn tree() -> Vec<Node> {
    vec![
        leaf("/d/a.log", 10),
        leaf("/d/a.txt", 20),
        folder("/d/sub", vec![leaf("/d/sub/b.log", 30)]),
    ]
}

#[test]
fn find_files_has_its_name_and_no_description() {
    let tool = FindFiles::new();
    assert_eq!(tool.name(), "find_files");
    assert_eq!(tool.description(), None);
}

#[test]
fn log_files_are_found_in_directory_and_subdirectory() {
    let mut p = params("/d");
    p.name_regex = Some("\\.log$".to_owned());
    let search = FindFiles::new().call(p, Ok(tree().into_iter())).ok().unwrap();
    let (mut found, _) = walk(search, None);
    found.sort();
    assert_eq!(found, vec!["/d/a.log".to_owned(), "/d/sub/b.log".to_owned()]);
}

#[test]
fn traversal_is_depth_first_and_reports_directories() {
    let search = FindFiles::new().call(params("/d"), Ok(tree().into_iter())).ok().unwrap();
    let (found, read) = walk(search, None);
    assert_eq!(found, vec!["/d/a.log", "/d/a.txt", "/d/sub", "/d/sub/b.log"]);
    assert_eq!(read, 4);
}

#[test]
fn directory_that_cannot_be_opened_is_still_judged() {
    let nodes = vec![Node { entry_path: "/d/locked".to_owned(), meta: dir_meta(), children: None }];
    let search = FindFiles::new().call(params("/d"), Ok(nodes.into_iter())).ok().unwrap();
    let (found, _) = walk(search, None);
    assert_eq!(found, vec!["/d/locked"]);
}

#[test]
fn cancellation_stops_the_traversal_without_error() {
    let search = FindFiles::new().call(params("/d"), Ok(tree().into_iter())).ok().unwrap();
    // The flag is set while the second entry is being handled.
    let (found, read) = walk(search, Some(2));
    assert_eq!(found, vec!["/d/a.log", "/d/a.txt"]);
    assert_eq!(read, 2);
}

#[test]
fn cancelled_search_reads_nothing() {
    let mut search = FindFiles::new().call(params("/d"), Ok(tree().into_iter())).ok().unwrap();
    assert!(matches!(search.step(WalkEvent::Resume, true), WalkAction::Finished));
    assert!(matches!(search.step(WalkEvent::Resume, true), WalkAction::Finished));
    // The directory is still there: without the flag the search would go on.
    assert!(matches!(search.step(WalkEvent::Resume, false), WalkAction::ReadEntry));
}

#[test]
fn entry_read_before_cancellation_is_still_reported() {
    let mut search = FindFiles::new().call(params("/d"), Ok(tree().into_iter())).ok().unwrap();
    assert!(matches!(search.step(WalkEvent::Resume, false), WalkAction::ReadEntry));
    let action = search.step(WalkEvent::Entry(entry("/d/a.log", file_meta(1))), true);
    match action {
        WalkAction::Yield(output) => assert_eq!(output.path, "/d/a.log"),
        _ => panic!("the entry is to be reported"),
    }
}

#[test]
fn failed_entries_are_skipped() {
    let mut search = FindFiles::new().call(params("/d"), Ok(tree().into_iter())).ok().unwrap();
    assert!(matches!(search.step(WalkEvent::EntryFailed, false), WalkAction::ReadEntry));
    assert!(matches!(search.step(WalkEvent::EndOfDirectory, false), WalkAction::Finished));
    assert!(search.cursor().is_none());
}

#[test]
fn listing_out_of_turn_is_ignored() {
    let mut search = FindFiles::new().call(params("/d"), Ok(tree().into_iter())).ok().unwrap();
    let stray: Cursor = vec![leaf("/x", 1)].into_iter();
    assert!(matches!(search.step(WalkEvent::Listing(Some(stray)), false), WalkAction::ReadEntry));
    // The stray listing was not pushed: the cursor on top is still the root.
    let first = search.cursor().unwrap().next().unwrap();
    assert_eq!(first.entry_path, "/d/a.log");
}

#[test]
fn call_reports_the_directory_error_before_the_pattern() {
    let mut p = params("/nowhere");
    p.name_regex = Some("(".to_owned());
    let res = FindFiles::new().call::<Cursor>(p, Err(ToolError::Io("no such directory".to_owned())));
    match res {
        Err(ToolError::Io(msg)) => assert_eq!(msg, "no such directory"),
        _ => panic!("the directory error is expected"),
    }
}

#[test]
fn call_rejects_a_bad_pattern_at_once() {
    let mut p = params("/d");
    p.name_regex = Some("(".to_owned());
    let res = FindFiles::new().call(p, Ok(tree().into_iter()));
    assert!(matches!(res, Err(ToolError::Regex(_))));
}

#[test]
fn file_filter_from_params_keeps_every_bound() {
    let mut p = params("/d");
    p.is_directory = Some(false);
    p.is_symlink = Some(true);
    p.min_size = Some(1);
    p.max_size = Some(2);
    p.min_time_created = Some(Timestamp::new(3, 0));
    p.max_time_created = Some(Timestamp::new(4, 0));
    p.min_time_modified = Some(Timestamp::new(5, 0));
    p.max_time_modified = Some(Timestamp::new(6, 0));
    p.name_regex = Some("^a".to_owned());
    let f = Filter::try_from(p).ok().unwrap();
    assert_eq!(f.is_directory, Some(false));
    assert_eq!(f.is_symlink, Some(true));
    assert_eq!(f.min_size, Some(1));
    assert_eq!(f.max_size, Some(2));
    assert_eq!(f.min_time_created.unwrap().secs, 3);
    assert_eq!(f.max_time_created.unwrap().secs, 4);
    assert_eq!(f.min_time_modified.unwrap().secs, 5);
    assert_eq!(f.max_time_modified.unwrap().secs, 6);
    assert_eq!(f.pattern(), Some("^a"));
}

#[test]
fn filter_without_conditions_accepts_everything() {
    let f = Filter::try_from(params("/d")).ok().unwrap();
    assert_eq!(f.pattern(), None);
    assert!(f.is_matching(&entry("/d/a", file_meta(0))));
    assert!(f.is_matching(&entry("/d/b", dir_meta())));
}

#[test]
fn size_bounds_are_inclusive() {
    let mut p = params("/d");
    p.min_size = Some(10);
    p.max_size = Some(20);
    let f = Filter::try_from(p).ok().unwrap();
    assert!(!f.is_matching(&entry("/d/a", file_meta(9))));
    assert!(f.is_matching(&entry("/d/a", file_meta(10))));
    assert!(f.is_matching(&entry("/d/a", file_meta(20))));
    assert!(!f.is_matching(&entry("/d/a", file_meta(21))));
}

#[test]
fn time_bounds_are_inclusive_and_need_a_known_time() {
    let mut p = params("/d");
    p.min_time_created = Some(Timestamp::new(1_000, 0));
    p.max_time_modified = Some(Timestamp::new(2_000, 0));
    let f = Filter::try_from(p).ok().unwrap();
    assert!(f.is_matching(&entry("/d/a", file_meta(1))));
    let mut early = file_meta(1);
    early.created = Some(Timestamp::new(999, 999_999_999));
    assert!(!f.is_matching(&entry("/d/a", early)));
    let mut late = file_meta(1);
    late.modified = Some(Timestamp::new(2_000, 1));
    assert!(!f.is_matching(&entry("/d/a", late)));
    let mut unknown = file_meta(1);
    unknown.created = None;
    assert!(!f.is_matching(&entry("/d/a", unknown)));
    // A time that no bound asks for may be unknown.
    let mut p = params("/d");
    p.max_time_modified = Some(Timestamp::new(2_000, 0));
    let f = Filter::try_from(p).ok().unwrap();
    assert!(f.is_matching(&entry("/d/a", unknown)));
}

#[test]
fn name_pattern_needs_a_unicode_name() {
    let mut p = params("/d");
    p.name_regex = Some("^a\\.".to_owned());
    let f = Filter::try_from(p).ok().unwrap();
    assert!(f.is_matching(&entry("/d/a.log", file_meta(1))));
    assert!(!f.is_matching(&entry("/d/b.log", file_meta(1))));
    let mut nameless = entry("/d/a.log", file_meta(1));
    nameless.name = None;
    assert!(!f.is_matching(&nameless));
}

#[test]
fn symlink_is_judged_by_its_target_for_type_and_size() {
    let mut p = params("/d");
    p.is_directory = Some(true);
    p.is_symlink = Some(true);
    p.min_size = Some(100);
    let f = Filter::try_from(p).ok().unwrap();
    let link = FileMeta { is_symlink: true, ..file_meta(7) };
    let mut e = entry("/d/link", link);
    // Unresolved: the link itself is no directory.
    assert!(!f.is_matching(&e));
    e.target = Some(FileMeta { len: 4096, ..dir_meta() });
    assert!(f.is_matching(&e));
    e.target = Some(FileMeta { len: 99, ..dir_meta() });
    assert!(!f.is_matching(&e));
    // The target of an entry that is no link is not looked at.
    let mut plain = entry("/d/file", file_meta(7));
    plain.target = Some(dir_meta());
    let mut p = params("/d");
    p.is_directory = Some(true);
    assert!(!Filter::try_from(p).ok().unwrap().is_matching(&plain));
}

#[test]
fn symlinked_directory_is_not_descended() {
    let link = FileMeta { is_symlink: true, ..file_meta(7) };
    let mut search = FindFiles::new().call(params("/d"), Ok(tree().into_iter())).ok().unwrap();
    let mut e = entry("/d/link", link);
    e.target = Some(dir_meta());
    assert!(matches!(search.step(WalkEvent::Entry(e), false), WalkAction::Yield(_)));
}

#[test]
fn timestamps_compare_by_their_total() {
    let a = Timestamp::new(1, 999_999_999);
    let b = Timestamp::new(2, 0);
    assert!(a.is_before(&b));
    assert!(b.is_after(&a));
    assert!(!a.is_after(&b));
    assert!(!a.is_before(&a));
    // A leap second written with more than a billion nanoseconds.
    let leap = Timestamp::new(1, 1_500_000_000);
    assert!(b.is_before(&leap));
    assert!(Timestamp::new(-1, 0).is_before(&Timestamp::new(0, 0)));
    assert!(Timestamp::new(i64::MIN, 0).is_before(&Timestamp::new(i64::MAX, u32::MAX)));
}

#[test]
fn target_is_wanted_for_type_and_size_only() {
    assert!(!Filter::try_from(params("/d")).ok().unwrap().wants_target());
    let mut p = params("/d");
    p.is_symlink = Some(true);
    p.name_regex = Some("a".to_owned());
    p.min_time_created = Some(Timestamp::new(0, 0));
    assert!(!Filter::try_from(p).ok().unwrap().wants_target());
    let mut p = params("/d");
    p.is_directory = Some(false);
    assert!(Filter::try_from(p).ok().unwrap().wants_target());
    let mut p = params("/d");
    p.min_size = Some(0);
    assert!(Filter::try_from(p).ok().unwrap().wants_target());
    let mut p = params("/d");
    p.max_size = Some(0);
    let search = FindFiles::new().call(p, Ok(tree().into_iter())).ok().unwrap();
    assert!(search.wants_target());
}

#[test]
fn directory_without_variables_is_itself() {
    let dir = FindFiles::new().directory(&params("/var/log")).ok().unwrap();
    assert_eq!(dir, std::path::PathBuf::from("/var/log"));
}

#[test]
fn directory_with_an_unknown_variable_fails() {
    let res = FindFiles::new().directory(&params("$KORAH_TEST_DIR_THAT_IS_NOT_SET/logs"));
    assert!(matches!(res, Err(ToolError::Shellexpend(_))));
    match FindFiles::expanded(Err("no such variable".to_owned())) {
        Err(ToolError::Shellexpend(cause)) => assert_eq!(cause, "no such variable"),
        _ => panic!("the failure is to be handed on"),
    }
    let kept = FindFiles::expanded(Ok(std::path::PathBuf::from("/d"))).ok().unwrap();
    assert_eq!(kept, std::path::PathBuf::from("/d"));
}

#[test]
fn file_filter_is_assembled_from_the_compiled_pattern() {
    let compiled = regex::Regex::new("^x").unwrap();
    let f = Filter::assemble(params("/d"), Some(Ok(compiled))).ok().unwrap();
    assert_eq!(f.pattern(), Some("^x"));
    assert!(f.is_matching(&entry("/d/xa", file_meta(1))));
    assert!(!f.is_matching(&entry("/d/ax", file_meta(1))));
    let failed = regex::Regex::new("(").unwrap_err();
    assert!(matches!(Filter::assemble(params("/d"), Some(Err(failed))), Err(ToolError::Regex(_))));
    let f = Filter::assemble(params("/d"), None).ok().unwrap();
    assert_eq!(f.pattern(), None);
}

#[test]
fn directory_that_asks_for_nothing_comes_back_as_written() {
    for path in ["", "/", "relative/dir", "/a/~b", "/with space/\u{e9}", "a~"] {
        let dir = FindFiles::new().directory(&params(path)).ok().unwrap();
        assert_eq!(dir, std::path::PathBuf::from(path));
    }
}

#[test]
fn timestamp_is_made_from_a_distance_to_the_epoch() {
    let t = Timestamp::from_epoch_distance(false, 5, 7).unwrap();
    assert_eq!((t.secs, t.nanos), (5, 7));
    let t = Timestamp::from_epoch_distance(true, 5, 0).unwrap();
    assert_eq!((t.secs, t.nanos), (-5, 0));
    // Before the epoch the nanoseconds still count forward.
    let t = Timestamp::from_epoch_distance(true, 5, 250_000_000).unwrap();
    assert_eq!((t.secs, t.nanos), (-6, 750_000_000));
    let t = Timestamp::from_epoch_distance(true, 0, 1).unwrap();
    assert_eq!((t.secs, t.nanos), (-1, 999_999_999));
    let t = Timestamp::from_epoch_distance(true, 0, 0).unwrap();
    assert_eq!((t.secs, t.nanos), (0, 0));
    // A nanosecond part of more than a second is carried over.
    let t = Timestamp::from_epoch_distance(false, 1, 2_500_000_000).unwrap();
    assert_eq!((t.secs, t.nanos), (3, 500_000_000));
    let t = Timestamp::from_epoch_distance(true, 1, 2_500_000_000).unwrap();
    assert_eq!((t.secs, t.nanos), (-4, 500_000_000));
}

#[test]
fn timestamp_too_far_off_cannot_be_held() {
    let max = i64::MAX as u64;
    let t = Timestamp::from_epoch_distance(false, max, 999_999_999).unwrap();
    assert_eq!((t.secs, t.nanos), (i64::MAX, 999_999_999));
    assert!(Timestamp::from_epoch_distance(false, max + 1, 0).is_none());
    assert!(Timestamp::from_epoch_distance(false, max, 1_000_000_000).is_none());
    assert!(Timestamp::from_epoch_distance(false, u64::MAX, u32::MAX).is_none());
    let t = Timestamp::from_epoch_distance(true, max + 1, 0).unwrap();
    assert_eq!((t.secs, t.nanos), (i64::MIN, 0));
    assert!(Timestamp::from_epoch_distance(true, max + 1, 1).is_none());
    assert!(Timestamp::from_epoch_distance(true, u64::MAX, 0).is_none());
    let t = Timestamp::from_epoch_distance(true, max, 1).unwrap();
    assert_eq!((t.secs, t.nanos), (i64::MIN, 999_999_999));
}

#[test]
fn timestamps_from_the_clock_keep_their_order() {
    let before = Timestamp::from_epoch_distance(true, 0, 1).unwrap();
    let epoch = Timestamp::from_epoch_distance(false, 0, 0).unwrap();
    let after = Timestamp::from_epoch_distance(false, 0, 1).unwrap();
    assert!(before.is_before(&epoch));
    assert!(epoch.is_before(&after));
    assert!(after.is_after(&before));
}
