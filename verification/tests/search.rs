use pitou_core::backend::Backend;
use pitou_core::file::{PitouDateTime, PitouFile, PitouFileFilter, PitouFileKind, PitouFileMetadata, PitouFileSize};
use pitou_core::msg::SearchMsg;
use pitou_core::path::PitouFilePath;
use pitou_core::search::{
    FrontendSearchOptions, SearchOptions, SearchSession, SearchVariables, SimplifiedSearchOptions,
};
use pitou_core::tree::TreeNode;
use pitou_core::walk::{is_branch, recursive_search};

fn meta(kind: PitouFileKind, size: u64, attribute: u32) -> PitouFileMetadata {
    let at = PitouDateTime { datetime: 0 };
    PitouFileMetadata {
        modified: at,
        accessed: at,
        created: at,
        size: PitouFileSize::new(size),
        kind,
        attribute,
    }
}

fn file(path: &str) -> TreeNode {
    TreeNode::leaf(PitouFile::new(path.to_string(), Some(meta(PitouFileKind::File, 10, 0))))
}

fn dir(path: &str, children: Vec<TreeNode>) -> TreeNode {
    TreeNode::branch(
        PitouFile::new(path.to_string(), Some(meta(PitouFileKind::Directory, 0, 0))),
        children,
    )
}

fn locked_dir(path: &str) -> TreeNode {
    TreeNode::leaf(PitouFile::new(path.to_string(), Some(meta(PitouFileKind::Directory, 0, 0))))
}

fn request(kind: u8, input: &str, depth: u8, max_finds: usize) -> SimplifiedSearchOptions {
    SimplifiedSearchOptions {
        search_dir: PitouFile::without_metadata(PitouFilePath::from_pathbuf("/root".to_string())),
        input: input.to_string(),
        search_kind: kind,
        depth,
        case_sensitive: false,
        hardware_accelerate: false,
        skip_errors: true,
        filter: PitouFileFilter::new(),
        max_finds,
    }
}

fn options(kind: u8, input: &str, depth: u8, max_finds: usize) -> SearchOptions {
    request(kind, input, depth, max_finds).try_into().unwrap()
}

/// What the branches of the search that the session serves carry.
fn serving(session: &SearchSession, skip_errors: bool) -> SearchVariables {
    let (mut variables, _) = options(3, "", 5, 100).into_variables();
    variables.epoch = session.epoch();
    variables.skip_errors = skip_errors;
    variables
}

fn names(msg: &SearchMsg) -> Vec<String> {
    msg.items().iter().map(|f| f.name().to_string()).collect()
}

/// /root
///   a.txt
///   sub/
///     b.txt
///     deeper/
///       c.txt
///   z.txt
fn tree() -> TreeNode {
    dir(
        "/root",
        vec![
            file("/root/a.txt"),
            dir(
                "/root/sub",
                vec![file("/root/sub/b.txt"), dir("/root/sub/deeper", vec![file("/root/sub/deeper/c.txt")])],
            ),
            file("/root/z.txt"),
        ],
    )
}

#[test]
fn depth_zero_finds_nothing() {
    let mut session = SearchSession::new();
    assert!(session.search_tree(options(3, "", 0, 100), &tree()));
    let msg = session.read();
    assert!(msg.is_terminated());
    assert!(msg.items().is_empty());
}

#[test]
fn depth_one_finds_immediate_children_only() {
    let mut session = SearchSession::new();
    assert!(session.search_tree(options(3, "", 1, 100), &tree()));
    let msg = session.read();
    assert!(msg.is_terminated());
    assert_eq!(names(&msg), vec!["a.txt", "sub", "z.txt"]);
}

#[test]
fn depth_bounds_the_levels_that_are_searched() {
    let mut session = SearchSession::new();
    session.search_tree(options(3, "", 2, 100), &tree());
    assert_eq!(names(&session.read()), vec!["a.txt", "b.txt", "deeper", "sub", "z.txt"]);
    session.search_tree(options(3, "", 3, 100), &tree());
    assert_eq!(names(&session.read()), vec!["a.txt", "b.txt", "c.txt", "deeper", "sub", "z.txt"]);
    session.search_tree(options(3, "", 200, 100), &tree());
    assert_eq!(session.read().items().len(), 6);
}

#[test]
fn at_most_max_finds_results() {
    for n in 0..8usize {
        let mut session = SearchSession::new();
        session.search_tree(options(3, "", 5, n), &tree());
        assert!(session.is_terminated());
        let msg = session.read();
        assert_eq!(msg.items().len(), n.min(6));
        assert!(msg.is_terminated());
    }
    let mut session = SearchSession::new();
    session.search_tree(options(3, "", 5, 2), &tree());
    assert_eq!(names(&session.read()), vec!["a.txt", "b.txt"]);
}

#[test]
fn only_what_matches_is_found() {
    let mut session = SearchSession::new();
    session.search_tree(options(2, ".TXT", 5, 100), &tree());
    assert_eq!(names(&session.read()), vec!["a.txt", "b.txt", "c.txt", "z.txt"]);
    session.search_tree(options(1, "de", 5, 100), &tree());
    assert_eq!(names(&session.read()), vec!["deeper"]);
    session.search_tree(options(0, "^[ab]\\.", 5, 100), &tree());
    assert_eq!(names(&session.read()), vec!["a.txt", "b.txt"]);
    let mut sensitive = request(2, ".TXT", 5, 100);
    sensitive.case_sensitive = true;
    session.search_tree(sensitive.try_into().unwrap(), &tree());
    assert!(session.read().items().is_empty());
}

#[test]
fn the_kind_filter_is_applied() {
    let mut only_dirs = request(3, "", 5, 100);
    only_dirs.filter = PitouFileFilter::only_dirs();
    let mut session = SearchSession::new();
    assert!(session.search_tree(only_dirs.try_into().unwrap(), &tree()));
    assert_eq!(names(&session.read()), vec!["deeper", "sub"]);

    let mut nothing = request(3, "", 5, 100);
    nothing.filter = PitouFileFilter { files: false, links: false, dirs: false, sys_items: true };
    session.configure_stream(4);
    assert!(!session.search_tree(nothing.try_into().unwrap(), &tree()));
    assert_eq!(session.remaining(), 4);
}

#[test]
fn unreadable_directories_are_skipped_or_end_the_search() {
    let tree = dir(
        "/root",
        vec![file("/root/a.txt"), locked_dir("/root/locked"), file("/root/z.txt")],
    );
    let mut session = SearchSession::new();
    session.search_tree(options(3, "", 5, 100), &tree);
    assert_eq!(names(&session.read()), vec!["a.txt", "locked", "z.txt"]);

    let mut strict = request(3, "", 5, 100);
    strict.skip_errors = false;
    session.search_tree(strict.try_into().unwrap(), &tree);
    let msg = session.read();
    assert!(msg.is_terminated());
    assert_eq!(names(&msg), vec!["a.txt"]);

    // With one level to go the directory is never listed, so nothing fails.
    let mut strict = request(3, "", 1, 100);
    strict.skip_errors = false;
    session.search_tree(strict.try_into().unwrap(), &tree);
    assert_eq!(names(&session.read()), vec!["a.txt", "locked", "z.txt"]);
}

#[test]
fn a_walk_leaves_a_terminated_session_alone() {
    let mut session = SearchSession::new();
    let variables = serving(&session, true);
    recursive_search(&tree(), &variables, 5, &mut session);
    assert!(session.is_terminated());
    assert_eq!(session.buffered(), 0);
    session.configure_stream(100);
    // The session serves the next search now: the branches of the last one
    // are not listened to.
    recursive_search(&tree(), &variables, 5, &mut session);
    assert_eq!(session.buffered(), 0);
    assert_eq!(session.remaining(), 100);
    let variables = serving(&session, true);
    recursive_search(&tree(), &variables, 5, &mut session);
    assert_eq!(session.buffered(), 6);
    assert_eq!(session.remaining(), 94);
    assert!(!session.is_terminated());
}

#[test]
fn every_find_is_read_exactly_once() {
    let find = |name: &str| PitouFile::without_metadata(PitouFilePath::from_pathbuf(name.to_string()));
    let mut session = SearchSession::new();
    session.configure_stream(10);
    session.write(find("/1"));
    session.write(find("/2"));
    session.write(find("/3"));
    let first = session.read();
    assert!(!first.is_terminated());
    assert!(matches!(first, SearchMsg::Active(_)));
    assert_eq!(names(&first), vec!["1", "2", "3"]);
    let idle = session.read();
    assert!(!idle.is_terminated());
    assert!(idle.items().is_empty());
    session.write(find("/4"));
    session.write(find("/5"));
    session.terminate_stream();
    assert!(session.is_terminated());
    session.write(find("/6"));
    session.terminate_stream();
    let last = session.read();
    assert!(last.is_terminated());
    assert_eq!(names(&last), vec!["4", "5"]);
    let after = session.read();
    assert!(after.is_terminated());
    assert!(after.items().is_empty());
}

#[test]
fn paying_for_finds() {
    let mut session = SearchSession::new();
    assert!(!session.count_and_proceed());
    session.configure_stream(2);
    assert_eq!(session.remaining(), 2);
    assert!(session.count_and_proceed());
    assert!(session.count_and_proceed());
    assert!(!session.count_and_proceed());
    assert_eq!(session.remaining(), 0);
}

#[test]
fn branches_are_cancelled_when_the_budget_is_used_up() {
    let runtime = tokio::runtime::Builder::new_current_thread().build().unwrap();
    let find = |name: &str| PitouFile::without_metadata(PitouFilePath::from_pathbuf(name.to_string()));
    let mut session = SearchSession::new();
    session.configure_stream(2);
    let variables = serving(&session, true);
    let first = runtime.spawn(std::future::pending::<()>());
    let second = runtime.spawn(std::future::pending::<()>());
    let watch_first = first.abort_handle();
    let watch_second = second.abort_handle();
    session.append_handle(&variables, first);
    session.append_handle(&variables, second);
    assert_eq!(session.pending(), 2);
    session.write(find("/1"));
    assert_eq!(session.pending(), 2);
    runtime.block_on(tokio::task::yield_now());
    assert!(!watch_first.is_finished());
    session.write(find("/2"));
    assert_eq!(session.pending(), 0);
    assert!(session.is_terminated());
    runtime.block_on(tokio::task::yield_now());
    assert!(watch_first.is_finished());
    assert!(watch_second.is_finished());
    assert_eq!(session.read().items().len(), 2);
}

#[test]
fn winding_a_search_down() {
    let runtime = tokio::runtime::Builder::new_current_thread().build().unwrap();
    let mut session = SearchSession::new();
    session.configure_stream(5);
    let variables = serving(&session, true);
    let first = runtime.spawn(async {});
    let second = runtime.spawn(async {});
    let first_id = first.id();
    let second_id = second.id();
    session.append_handle(&variables, first);
    session.append_handle(&variables, second);
    let handed = session.proceed_to_finish_stream(&variables).unwrap();
    assert_eq!(handed.len(), 2);
    assert_eq!(handed[0].id(), second_id);
    assert_eq!(handed[1].id(), first_id);
    assert!(!session.is_terminated());
    assert_eq!(session.pending(), 0);
    for handle in handed {
        runtime.block_on(handle).unwrap();
    }
    assert!(session.proceed_to_finish_stream(&variables).is_none());
    assert!(session.is_terminated());
}

#[test]
fn a_failed_listing_with_and_without_skipping() {
    let runtime = tokio::runtime::Builder::new_current_thread().build().unwrap();
    let mut session = SearchSession::new();
    session.configure_stream(5);
    let task = runtime.spawn(std::future::pending::<()>());
    let watch = task.abort_handle();
    session.append_handle(&serving(&session, true), task);
    session.read_failed(&serving(&session, true));
    assert_eq!(session.remaining(), 5);
    assert_eq!(session.pending(), 1);
    session.read_failed(&serving(&session, false));
    assert!(session.is_terminated());
    assert_eq!(session.pending(), 0);
    runtime.block_on(tokio::task::yield_now());
    assert!(watch.is_finished());
}

#[test]
fn a_new_search_cancels_the_branches_of_the_old() {
    let runtime = tokio::runtime::Builder::new_current_thread().build().unwrap();
    let mut session = SearchSession::new();
    session.configure_stream(5);
    let old = serving(&session, false);
    let task = runtime.spawn(std::future::pending::<()>());
    let watch = task.abort_handle();
    session.append_handle(&old, task);
    session.write(PitouFile::without_metadata(PitouFilePath::from_pathbuf("/old".to_string())));
    let started = session.search(options(3, "", 3, 7));
    let (new, _) = started.unwrap();
    assert_eq!(new.epoch, session.epoch());
    assert_eq!(new.epoch, old.epoch + 1);
    assert_eq!(session.remaining(), 7);
    assert_eq!(session.buffered(), 0);
    assert_eq!(session.pending(), 0);
    runtime.block_on(tokio::task::yield_now());
    assert!(watch.is_finished());

    // Whatever the branches of the old search still do is ignored.
    let late = runtime.spawn(std::future::pending::<()>());
    let watch_late = late.abort_handle();
    session.append_handle(&old, late);
    assert_eq!(session.pending(), 0);
    runtime.block_on(tokio::task::yield_now());
    assert!(watch_late.is_finished());
    assert!(!session.offer(&old, PitouFile::new("/late".to_string(), Some(meta(PitouFileKind::File, 1, 0)))));
    assert_eq!(session.descend(&old, 3), None);
    session.read_failed(&old);
    assert!(session.proceed_to_finish_stream(&old).is_none());
    assert!(!session.is_terminated());
    assert_eq!(session.remaining(), 7);
    assert_eq!(session.buffered(), 0);
    assert!(session.is_serving(&new) && !session.is_serving(&old));

    // The branches of the new search are listened to.
    assert!(session.offer(&new, PitouFile::new("/new".to_string(), Some(meta(PitouFileKind::File, 1, 0)))));
    assert_eq!(session.descend(&new, 3), Some(2));
    assert_eq!(session.buffered(), 1);
}

#[test]
fn an_unbalanced_bracket_starts_no_search() {
    let mut backend = Backend::new();
    assert!(!backend.is_searching());
    assert!(backend.search(request(0, "[", 6, 25)).is_none());
    assert!(!backend.is_searching());
    let msg = backend.search_msg();
    assert!(msg.is_terminated());
    assert!(msg.items().is_empty());

    // A search that is under way is not disturbed either.
    let started = backend.search(request(1, "a", 6, 25));
    assert!(started.is_some());
    assert!(backend.is_searching());
    backend.search.write(PitouFile::without_metadata(PitouFilePath::from_pathbuf("/a".to_string())));
    assert!(backend.search(request(0, "(", 6, 25)).is_none());
    assert!(backend.search(request(9, "a", 6, 25)).is_none());
    assert!(backend.is_searching());
    assert_eq!(backend.search.remaining(), 24);
    assert_eq!(backend.search.buffered(), 1);
}

#[test]
fn terminating_a_search_from_the_backend() {
    let mut backend = Backend::new();
    let (variables, directory): (SearchVariables, PitouFilePath) =
        backend.search(request(3, "x", 4, 3)).unwrap();
    assert_eq!(directory.path, "/root");
    assert_eq!(variables.depth, 4);
    assert!(variables.skip_errors);
    assert!(backend.is_searching());
    backend.search.write(PitouFile::without_metadata(PitouFilePath::from_pathbuf("/x1".to_string())));
    backend.terminate_search();
    assert!(!backend.is_searching());
    backend.terminate_search();
    assert!(!backend.is_searching());
    backend.search.write(PitouFile::without_metadata(PitouFilePath::from_pathbuf("/x2".to_string())));
    let msg = backend.search_msg();
    assert!(msg.is_terminated());
    assert_eq!(names(&msg), vec!["x1"]);
}

#[test]
fn the_search_form_starts_out_as_a_prefix_search() {
    let form = FrontendSearchOptions::init();
    assert_eq!(form.input, "");
    assert_eq!(form.search_kind, 1);
    assert_eq!(form.depth, 6);
    assert!(!form.case_sensitive);
    assert!(!form.hardware_accelerate);
    assert!(form.skip_errors);
    assert!(form.filter == PitouFileFilter::new());
    assert_eq!(form.max_finds, 25);
    let dir = PitouFile::new("/home".to_string(), Some(meta(PitouFileKind::Directory, 3, 0)));
    let request = SimplifiedSearchOptions::build_from(form, &dir);
    assert_eq!(request.search_dir.path.path, "/home");
    assert!(request.search_dir.metadata.is_none());
    assert_eq!(request.max_finds, 25);
    assert_eq!(request.search_kind, 1);
}

#[test]
fn system_items_pass_only_when_asked_for() {
    let hidden = PitouFile::new("/root/hidden".to_string(), Some(meta(PitouFileKind::File, 1, 2)));
    let system = PitouFile::new("/root/system".to_string(), Some(meta(PitouFileKind::Link, 1, 256)));
    let unknown = PitouFile::without_metadata(PitouFilePath::from_pathbuf("/root/unknown".to_string()));
    assert!(hidden.is_sys_item() && system.is_sys_item() && !unknown.is_sys_item());
    let only_sys = PitouFileFilter { files: false, links: false, dirs: false, sys_items: true };
    assert!(only_sys.allows(&hidden));
    assert!(only_sys.map(system).is_some());
    assert!(only_sys.all_filtered());
    assert!(!PitouFileFilter::new().all_filtered());
    assert!(PitouFileFilter::new().allows(&hidden));
    assert!(!PitouFileFilter::only_dirs().allows(&hidden));
    assert!(PitouFileFilter::new().map(unknown).is_none());
}

#[test]
fn only_directories_with_a_level_left_are_walked_into() {
    let folder = PitouFile::new("/d".to_string(), Some(meta(PitouFileKind::Directory, 0, 0)));
    let plain = PitouFile::new("/f".to_string(), Some(meta(PitouFileKind::File, 0, 0)));
    let unknown = PitouFile::without_metadata(PitouFilePath::from_pathbuf("/u".to_string()));
    assert!(is_branch(&folder, 1));
    assert!(is_branch(&folder, 255));
    assert!(!is_branch(&folder, 0));
    assert!(!is_branch(&plain, 3));
    assert!(!is_branch(&unknown, 3));
    let mut session = SearchSession::new();
    assert_eq!(session.descend(&serving(&session, true), 3), None);
    let (variables, _) = session.search(options(1, "f", 3, 1)).unwrap();
    assert_eq!(session.descend(&variables, 3), Some(2));
    assert_eq!(session.descend(&variables, 1), Some(0));
    assert_eq!(session.descend(&variables, 0), None);
    assert!(!session.offer(&variables, folder));
    assert!(session.offer(&variables, plain));
    assert_eq!(session.descend(&variables, 3), None);
    assert_eq!(session.buffered(), 1);
}
