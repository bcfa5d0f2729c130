use collab::event_filter::NodeKind;
use collab::event_filter::{MoveOutcome, WatchState};

fn state() -> WatchState {
    WatchState::new(1, "/home/u/proj".to_string())
}

#[test]
fn buffers_under_the_root_belong_to_the_project() {
    let w = state();
    assert!(w.buffer_in_project("/home/u/proj/src/lib.rs"));
    assert!(w.buffer_in_project("/home/u/proj"));
    assert!(!w.buffer_in_project("/home/u/project/lib.rs"));
    assert!(!w.buffer_in_project("/tmp/x"));
}

#[test]
fn cursors_and_selections_only_in_watched_buffers() {
    let mut w = state();
    w.watch_buffer(7, 70);
    assert!(w.cursor_in_project(7));
    assert!(w.selection_in_project(7));
    assert!(!w.cursor_in_project(8));
    assert!(!w.selection_in_project(8));
    w.buffer_removed(7);
    assert!(!w.cursor_in_project(7));
}

#[test]
fn deletion_of_a_node_is_forwarded() {
    let mut w = state();
    w.watch_buffer(7, 70);
    assert!(w.on_deletion(70, 70));
    assert!(!w.is_buffer_watched(7));
}

#[test]
fn deletion_through_an_ancestor_is_ignored_unless_root() {
    let mut w = state();
    assert!(!w.on_deletion(5, 4));
    assert!(w.on_deletion(1, 0));
}

#[test]
fn move_of_root_along_with_ancestor_updates_root_path() {
    let mut w = state();
    assert_eq!(w.on_move(1, 0, "/home/v/proj"), MoveOutcome::Forward);
    assert_eq!(w.root_path(), "/home/v/proj");
}

#[test]
fn move_along_with_ancestor_is_ignored() {
    let mut w = state();
    assert_eq!(w.on_move(5, 4, "/elsewhere"), MoveOutcome::Ignore);
    assert_eq!(w.root_path(), "/home/u/proj");
}

#[test]
fn move_inside_the_project_is_forwarded() {
    let mut w = state();
    w.watch_file(9);
    assert_eq!(w.on_move(9, 9, "/home/u/proj/b"), MoveOutcome::Forward);
}

#[test]
fn move_out_of_the_project_becomes_a_deletion() {
    let mut w = state();
    w.watch_file(9);
    w.watch_buffer(3, 9);
    assert_eq!(w.on_move(9, 9, "/tmp/b"), MoveOutcome::AsDeletion);
    assert!(!w.is_buffer_watched(3));
    w.watch_directory(10);
    assert_eq!(w.on_move(10, 10, "/tmp/d"), MoveOutcome::AsDeletion);
}

#[test]
fn modification_from_a_save_is_dropped_once() {
    let mut w = state();
    w.watch_buffer(3, 9);
    w.buffer_saved(3);
    assert!(!w.on_file_modification(9));
    assert!(w.on_file_modification(9));
    assert!(w.on_file_modification(11));
}

#[test]
fn cursors_and_selections_are_watched_and_removed() {
    let mut w = state();
    w.watch_cursor(1);
    w.cursor_removed(1);
    w.watch_cursor(1);
    w.watch_selection(2);
    w.selection_removed(2);
    w.watch_selection(2);
}

#[test]
fn all_but_one_keeps_only_its_node() {
    let f = collab::event_filter::AllButOne { id: 4 };
    assert!(!f.should_filter(4));
    assert!(f.should_filter(5));
}

#[test]
fn watching_created_nodes() {
    let mut w = state();
    w.watch_node(NodeKind::File, 12, Some(5));
    assert!(w.is_buffer_watched(5));
    w.watch_node(NodeKind::Directory, 13, None);
    w.watch_node(NodeKind::Symlink, 14, None);
    assert_eq!(w.on_move(12, 12, "/tmp/x"), MoveOutcome::AsDeletion);
    assert!(!w.is_buffer_watched(5));
}
