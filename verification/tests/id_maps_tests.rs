use collab::id_maps::{project_node_of, ProjectNodeId};
use collab::id_maps::{buffer_for_file, IdMaps, FileBuffer};

#[test]
fn linked_buffer_and_file_map_both_ways() {
    let mut maps = IdMaps::new();
    maps.link_buffer(1, 10);
    assert_eq!(maps.file_of_buffer(1), Some(10));
    assert_eq!(maps.buffer_of_file(10), Some(1));
    maps.unlink_buffer(1);
    assert_eq!(maps.file_of_buffer(1), None);
    assert_eq!(maps.buffer_of_file(10), None);
}

#[test]
fn unlinking_unknown_buffer_changes_nothing() {
    let mut maps = IdMaps::new();
    maps.link_buffer(1, 10);
    maps.unlink_buffer(2);
    assert_eq!(maps.file_of_buffer(1), Some(10));
    assert_eq!(maps.buffer_of_file(10), Some(1));
}

#[test]
fn cursors_and_selections_are_tracked() {
    let mut maps = IdMaps::new();
    maps.track_cursor(3, 30);
    maps.track_selection(4, 40);
    assert_eq!(maps.project_cursor(3), Some(30));
    assert_eq!(maps.project_selection(4), Some(40));
    maps.untrack_cursor(3);
    maps.untrack_selection(4);
    assert_eq!(maps.project_cursor(3), None);
    assert_eq!(maps.project_selection(4), None);
}

#[test]
fn file_id_change_keeps_the_project_file() {
    let mut maps = IdMaps::new();
    maps.file_created(5, 50);
    maps.file_id_changed(5, 6);
    assert_eq!(maps.file_of_node(5), None);
    assert_eq!(maps.file_of_node(6), Some(50));
}

#[test]
fn deleting_a_file_node_unlinks_its_buffer() {
    let mut maps = IdMaps::new();
    maps.file_created(5, 50);
    maps.link_buffer(7, 50);
    maps.directory_created(8, 80);
    maps.node_deleted(5);
    assert_eq!(maps.file_of_node(5), None);
    assert_eq!(maps.buffer_of_file(50), None);
    assert_eq!(maps.file_of_buffer(7), None);
    assert_eq!(maps.dir_of_node(8), Some(80));
}

#[test]
fn deleting_a_directory_node() {
    let mut maps = IdMaps::new();
    maps.directory_created(8, 80);
    maps.node_deleted(8);
    assert_eq!(maps.dir_of_node(8), None);
}

#[test]
fn jump_uses_open_buffer_or_creates_one() {
    let mut maps = IdMaps::new();
    maps.link_buffer(2, 20);
    match buffer_for_file(&maps, 20, "/home/u/p", "/src/lib.rs") {
        FileBuffer::Open(b) => assert_eq!(b, 2),
        other => panic!("unexpected {other:?}"),
    }
    match buffer_for_file(&maps, 21, "/home/u/p", "/src/lib.rs") {
        FileBuffer::Create(path) => assert_eq!(path, "/home/u/p/src/lib.rs"),
        other => panic!("unexpected {other:?}"),
    }
}

#[test]
fn project_node_lookup_prefers_directories() {
    let mut maps = IdMaps::new();
    maps.directory_created(1, 10);
    maps.file_created(2, 20);
    assert_eq!(project_node_of(&maps, 1), Some(ProjectNodeId::Directory(10)));
    assert_eq!(project_node_of(&maps, 2), Some(ProjectNodeId::File(20)));
    assert_eq!(project_node_of(&maps, 3), None);
}
