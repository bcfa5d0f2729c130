use collab::decorations::Decorations;
use collab::id_maps::IdMaps;
use collab::integrate::{on_file_saved, RemoteMark, RemoteState};
use collab::peers::{Peer, RemotePeers};

fn state() -> RemoteState<String, String> {
    RemoteState {
        peers: RemotePeers::new(vec![Peer { id: 2, handle: "bob".to_string() }], &vec![(2, 20)]),
        tooltips: Decorations::new(),
        selections: Decorations::new(),
    }
}

#[test]
fn new_cursor_is_drawn_in_its_open_buffer() {
    let s = state();
    let mut maps = IdMaps::new();
    maps.link_buffer(7, 70);
    let at = s.on_mark_created(Some(RemoteMark { id: 21, owner: 2, file_id: 70 }), &maps).unwrap();
    assert_eq!((at.id, at.peer.handle.as_str(), at.buffer_id), (21, "bob", 7));
    assert!(s.on_mark_created(Some(RemoteMark { id: 21, owner: 3, file_id: 70 }), &maps).is_none());
    assert!(s.on_mark_created(Some(RemoteMark { id: 21, owner: 2, file_id: 71 }), &maps).is_none());
    assert!(s.on_mark_created(None, &maps).is_none());
}

#[test]
fn removed_cursor_gives_back_its_tooltip() {
    let mut s = state();
    s.tooltips.insert(21, "tooltip".to_string());
    assert_eq!(s.on_cursor_removed(Some(21)), Some("tooltip".to_string()));
    assert_eq!(s.on_cursor_removed(Some(21)), None);
    assert_eq!(s.on_cursor_removed(None), None);
    s.selections.insert(5, "sel".to_string());
    assert_eq!(s.on_selection_removed(Some(5)), Some("sel".to_string()));
}

#[test]
fn peer_leaving_takes_its_decorations() {
    let mut s = state();
    s.on_peer_joined(Peer { id: 3, handle: "carl".to_string() }, &vec![(3, 30)]);
    assert_eq!(s.peers.get(3).unwrap().main_cursor_id, Some(30));
    s.tooltips.insert(30, "t30".to_string());
    s.tooltips.insert(20, "t20".to_string());
    s.selections.insert(31, "s31".to_string());
    let (peer, tooltips, selections) = s.on_peer_left(3, &vec![30, 32], &vec![31]);
    assert_eq!(peer.peer.handle, "carl");
    assert_eq!(tooltips, vec!["t30".to_string()]);
    assert_eq!(selections, vec!["s31".to_string()]);
    assert!(s.peers.get(3).is_none());
    assert!(s.tooltips.contains(20));
    assert_eq!(s.selections.len(), 0);
}

#[test]
fn saved_file_saves_its_open_buffer() {
    let mut maps = IdMaps::new();
    maps.link_buffer(7, 70);
    assert_eq!(on_file_saved(Some(70), &maps), Some(7));
    assert_eq!(on_file_saved(Some(71), &maps), None);
    assert_eq!(on_file_saved(None, &maps), None);
}
