use collab::peers::{main_cursor_id, Peer, RemotePeer, RemotePeers};

fn peer(id: u64, handle: &str) -> Peer {
    Peer { id, handle: handle.to_string() }
}

#[test]
fn main_cursor_is_the_oldest_of_the_owner() {
    let cursors = vec![(1, 30), (2, 5), (1, 10), (1, 20)];
    assert_eq!(main_cursor_id(&cursors, 1), Some(10));
    assert_eq!(main_cursor_id(&cursors, 2), Some(5));
    assert_eq!(main_cursor_id(&cursors, 3), None);
    assert_eq!(main_cursor_id(&Vec::new(), 1), None);
}

#[test]
fn remote_peer_finds_its_main_cursor() {
    let rp = RemotePeer::new(peer(4, "dana"), &vec![(4, 9), (4, 2), (5, 1)]);
    assert_eq!(rp.main_cursor_id, Some(2));
    assert_eq!(rp.peer.handle, "dana");
}

#[test]
fn later_peer_with_same_id_replaces_earlier() {
    let peers = RemotePeers::new(vec![peer(1, "alice"), peer(2, "bob"), peer(1, "alicia")], &vec![(2, 7)]);
    assert_eq!(peers.len(), 2);
    assert_eq!(peers.get(1).unwrap().peer.handle, "alicia");
    assert_eq!(peers.get(1).unwrap().main_cursor_id, None);
    assert_eq!(peers.get(2).unwrap().main_cursor_id, Some(7));
    assert!(peers.get(3).is_none());
}

#[test]
fn insert_then_remove_gives_the_peer_back() {
    let mut peers = RemotePeers::new(vec![peer(1, "alice")], &Vec::new());
    peers.insert(peer(2, "bob"), &vec![(2, 3)]);
    assert_eq!(peers.len(), 2);
    let removed = peers.remove(2);
    assert_eq!(removed.peer.id, 2);
    assert_eq!(removed.peer.handle, "bob");
    assert_eq!(removed.main_cursor_id, Some(3));
    assert_eq!(peers.len(), 1);
    assert!(peers.get(2).is_none());
    assert!(peers.get(1).is_some());
}

#[test]
fn find_by_handle() {
    let peers = RemotePeers::new(vec![peer(1, "alice"), peer(2, "bob")], &Vec::new());
    assert_eq!(peers.find_by_handle("bob").unwrap().peer.id, 2);
    assert!(peers.find_by_handle("carol").is_none());
    assert!(peers.find_by_handle("bo").is_none());
}

#[test]
fn handles_with_prefix() {
    let peers = RemotePeers::new(vec![peer(1, "alice"), peer(2, "albert"), peer(3, "bob")], &Vec::new());
    let mut found = peers.handles_with_prefix("al");
    found.sort();
    assert_eq!(found, vec!["albert".to_string(), "alice".to_string()]);
    let mut all = peers.handles_with_prefix("");
    all.sort();
    assert_eq!(all, vec!["albert".to_string(), "alice".to_string(), "bob".to_string()]);
    assert!(peers.handles_with_prefix("z").is_empty());
}

#[test]
fn ids_lists_each_peer_once() {
    let peers = RemotePeers::new(vec![peer(5, "e"), peer(6, "f"), peer(5, "g")], &Vec::new());
    let mut ids = peers.ids();
    ids.sort();
    assert_eq!(ids, vec![5, 6]);
}

#[test]
fn every_peer_with_local_last() {
    let peers = RemotePeers::new(vec![peer(1, "a"), peer(2, "b")], &Vec::new());
    let all = peers.with_local(&peer(9, "me"));
    assert_eq!(all.len(), 3);
    assert_eq!(all[2].id, 9);
    let mut ids: Vec<u64> = all[..2].iter().map(|p| p.id).collect();
    ids.sort();
    assert_eq!(ids, vec![1, 2]);
}
