use collab::decorations::{decoration_buffer, Decorations};
use collab::id_maps::IdMaps;
use collab::peers::{Peer, RemotePeers};

#[test]
fn removing_a_peers_decorations() {
    let mut d = Decorations::new();
    d.insert(1, "a");
    d.insert(2, "b");
    d.insert(3, "c");
    let removed = d.remove_all(&vec![3, 9, 1, 3]);
    assert_eq!(removed, vec!["c", "a"]);
    assert_eq!(d.len(), 1);
    assert!(d.contains(2));
    assert!(!d.contains(1));
    assert!(!d.contains(3));
}

#[test]
fn remove_gives_the_decoration_back() {
    let mut d = Decorations::new();
    d.insert(4, 40);
    d.insert(4, 41);
    assert_eq!(d.remove(4), Some(41));
    assert_eq!(d.remove(4), None);
}

#[test]
fn decorations_only_for_known_peers_in_open_files() {
    let peers = RemotePeers::new(vec![Peer { id: 2, handle: "bob".to_string() }], &Vec::new());
    let mut maps = IdMaps::new();
    maps.link_buffer(7, 70);
    assert_eq!(decoration_buffer(&peers, 2, &maps, 70), Some(7));
    assert_eq!(decoration_buffer(&peers, 3, &maps, 70), None);
    assert_eq!(decoration_buffer(&peers, 2, &maps, 71), None);
}
