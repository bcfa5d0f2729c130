use collab::peers::{Peer, RemotePeers};
use collab::sessions::{ProjectAccess, 
    choose_session, completion_prefix, cursor_not_in_project_message, jump_completions, unknown_peer_message,
    CursorPosition, JumpTarget, NoActiveSessionError, SessionChoice, SessionInfos, Sessions, StopChannels,
};

fn peer(id: u64, handle: &str) -> Peer {
    Peer { id, handle: handle.to_string() }
}

fn infos(session_id: u64, root: &str, peers: Vec<Peer>, cursors: Vec<(u64, u64)>) -> SessionInfos {
    SessionInfos {
        host_id: 1,
        local_peer: peer(100, "me"),
        remote_peers: RemotePeers::new(peers, &cursors),
        project_root_path: root.to_string(),
        session_id,
    }
}

#[test]
fn no_session_is_an_error() {
    let sessions = Sessions::new();
    let list = sessions.active_sessions();
    assert!(list.is_empty());
    assert_eq!(choose_session(list).unwrap_err(), NoActiveSessionError);
    assert_eq!(NoActiveSessionError.message(), "There's no active collaborative editing session");
}

#[test]
fn single_session_is_picked() {
    let mut sessions = Sessions::new();
    sessions.insert(infos(7, "/home/u/proj", vec![], vec![]));
    match choose_session(sessions.active_sessions()).unwrap() {
        SessionChoice::Single(path, id) => {
            assert_eq!(path, "/home/u/proj");
            assert_eq!(id, 7);
        },
        other => panic!("unexpected choice {other:?}"),
    }
}

#[test]
fn several_sessions_ask_the_user() {
    let mut sessions = Sessions::new();
    sessions.insert(infos(1, "/a", vec![], vec![]));
    sessions.insert(infos(2, "/b", vec![], vec![]));
    match choose_session(sessions.active_sessions()).unwrap() {
        SessionChoice::Ask(mut list) => {
            list.sort();
            assert_eq!(list, vec![("/a".to_string(), 1), ("/b".to_string(), 2)]);
        },
        other => panic!("unexpected choice {other:?}"),
    }
}

#[test]
fn insert_get_remove() {
    let mut sessions = Sessions::new();
    sessions.insert(infos(3, "/p/x", vec![], vec![]));
    assert_eq!(sessions.len(), 1);
    assert_eq!(sessions.get(3).unwrap().proj_name(), "x");
    assert!(sessions.remove(3));
    assert!(!sessions.remove(3));
    assert!(sessions.get(3).is_none());
}

#[test]
fn jump_to_peer_with_cursor() {
    let mut sessions = Sessions::new();
    sessions.insert(infos(1, "/p/one", vec![peer(2, "bob")], vec![(2, 11), (2, 4)]));
    match sessions.jump_target("bob") {
        JumpTarget::Cursor(sid, cursor) => {
            assert_eq!(sid, 1);
            assert_eq!(cursor, 4);
        },
        _ => panic!("expected a cursor"),
    }
}

#[test]
fn jump_to_peer_without_cursor() {
    let mut sessions = Sessions::new();
    sessions.insert(infos(1, "/p/one", vec![peer(2, "bob")], vec![]));
    match sessions.jump_target("bob") {
        JumpTarget::CursorNotInProject(sid, root) => {
            assert_eq!(sid, 1);
            assert_eq!(cursor_not_in_project_message("bob", &root), "bob's cursor is not in one");
        },
        _ => panic!("expected no cursor"),
    }
}

#[test]
fn jump_to_unknown_peer() {
    let mut sessions = Sessions::new();
    sessions.insert(infos(1, "/p/one", vec![peer(2, "bob")], vec![]));
    assert!(matches!(sessions.jump_target("carol"), JumpTarget::UnknownPeer));
    assert_eq!(unknown_peer_message("carol"), "There's no peer with handle 'carol' in any of the sessions");
}

#[test]
fn completions_from_first_argument() {
    let mut sessions = Sessions::new();
    sessions.insert(infos(1, "/a", vec![peer(2, "bob"), peer(3, "bea")], vec![]));
    sessions.insert(infos(4, "/b", vec![peer(5, "carl")], vec![]));
    let pos = CursorPosition::InArg(true, "bxyz".to_string(), 1);
    assert_eq!(completion_prefix(&pos), Some("b".to_string()));
    let mut got = jump_completions(&sessions, &pos);
    got.sort();
    assert_eq!(got, vec!["bea".to_string(), "bob".to_string()]);
    let pos = CursorPosition::BetweenArgs(false);
    let mut all = jump_completions(&sessions, &pos);
    all.sort();
    assert_eq!(all, vec!["bea".to_string(), "bob".to_string(), "carl".to_string()]);
}

#[test]
fn no_completions_after_first_argument() {
    let mut sessions = Sessions::new();
    sessions.insert(infos(1, "/a", vec![peer(2, "bob")], vec![]));
    assert!(jump_completions(&sessions, &CursorPosition::InArg(false, "b".to_string(), 1)).is_empty());
    assert!(jump_completions(&sessions, &CursorPosition::BetweenArgs(true)).is_empty());
    assert_eq!(completion_prefix(&CursorPosition::BetweenArgs(true)), None);
}

#[test]
fn stop_channel_is_taken_once() {
    let mut channels: StopChannels<&'static str> = StopChannels::new();
    channels.insert(9, "sender");
    assert_eq!(channels.take(9), Some("sender"));
    assert_eq!(channels.take(9), None);
}

#[test]
fn project_access_queue() {
    let mut access: ProjectAccess<u32> = ProjectAccess::new();
    access.push(1);
    assert_eq!(access.after_wake(0), None);
    access.push(2);
    assert_eq!(access.after_wake(1), None);
    access.start_event_loop();
    access.push(3);
    assert_eq!(access.after_wake(1), None);
    access.push(4);
    assert_eq!(access.after_wake(0), Some(4));
    assert_eq!(access.next(), Some(1));
    assert_eq!(access.next(), Some(2));
    assert_eq!(access.next(), Some(3));
    assert_eq!(access.next(), None);
}
