use collab::event_filter::NodeKind;
use collab::id_maps::FileBuffer;
use collab::integrate::{text_edit_plan, EditedCursor, EditedFile};
use collab::root_search::{FindRootStartError, RootSearch, StartNode};
use collab::config::ServerAddress;
use collab::event_filter::{AllButOne, WatchState};
use collab::id_maps::IdMaps;
use collab::peers::Peer;
use collab::progress::{JoinError, JoinState, RequestProjectError, StartError, StartState};
use collab::session_flow::{
    project_root_walk, watch_open_buffer, JoinAction, JoinEvent, JoinFlow, JoinPhase, ProjectRootWalk,
    ReadRootError, RootNode, StartAction, StartEvent, StartFlow, Welcome,
};
use collab::sessions::Sessions;

fn welcome(session_id: u64) -> Welcome {
    Welcome {
        host_id: 1,
        local_peer: Peer { id: 10, handle: "me".to_string() },
        other_peers: vec![Peer { id: 1, handle: "host".to_string() }],
        session_id,
    }
}

#[test]
fn join_without_login_fails_before_connecting() {
    let (flow, report, action) = JoinFlow::begin(false, ServerAddress::default(), None, 3);
    assert!(report.is_none());
    assert!(matches!(action, JoinAction::Finish(Err(JoinError::UserNotLoggedIn))));
    assert!(matches!(flow.phase, JoinPhase::Done));
}

#[test]
fn join_registers_the_session_of_the_welcome() {
    let mut sessions = Sessions::new();
    let (mut flow, report, action) =
        JoinFlow::begin(true, ServerAddress::default(), Some("/remote".to_string()), 3);
    assert!(matches!(report, Some(JoinState::ConnectingToServer(_))));
    assert!(matches!(action, JoinAction::Connect(_)));
    let (report, action) = flow.step(JoinEvent::Connected(Ok(())), &mut sessions);
    assert!(matches!(report, Some(JoinState::JoiningSession)));
    assert!(matches!(action, JoinAction::Knock(3)));
    let (report, action) = flow.step(JoinEvent::Welcomed(Ok((welcome(8), "proj".to_string()))), &mut sessions);
    match report {
        Some(JoinState::ReceivedWelcome(name)) => assert_eq!(name, "proj"),
        other => panic!("unexpected report {other:?}"),
    }
    assert!(matches!(action, JoinAction::RequestProject));
    let (report, action) = flow.step(JoinEvent::ProjectProgress(10, 20), &mut sessions);
    assert!(matches!(report, Some(JoinState::ReceivingProject(10, 20))));
    assert!(matches!(action, JoinAction::RequestProject));
    let (report, _) = flow.step(JoinEvent::ProjectProgress(20, 20), &mut sessions);
    assert!(matches!(report, Some(JoinState::ReceivingProject(20, 20))));
    let (report, action) = flow.step(JoinEvent::ProjectReceived(Ok(vec![(1, 5), (1, 2)])), &mut sessions);
    match (report, action) {
        (Some(JoinState::WritingProject(p)), JoinAction::WriteProject(q)) => {
            assert_eq!(p, "/remote/proj");
            assert_eq!(q, "/remote/proj");
        },
        other => panic!("unexpected step {other:?}"),
    }
    let (_, action) = flow.step(JoinEvent::ProjectWritten(Ok(())), &mut sessions);
    assert!(matches!(action, JoinAction::MakeFilter(ref p) if p == "/remote/proj"));
    assert_eq!(flow.session_to_register(), Some(8));
    assert_eq!(sessions.len(), 0);
    let (_, action) = flow.step(JoinEvent::FilterMade(Ok(())), &mut sessions);
    assert!(matches!(action, JoinAction::Finish(Ok(8))));
    let infos = sessions.get(8).unwrap();
    assert_eq!(infos.project_root_path, "/remote/proj");
    assert_eq!(infos.host_id, 1);
    assert_eq!(infos.remote_peers.get(1).unwrap().main_cursor_id, Some(2));
}

#[test]
fn join_asks_for_the_default_dir_only_without_a_configured_one() {
    let mut sessions = Sessions::new();
    let (mut flow, _, _) = JoinFlow::begin(true, ServerAddress::default(), None, 3);
    flow.step(JoinEvent::Connected(Ok(())), &mut sessions);
    let (report, action) = flow.step(JoinEvent::Welcomed(Ok((welcome(3), "proj".to_string()))), &mut sessions);
    assert!(report.is_none());
    assert!(matches!(action, JoinAction::AskDefaultDir));
    let (report, action) = flow.step(JoinEvent::DefaultDir(Ok("/data/".to_string())), &mut sessions);
    assert!(matches!(report, Some(JoinState::ReceivedWelcome(_))));
    assert!(matches!(action, JoinAction::RequestProject));
    match &flow.phase {
        JoinPhase::RequestingProject(_, root, false) => assert_eq!(root, "/data/proj"),
        other => panic!("unexpected phase {other:?}"),
    }
}

#[test]
fn join_failures_leave_the_sessions_alone() {
    let mut sessions = Sessions::new();
    let (mut flow, _, _) = JoinFlow::begin(true, ServerAddress::default(), None, 3);
    let (_, action) = flow.step(JoinEvent::Connected(Err("refused".to_string())), &mut sessions);
    assert!(matches!(action, JoinAction::Finish(Err(JoinError::ConnectToServer(ref m))) if m == "refused"));
    assert_eq!(sessions.len(), 0);

    let (mut flow, _, _) = JoinFlow::begin(true, ServerAddress::default(), Some("/r".to_string()), 3);
    flow.step(JoinEvent::Connected(Ok(())), &mut sessions);
    flow.step(JoinEvent::Welcomed(Ok((welcome(3), "p".to_string()))), &mut sessions);
    let (_, action) = flow.step(JoinEvent::ProjectReceived(Err(RequestProjectError::SessionEnded)), &mut sessions);
    assert!(matches!(action, JoinAction::Finish(Err(JoinError::RequestProject(RequestProjectError::SessionEnded)))));
    assert_eq!(sessions.len(), 0);
}

#[test]
fn join_ignores_an_event_it_does_not_wait_for() {
    let mut sessions = Sessions::new();
    let (mut flow, _, _) = JoinFlow::begin(true, ServerAddress::default(), None, 3);
    let (report, action) = flow.step(JoinEvent::FilterMade(Ok(())), &mut sessions);
    assert!(report.is_none());
    assert!(matches!(action, JoinAction::Wait));
    assert!(matches!(flow.phase, JoinPhase::Connecting));
}

#[test]
fn start_needs_a_login_and_a_focused_buffer() {
    let (_, action) = StartFlow::begin(false, Some(1), ServerAddress::default());
    assert!(matches!(action, StartAction::Finish(Err(StartError::UserNotLoggedIn))));
    let (_, action) = StartFlow::begin(true, None, ServerAddress::default());
    assert!(matches!(action, StartAction::Finish(Err(StartError::NoBufferFocused))));
    let (_, action) = StartFlow::begin(true, Some(4), ServerAddress::default());
    assert!(matches!(action, StartAction::SearchRoot(4)));
}

#[test]
fn start_registers_the_session_of_the_welcome() {
    let mut sessions = Sessions::new();
    let (mut flow, _) = StartFlow::begin(true, Some(4), ServerAddress::default());
    let (_, action) = flow.step(StartEvent::RootFound(Ok("/home/u/proj".to_string())), &mut sessions);
    assert!(matches!(action, StartAction::Confirm(ref r) if r == "/home/u/proj"));
    let (report, action) = flow.step(StartEvent::Confirmed(true), &mut sessions);
    assert!(matches!(report, Some(StartState::ConnectingToServer(_))));
    assert!(matches!(action, StartAction::Connect(_)));
    let (report, action) = flow.step(StartEvent::Connected(Ok(())), &mut sessions);
    assert!(matches!(report, Some(StartState::StartingSession)));
    assert!(matches!(action, StartAction::Knock(ref n) if n == "proj"));
    let (report, action) = flow.step(StartEvent::Welcomed(Ok(welcome(9))), &mut sessions);
    assert!(matches!(report, Some(StartState::ReadingProject(ref p)) if p == "/home/u/proj"));
    assert!(matches!(action, StartAction::ReadProject(ref p, 10) if p == "/home/u/proj"));
    let (_, action) = flow.step(StartEvent::ProjectRead(Ok(vec![])), &mut sessions);
    assert!(matches!(action, StartAction::Finish(Ok(9))));
    assert_eq!(sessions.get(9).unwrap().project_root_path, "/home/u/proj");
}

#[test]
fn start_refuses_the_file_system_root_and_a_refusal() {
    let mut sessions = Sessions::new();
    let (mut flow, _) = StartFlow::begin(true, Some(4), ServerAddress::default());
    flow.step(StartEvent::RootFound(Ok("/".to_string())), &mut sessions);
    let (_, action) = flow.step(StartEvent::Confirmed(true), &mut sessions);
    assert!(matches!(action, StartAction::Finish(Err(StartError::ProjectRootIsFsRoot))));

    let (mut flow, _) = StartFlow::begin(true, Some(4), ServerAddress::default());
    flow.step(StartEvent::RootFound(Ok("/p".to_string())), &mut sessions);
    let (_, action) = flow.step(StartEvent::Confirmed(false), &mut sessions);
    assert!(matches!(action, StartAction::Finish(Err(StartError::UserDidNotConfirm))));
    assert_eq!(sessions.len(), 0);
}

#[test]
fn root_walk_decisions() {
    assert!(matches!(
        project_root_walk("/p".to_string(), None),
        Err(ReadRootError::NoNodeAtRootPath(ref p)) if p == "/p"
    ));
    assert_eq!(project_root_walk("/p".to_string(), Some(RootNode::Directory)).unwrap(), ProjectRootWalk::Directory);
    assert_eq!(
        project_root_walk("/p/f".to_string(), Some(RootNode::File(7))).unwrap(),
        ProjectRootWalk::ParentOf(AllButOne { id: 7 })
    );
    assert!(matches!(
        project_root_walk("/p".to_string(), Some(RootNode::Symlink)),
        Err(ReadRootError::RootIsSymlink(ref p)) if p == "/p"
    ));
}

#[test]
fn open_buffer_is_watched_and_mapped() {
    let mut watch = WatchState::new(0, "/p".to_string());
    let mut maps = IdMaps::new();
    watch_open_buffer(&mut watch, &mut maps, 5, 20, 30, &vec![(100, 1), (101, 2)]);
    assert!(watch.is_buffer_watched(5));
    assert_eq!(maps.file_of_buffer(5), Some(30));
    assert_eq!(maps.buffer_of_file(30), Some(5));
    assert_eq!(maps.project_cursor(100), Some(1));
    assert_eq!(maps.project_cursor(101), Some(2));
    assert!(watch.cursor_in_project(5));
}

#[test]
fn join_writes_the_project_only_after_its_reception_was_reported() {
    let mut sessions = Sessions::new();
    let (mut flow, _, _) = JoinFlow::begin(true, ServerAddress::default(), Some("/r".to_string()), 3);
    flow.step(JoinEvent::Connected(Ok(())), &mut sessions);
    flow.step(JoinEvent::Welcomed(Ok((welcome(3), "p".to_string()))), &mut sessions);
    let (report, action) = flow.step(JoinEvent::ProjectReceived(Ok(vec![])), &mut sessions);
    assert!(report.is_none());
    assert!(matches!(action, JoinAction::Wait));
}

#[test]
fn root_search_starts_at_a_directory_or_a_files_parent() {
    let s = RootSearch::from_start("/a/b".to_string(), Some(StartNode::Directory("/a/b".to_string())), None).unwrap();
    assert_eq!(s.current_dir(), "/a/b");
    let s = RootSearch::from_start("/a/f.rs".to_string(), Some(StartNode::File("/a/f.rs".to_string())), None).unwrap();
    assert_eq!(s.current_dir(), "/a");
    assert!(matches!(
        RootSearch::from_start("/x".to_string(), None, None),
        Err(FindRootStartError::StartPathNotFound(ref p)) if p == "/x"
    ));
    assert!(matches!(
        RootSearch::from_start("/l".to_string(), Some(StartNode::DanglingSymlink), None),
        Err(FindRootStartError::StartsAtDanglingSymlink(ref p)) if p == "/l"
    ));
}

#[test]
fn created_buffer_joins_the_project_only_as_a_kept_file_under_the_root() {
    let mut watch = WatchState::new(0, "/p".to_string());
    assert!(!watch.on_buffer_created(1, None, Some((NodeKind::File, 9)), true));
    assert!(!watch.on_buffer_created(1, Some("/q/a"), Some((NodeKind::File, 9)), true));
    assert!(!watch.on_buffer_created(1, Some("/p/a"), None, true));
    assert!(!watch.on_buffer_created(1, Some("/p/a"), Some((NodeKind::File, 9)), false));
    assert!(!watch.on_buffer_created(1, Some("/p/d"), Some((NodeKind::Directory, 9)), true));
    assert!(!watch.is_buffer_watched(1));
    assert!(watch.on_buffer_created(1, Some("/p/a"), Some((NodeKind::File, 9)), true));
    assert!(watch.is_buffer_watched(1));
}

#[test]
fn remote_text_edit_goes_to_the_files_buffer_and_moves_remote_tooltips() {
    let mut maps = IdMaps::new();
    assert!(text_edit_plan(&maps, 1, "/p", None).is_none());
    let edited = || EditedFile {
        file_id: 7,
        path: "/src/a.rs".to_string(),
        cursors: vec![
            EditedCursor { id: 10, owner: 1, offset: 3 },
            EditedCursor { id: 11, owner: 2, offset: 5 },
            EditedCursor { id: 12, owner: 3, offset: 8 },
        ],
    };
    let plan = text_edit_plan(&maps, 1, "/p", Some(edited())).unwrap();
    assert!(matches!(plan.buffer, FileBuffer::Create(ref p) if p == "/p/src/a.rs"));
    assert_eq!(plan.tooltip_moves, vec![(11, 5), (12, 8)]);
    maps.link_buffer(4, 7);
    let plan = text_edit_plan(&maps, 1, "/p", Some(edited())).unwrap();
    assert!(matches!(plan.buffer, FileBuffer::Open(4)));
}
