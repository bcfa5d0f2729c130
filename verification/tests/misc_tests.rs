use collab::root_search::RootSearch;
use collab::neovim_env::{project_filter_outcome, GitIgnoreCreateError};
use collab::root_search::{contains_git_marker, GitDirectory, NodeMetadata, ReadMetadataError, RootMarker};
use collab::progress::{join_error_chunks, join_error_notification, start_error_chunks, start_error_notification};
use collab::progress::{JoinError, RequestProjectError};
use collab::progress::{start_project_name, StartError};
use collab::peer_ui::NeovimPeerSelection;
use collab::neovim_env::{confirm_start_prompt, session_started_prompt, yank_command};
use collab::config::ServerAddress;
use collab::mock::{AnyError, Authenticator, MockAuthenticator, NoDefaultDirForRemoteProjectsError, SessionId};
use collab::neovim_env::{
    confirmed, default_dir_for_remote_projects, home_dir_from, lsp_root_from, picked_session, ActionForSelectedSession,
    HomeDirCandidate, NeovimDataDirError, NeovimHomeDirError, XdgDataHome,
};
use collab::numbers::IntErrorKind;
use collab::peer_ui::{
    handle_label, handle_padding, handle_placement, highlight_range, peer_group_index, peer_group_name, BufferShape,
    Point, NUM_PEER_GROUPS, PEER_CURSOR_GROUP_PREFIX,
};
use collab::progress::{
    display_join_state, display_start_state, not_logged_in_chunks, Chunk, JoinState, ReporterState, StartState,
};
use collab::root_search::{after_lsp_root, after_marker_search, search_step, LspRootOutcome, RootSearchError, SearchStep};
use collab::spinner::{JoinStep, SpinFrame, Spinner};

fn text(c: &Chunk) -> String {
    match c {
        Chunk::Text(t, None) => t.clone(),
        Chunk::Text(t, Some(h)) => format!("[{h}]{t}"),
        Chunk::Newline => "\n".to_string(),
    }
}

#[test]
fn spinner_cycles_through_three_frames() {
    let mut s = Spinner::Iter1;
    let start = s.into_char();
    s.advance();
    assert_eq!(s, Spinner::Iter2);
    s.advance();
    assert_eq!(s, Spinner::Iter3);
    s.advance();
    assert_eq!(s, Spinner::Iter1);
    assert_eq!(s.into_char(), start);
    assert_eq!(Spinner::Iter1.into_char(), '\u{1F30D}');
}

#[test]
fn spin_frame_message() {
    let frame = SpinFrame::new(Spinner::Iter2, JoinStep::Knock.message());
    assert_eq!(frame.message(), "\u{1F30E} Authenticating");
}

#[test]
fn home_dir_decisions() {
    assert_eq!(home_dir_from(Some(HomeDirCandidate::Utf8("/home/u".to_string()))).unwrap(), "/home/u");
    assert!(matches!(home_dir_from(None), Err(NeovimHomeDirError::CouldntFindHome)));
    assert!(matches!(home_dir_from(Some(HomeDirCandidate::Utf8(String::new()))), Err(NeovimHomeDirError::CouldntFindHome)));
    let err = home_dir_from(Some(HomeDirCandidate::Utf8("rel".to_string()))).unwrap_err();
    assert_eq!(err.message(), "Found home directory at \"rel\", but it's not an absolute path");
    let err = home_dir_from(Some(HomeDirCandidate::NotUtf8("/h\u{FFFD}".to_string()))).unwrap_err();
    assert_eq!(err.message(), "Found home directory at \"/h\u{FFFD}\", but it's not a valid UTF-8 string");
    assert_eq!(NeovimHomeDirError::CouldntFindHome.message(), "Couldn't find the home directory");
}

#[test]
fn remote_projects_dir() {
    let d = default_dir_for_remote_projects(XdgDataHome::Present("/data".to_string()), Err(NeovimHomeDirError::CouldntFindHome));
    assert_eq!(d.unwrap(), "/data/nomad/remote-projects");
    let d = default_dir_for_remote_projects(XdgDataHome::NotPresent, Ok("/home/u".to_string()));
    assert_eq!(d.unwrap(), "/home/u/.local/share/nomad/remote-projects");
    let e = default_dir_for_remote_projects(XdgDataHome::Present("rel".to_string()), Ok("/home/u".to_string()));
    assert!(matches!(e, Err(NeovimDataDirError::XdgDataHomeNotAbsolute(_))));
    assert_eq!(e.unwrap_err().message(), "found data directory at \"rel\", but it's not an absolute path");
    let e = default_dir_for_remote_projects(XdgDataHome::NotUnicode("x".to_string()), Ok("/home/u".to_string()));
    assert!(matches!(e, Err(NeovimDataDirError::XdgDataHomeNotUtf8(_))));
    let e = default_dir_for_remote_projects(XdgDataHome::NotPresent, Err(NeovimHomeDirError::CouldntFindHome));
    assert!(matches!(e, Err(NeovimDataDirError::Home(NeovimHomeDirError::CouldntFindHome))));
}

#[test]
fn lsp_root() {
    assert_eq!(lsp_root_from(None).unwrap(), None);
    assert_eq!(lsp_root_from(Some("/p".to_string())).unwrap(), Some("/p".to_string()));
    let e = lsp_root_from(Some("p".to_string())).unwrap_err();
    assert_eq!(e.message(), "LSP root at p is not an absolute path");
}

#[test]
fn confirm_and_pick() {
    assert!(confirmed(1));
    assert!(!confirmed(2));
    assert!(!confirmed(0));
    assert_eq!(picked_session(3, Some(1)), Some(0));
    assert_eq!(picked_session(3, Some(3)), Some(2));
    assert_eq!(picked_session(3, Some(4)), None);
    assert_eq!(picked_session(3, None), None);
    assert_eq!(ActionForSelectedSession::Leave.prompt(), "Choose which session to leave: ");
    assert_eq!(ActionForSelectedSession::CopySessionId.prompt(), "Choose which session to yank the ID of: ");
}

#[test]
fn root_search_steps() {
    assert!(matches!(search_step("/a/b", true, None), SearchStep::Found(d) if d == "/a/b"));
    assert!(matches!(search_step("/a/b", false, None), SearchStep::Ascend(d) if d == "/a"));
    assert!(matches!(search_step("/a/b", false, Some("/a/b")), SearchStep::NotFound));
    assert!(matches!(search_step("/", false, None), SearchStep::NotFound));
}

#[test]
fn root_search_outcomes() {
    assert!(matches!(after_lsp_root::<()>(Ok(Some("/r".to_string()))), LspRootOutcome::Root(r) if r == "/r"));
    assert!(matches!(after_lsp_root::<()>(Ok(None)), LspRootOutcome::SearchMarkers));
    assert!(matches!(after_lsp_root::<u8>(Err(3)), LspRootOutcome::Error(3)));
    assert_eq!(after_marker_search::<()>(Ok(Some("/r".to_string())), "/r/a").unwrap(), "/r");
    assert_eq!(after_marker_search::<()>(Ok(None), "/r/a.rs").unwrap(), "/r");
    assert!(matches!(after_marker_search::<()>(Ok(None), "/"), Err(RootSearchError::CouldntFindRoot(p)) if p == "/"));
    assert!(matches!(after_marker_search::<u8>(Err(1), "/x"), Err(RootSearchError::FindRoot(1))));
}

#[test]
fn any_error_downcasts_to_what_it_holds() {
    let e = AnyError::from_str("boom");
    assert_eq!(e.message(), "boom");
    assert!(e.downcast_ref::<NoDefaultDirForRemoteProjectsError>().is_none());
    let e = AnyError::new(NoDefaultDirForRemoteProjectsError);
    assert!(e.downcast_ref::<NoDefaultDirForRemoteProjectsError>().is_some());
    assert_eq!(e.message(), "no default directory for remote projects configured");
}

#[test]
fn message_errors_are_equal_when_their_texts_are() {
    assert!(AnyError::from_str("a") == AnyError::from_str("a"));
    assert!(AnyError::from_str("a") != AnyError::from_str("b"));
    assert!(format!("{:?}", AnyError::from_str("boom")).contains(&format!("{:?}", "boom")));
    assert!(AnyError::from_str("boom").downcast_ref::<NoDefaultDirForRemoteProjectsError>().is_none());
}

#[test]
fn authenticators_let_everyone_in() {
    assert!(Authenticator.authenticate(&42u32).is_ok());
    assert!(MockAuthenticator.authenticate(&"x").is_ok());
}

#[test]
fn session_ids_parse_as_decimal() {
    assert_eq!(SessionId::from_str("42"), Ok(SessionId(42)));
    assert_eq!(SessionId::from_str(""), Err(IntErrorKind::Empty));
    assert_eq!(SessionId::from_str("4x"), Err(IntErrorKind::InvalidDigit));
    assert_eq!(SessionId::from_str("18446744073709551616"), Err(IntErrorKind::PosOverflow));
    assert_eq!(SessionId::from_str("18446744073709551615"), Ok(SessionId(u64::MAX)));
}

#[test]
fn highlight_of_cursor() {
    let shape = BufferShape { line_lengths: vec![3, 2], uneditable_eol: true };
    let (a, b) = highlight_range(&shape, 1);
    assert_eq!((a, b), (Point { newline_offset: 0, byte_offset: 1 }, Point { newline_offset: 0, byte_offset: 2 }));
    let (a, b) = highlight_range(&shape, 3);
    assert_eq!((a, b), (Point { newline_offset: 0, byte_offset: 3 }, Point { newline_offset: 1, byte_offset: 0 }));
}

#[test]
fn handle_is_placed_above_below_or_on_a_virtual_line() {
    let p = handle_placement(Point { newline_offset: 2, byte_offset: 4 }, 5);
    assert_eq!((p.line, p.column, p.use_virt_lines), (1, 4, false));
    let p = handle_placement(Point { newline_offset: 0, byte_offset: 1 }, 5);
    assert_eq!((p.line, p.column, p.use_virt_lines), (1, 1, false));
    let p = handle_placement(Point { newline_offset: 0, byte_offset: 1 }, 1);
    assert_eq!((p.line, p.column, p.use_virt_lines), (0, 1, true));
    assert_eq!(handle_label("bob"), " bob ");
    assert_eq!(handle_padding(3), "   ");
}

#[test]
fn peer_groups() {
    assert_eq!(peer_group_index(1, NUM_PEER_GROUPS), 0);
    assert_eq!(peer_group_index(17, NUM_PEER_GROUPS), 0);
    assert_eq!(peer_group_index(16, NUM_PEER_GROUPS), 15);
    assert_eq!(peer_group_index(0, NUM_PEER_GROUPS), 0);
    assert_eq!(peer_group_name(PEER_CURSOR_GROUP_PREFIX, 0), "NomadCollabPeerCursor1");
}

#[test]
fn join_progress_notifications() {
    let mut rs = ReporterState::new();
    let addr = ServerAddress::from_str("localhost:3000").unwrap();
    let chunks = display_join_state(JoinState::ConnectingToServer(addr), 0, Chunk::Newline, &mut rs).unwrap();
    let got: Vec<String> = chunks.iter().map(text).collect();
    assert_eq!(got, vec!["Connecting to server at ", "[Identifier]localhost", "[Comment]:3000"]);
    let chunks = display_join_state(JoinState::ReceivedWelcome("proj".to_string()), 0, Chunk::Newline, &mut rs).unwrap();
    let got: Vec<String> = chunks.iter().map(text).collect();
    assert_eq!(got, vec!["Receiving files for project ".to_string(), "[Title]proj".to_string()]);
    assert!(display_join_state(JoinState::ReceivingProject(1, 10), 10, Chunk::Newline, &mut rs).is_some());
    assert!(display_join_state(JoinState::ReceivingProject(1, 10), 10, Chunk::Newline, &mut rs).is_none());
    assert!(display_join_state(JoinState::ReceivingProject(2, 10), 20, Chunk::Newline, &mut rs).is_some());
    let path = Chunk::Text("~/p".to_string(), None);
    let chunks = display_join_state(JoinState::WritingProject("/home/u/p".to_string()), 0, path, &mut rs).unwrap();
    let got: Vec<String> = chunks.iter().map(text).collect();
    assert_eq!(got, vec!["Writing project ", "[Title]proj", " to ", "~/p"]);
    assert!(rs.percentage.is_none());
}

#[test]
fn start_progress_notifications() {
    let mut rs = ReporterState::new();
    let addr = ServerAddress::from_str("10.1.2.3:9").unwrap();
    let chunks = display_start_state(StartState::ConnectingToServer(addr), Chunk::Newline, &mut rs);
    let got: Vec<String> = chunks.iter().map(text).collect();
    assert_eq!(got, vec!["Connecting to server at ", "[Identifier]10.1.2.3", "[Comment]:9"]);
    let chunks = display_start_state(StartState::ReadingProject("/p".to_string()), Chunk::Text("/p".to_string(), None), &mut rs);
    let got: Vec<String> = chunks.iter().map(text).collect();
    assert_eq!(got, vec!["Reading project at ", "/p"]);
}

#[test]
fn login_hint() {
    let got: Vec<String> = not_logged_in_chunks().iter().map(text).collect();
    assert_eq!(
        got,
        vec![
            "You must be logged in to start collaborating. You can log in by executing:",
            "\n",
            "[Comment]:",
            "[Title]Mad login",
        ]
    );
}

#[test]
fn join_error_messages() {
    assert_eq!(JoinError::UserNotLoggedIn.message(), "The user is not logged in");
    assert_eq!(JoinError::WriteProject("disk full".to_string()).message(), "Couldn't write project: disk full");
    assert_eq!(JoinError::Knock("refused".to_string()).message(), "refused");
    assert_eq!(
        JoinError::RequestProject(RequestProjectError::SessionEnded).message(),
        "The session ended before we could join it"
    );
    assert_eq!(RequestProjectError::SendRequest("broken pipe".to_string()).message(), "broken pipe");
}

#[test]
fn start_errors_and_project_name() {
    assert_eq!(start_project_name("/home/u/proj").unwrap(), "proj");
    let err = start_project_name("/").unwrap_err();
    assert!(matches!(err, StartError::ProjectRootIsFsRoot));
    assert_eq!(err.message(), "Cannot start a new collaborative editing session at the root of the filesystem");
    assert_eq!(StartError::UserDidNotConfirm.message(), "The user didn't confirm starting a new session");
    assert_eq!(
        StartError::NoBufferFocused.message(),
        "No buffer is focused, please move the cursor to a text buffer to determine the project root"
    );
}

#[test]
fn peer_selection_highlight() {
    let mut s = NeovimPeerSelection::create(18, 3, 9);
    assert_eq!(s.group_idx, 1);
    s.move_to(4, 5);
    assert_eq!((s.peer_id, s.group_idx, s.start, s.end), (18, 1, 4, 5));
}

#[test]
fn start_prompts() {
    assert_eq!(
        confirm_start_prompt("/home/u/proj", Some("/home/u")),
        "Start collaborating on the project at \"~/proj\"?"
    );
    assert_eq!(confirm_start_prompt("/srv/p", None), "Start collaborating on the project at \"/srv/p\"?");
    assert_eq!(
        session_started_prompt("/home/u/proj", Some("/home/u"), "01ABC"),
        "Started a new collaborative editing session at ~/proj with ID 01ABC.\nYou can share this ID with other \
         peers to let them join the session. Would you like to copy it to the clipboard?"
    );
    assert_eq!(yank_command(), "Mad collab yank");
}

#[test]
fn error_notifications() {
    use_error_notifications();
}

fn use_error_notifications() {
    let chunks = join_error_chunks(&JoinError::UserNotLoggedIn);
    assert_eq!(chunks.len(), 4);
    let chunks = join_error_chunks(&JoinError::Knock("no".to_string()));
    assert_eq!(chunks.iter().map(text).collect::<Vec<_>>(), vec!["no"]);
    let chunks = start_error_chunks(&StartError::NoBufferFocused);
    assert_eq!(
        chunks.iter().map(text).collect::<Vec<_>>(),
        vec!["No buffer is focused, please move the cursor to a text buffer to determine the project root"]
    );
    assert_eq!(start_error_chunks(&StartError::UserNotLoggedIn).len(), 4);
    assert_eq!(
        join_error_notification(&JoinError::UserNotLoggedIn),
        "You must be logged in to join a collaborative editing session. You can log in by executing ':Mad login'"
    );
    assert_eq!(join_error_notification(&JoinError::ConnectToServer("timeout".to_string())), "timeout");
    assert_eq!(start_error_notification(&StartError::UserDidNotConfirm), None);
    assert_eq!(
        start_error_notification(&StartError::UserNotLoggedIn),
        Some("You must be logged in to start collaborating. You can log in by executing ':Mad login'".to_string())
    );
    assert_eq!(start_error_notification(&StartError::ReadProject("io".to_string())), Some("io".to_string()));
}

fn meta(name: Option<&str>, is_dir: bool) -> Result<NodeMetadata, String> {
    Ok(NodeMetadata { name: name.map(|n| n.to_string()), is_dir })
}

#[test]
fn git_marker_in_directory_listing() {
    assert_eq!(contains_git_marker(&vec![meta(Some("src"), true), meta(Some(".git"), true)]).unwrap(), true);
    assert_eq!(contains_git_marker(&vec![meta(Some(".git"), false)]).unwrap(), false);
    assert_eq!(contains_git_marker(&Vec::new()).unwrap(), false);
    assert!(matches!(contains_git_marker(&vec![meta(None, true), meta(Some(".git"), true)]), Err(ReadMetadataError::Name)));
    assert!(matches!(
        contains_git_marker(&vec![Err("denied".to_string())]),
        Err(ReadMetadataError::Access(a)) if a == "denied"
    ));
    assert_eq!(contains_git_marker(&vec![meta(Some(".git"), true), meta(None, true)]).unwrap(), true);
}

#[test]
fn git_directory_marker() {
    assert_eq!(GitDirectory.matches(&NodeMetadata { name: Some(".git".to_string()), is_dir: true }).unwrap(), true);
    assert_eq!(GitDirectory.matches(&NodeMetadata { name: Some("git".to_string()), is_dir: true }).unwrap(), false);
}

#[test]
fn project_filter_outcomes() {
    assert_eq!(project_filter_outcome::<u8>(Ok(3)).unwrap(), Some(3));
    assert_eq!(project_filter_outcome::<u8>(Err(GitIgnoreCreateError::GitNotInPath)).unwrap(), None);
    assert_eq!(project_filter_outcome::<u8>(Err(GitIgnoreCreateError::PathNotInGitRepository)).unwrap(), None);
    assert!(matches!(project_filter_outcome::<u8>(Err(GitIgnoreCreateError::InvalidPath)), Err(GitIgnoreCreateError::InvalidPath)));
    assert!(matches!(
        project_filter_outcome::<u8>(Err(GitIgnoreCreateError::CommandFailed("x".to_string()))),
        Err(GitIgnoreCreateError::CommandFailed(m)) if m == "x"
    ));
}

#[test]
fn root_search_goes_up_until_the_marker() {
    let mut search = RootSearch::new("/home/u/proj/src".to_string(), Some("/home/u".to_string()));
    assert_eq!(search.current_dir(), "/home/u/proj/src");
    assert_eq!(search.after_check(false), None);
    assert_eq!(search.current_dir(), "/home/u/proj");
    assert_eq!(search.after_check(true), Some(Some("/home/u/proj".to_string())));
}

#[test]
fn root_search_stops_at_the_stop_dir_and_at_the_root() {
    let mut search = RootSearch::new("/home/u/proj".to_string(), Some("/home/u".to_string()));
    assert_eq!(search.after_check(false), None);
    assert_eq!(search.after_check(false), Some(None));
    let mut search = RootSearch::new("/a".to_string(), None);
    assert_eq!(search.after_check(false), None);
    assert_eq!(search.current_dir(), "/");
    assert_eq!(search.after_check(false), Some(None));
}

#[test]
fn resuming_needs_a_paused_session() {
    let mut switch = collab::resume::PauseSwitch::new();
    assert_eq!(
        collab::resume::resume_session(3, &mut switch),
        Err(collab::resume::ResumeError::SessionIsNotPaused(3))
    );
    assert!(switch.pause());
    assert!(!switch.pause());
    assert_eq!(collab::resume::resume_session(3, &mut switch), Ok(()));
    assert!(!switch.paused);
    assert_eq!(collab::resume::ResumeError::SessionIsNotPaused(3).message(), "The session is not paused");
}
