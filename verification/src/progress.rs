//! What the progress notifications of the join and start pipelines say, and
//! when a new one is shown.
use vstd::prelude::*;

use crate::config::{ServerAddress, host_text};
use crate::paths::{node_name, node_name_exec};
use crate::numbers::{decimal, push_decimal};
use crate::text::{push_str, string_of};

verus! {

/// The highlight group a project's name is drawn with.
pub const PROJ_NAME_HL_GROUP: &'static str = "Title";

/// The name of the action that logs the user in.
pub const LOGIN_ACTION_NAME: &'static str = "login";

/// A piece of a notification.
#[derive(Debug, Clone)]
pub enum Chunk {
    /// Text, drawn with the given highlight group if there is one.
    Text(String, Option<String>),
    /// A line break.
    Newline,
}

/// The abstract value of a [`Chunk`].
pub enum ChunkView {
    Text(Seq<char>, Option<Seq<char>>),
    Newline,
}

impl View for Chunk {
    type V = ChunkView;

    open spec fn view(&self) -> ChunkView {
        match self {
            Chunk::Text(t, None) => ChunkView::Text(t@, None),
            Chunk::Text(t, Some(h)) => ChunkView::Text(t@, Some(h@)),
            Chunk::Newline => ChunkView::Newline,
        }
    }
}

/// The abstract value of a list of chunks.
pub open spec fn chunks_view(cs: Seq<Chunk>) -> Seq<ChunkView> {
    cs.map_values(|c: Chunk| c@)
}

/// A plain chunk of text.
fn plain(s: &str) -> (r: Chunk)
    ensures
        r@ == ChunkView::Text(s@, None),
{
    Chunk::Text(String::from_str(s), None)
}

/// A chunk of text drawn with a highlight group.
fn highlighted(s: String, group: &str) -> (r: Chunk)
    ensures
        r@ == ChunkView::Text(s@, Some(group@)),
{
    Chunk::Text(s, Some(String::from_str(group)))
}

/// A long-running operation whose progress is reported to the user.
pub trait Pipeline {
    /// What the operation gives on success.
    type Output<'a>;
    /// What the operation fails with.
    type Error<'a>;
    /// The progress states the operation goes through.
    type State<'a>;
}

/// Joining an existing session.
#[derive(Debug, Clone, Copy)]
pub struct JoinPipeline;

/// Starting a new session.
#[derive(Debug, Clone, Copy)]
pub struct StartPipeline;

impl Pipeline for JoinPipeline {
    type Output<'a> = ();
    type Error<'a> = JoinError;
    type State<'a> = JoinState;
}

impl Pipeline for StartPipeline {
    type Output<'a> = ();
    type Error<'a> = StartError;
    type State<'a> = StartState;
}

/// The ways starting a session can fail. The errors of outside services are
/// carried as their messages.
#[derive(Debug, Clone)]
pub enum StartError {
    /// Connecting to the server failed.
    ConnectToServer(String),
    /// The server refused to let the user in.
    Knock(String),
    /// No buffer is focused, so there is no project root to find.
    NoBufferFocused,
    /// The project root found is the root of the file system.
    ProjectRootIsFsRoot,
    /// Reading the project failed.
    ReadProject(String),
    /// Finding the project root failed.
    SearchProjectRoot(String),
    /// The user did not confirm starting the session.
    UserDidNotConfirm,
    /// The user is not logged in.
    UserNotLoggedIn,
}

/// The message of a [`StartError`].
pub open spec fn start_error_message(e: StartError) -> Seq<char> {
    match e {
        StartError::ConnectToServer(m) => m@,
        StartError::Knock(m) => m@,
        StartError::NoBufferFocused => "No buffer is focused, please move the cursor to a text buffer to determine the project root"@,
        StartError::ProjectRootIsFsRoot => "Cannot start a new collaborative editing session at the root of the filesystem"@,
        StartError::ReadProject(m) => m@,
        StartError::SearchProjectRoot(m) => m@,
        StartError::UserDidNotConfirm => "The user didn't confirm starting a new session"@,
        StartError::UserNotLoggedIn => "The user is not logged in"@,
    }
}

impl StartError {
    /// The message shown to the user.
    pub fn message(&self) -> (r: String)
        ensures
            r@ == start_error_message(*self),
    {
        match self {
            StartError::ConnectToServer(m) => m.clone(),
            StartError::Knock(m) => m.clone(),
            StartError::NoBufferFocused => String::from_str(
                "No buffer is focused, please move the cursor to a text buffer to determine the project root"),
            StartError::ProjectRootIsFsRoot => String::from_str(
                "Cannot start a new collaborative editing session at the root of the filesystem"),
            StartError::ReadProject(m) => m.clone(),
            StartError::SearchProjectRoot(m) => m.clone(),
            StartError::UserDidNotConfirm => String::from_str("The user didn't confirm starting a new session"),
            StartError::UserNotLoggedIn => String::from_str("The user is not logged in"),
        }
    }
}

/// The name of the project a session is started on: the last component of
/// its root, which must not be the root of the file system.
pub fn start_project_name(project_root: &str) -> (r: Result<String, StartError>)
    ensures
        match node_name(project_root@) {
            Some(n) => r matches Ok(s) && s@ == n,
            None => r matches Err(StartError::ProjectRootIsFsRoot),
        },
{
    match node_name_exec(project_root) {
        Some(n) => Ok(n),
        None => Err(StartError::ProjectRootIsFsRoot),
    }
}

/// The ways asking a peer for the project can fail.
#[derive(Debug, Clone)]
pub enum RequestProjectError {
    /// The project received could not be decoded; the message says why.
    DecodeProject(String),
    /// Receiving the answer failed; the message says why.
    RecvResponse(String),
    /// Sending the request failed; the message says why.
    SendRequest(String),
    /// The session ended before the project arrived.
    SessionEnded,
}

/// The ways joining a session can fail. The errors of outside services are
/// carried as their messages.
#[derive(Debug, Clone)]
pub enum JoinError {
    /// Connecting to the server failed.
    ConnectToServer(String),
    /// No directory for remote projects could be found.
    DefaultDirForRemoteProjects(String),
    /// The server refused to let the user in.
    Knock(String),
    /// The filter of the project's files could not be made.
    ProjectFilter(String),
    /// Receiving the project failed.
    RequestProject(RequestProjectError),
    /// The user is not logged in.
    UserNotLoggedIn,
    /// Writing the project to disk failed.
    WriteProject(String),
}

/// The message of a [`RequestProjectError`].
pub open spec fn request_project_message(e: RequestProjectError) -> Seq<char> {
    match e {
        RequestProjectError::DecodeProject(m) => m@,
        RequestProjectError::RecvResponse(m) => m@,
        RequestProjectError::SendRequest(m) => m@,
        RequestProjectError::SessionEnded => "The session ended before we could join it"@,
    }
}

impl RequestProjectError {
    /// The message shown to the user.
    pub fn message(&self) -> (r: String)
        ensures
            r@ == request_project_message(*self),
    {
        match self {
            RequestProjectError::DecodeProject(m) => m.clone(),
            RequestProjectError::RecvResponse(m) => m.clone(),
            RequestProjectError::SendRequest(m) => m.clone(),
            RequestProjectError::SessionEnded => String::from_str("The session ended before we could join it"),
        }
    }
}

/// The message of a [`JoinError`].
pub open spec fn join_error_message(e: JoinError) -> Seq<char> {
    match e {
        JoinError::ConnectToServer(m) => m@,
        JoinError::DefaultDirForRemoteProjects(m) => m@,
        JoinError::Knock(m) => m@,
        JoinError::ProjectFilter(m) => m@,
        JoinError::RequestProject(e) => request_project_message(e),
        JoinError::UserNotLoggedIn => "The user is not logged in"@,
        JoinError::WriteProject(m) => "Couldn't write project: "@ + m@,
    }
}

impl JoinError {
    /// The message shown to the user.
    pub fn message(&self) -> (r: String)
        ensures
            r@ == join_error_message(*self),
    {
        match self {
            JoinError::ConnectToServer(m) => m.clone(),
            JoinError::DefaultDirForRemoteProjects(m) => m.clone(),
            JoinError::Knock(m) => m.clone(),
            JoinError::ProjectFilter(m) => m.clone(),
            JoinError::RequestProject(e) => e.message(),
            JoinError::UserNotLoggedIn => String::from_str("The user is not logged in"),
            JoinError::WriteProject(m) => {
                let mut cs: Vec<char> = Vec::new();
                push_str(&mut cs, "Couldn't write project: ");
                push_str(&mut cs, m.as_str());
                string_of(cs.as_slice())
            },
        }
    }
}

/// The progress states of joining a session, in the order they occur.
#[derive(Debug, Clone)]
pub enum JoinState {
    /// Connecting to the server at the given address.
    ConnectingToServer(ServerAddress),
    /// Connected, waiting for the server's welcome.
    JoiningSession,
    /// Welcomed; about to receive the project with the given name.
    ReceivedWelcome(String),
    /// Received the given number of bytes of the project, out of the total.
    ReceivingProject(u64, u64),
    /// Writing the project under the directory at the given path.
    WritingProject(String),
}

/// The progress states of starting a session, in the order they occur.
#[derive(Debug, Clone)]
pub enum StartState {
    /// Connecting to the server at the given address.
    ConnectingToServer(ServerAddress),
    /// Connected, waiting for the server's welcome.
    StartingSession,
    /// Reading the project rooted at the given path.
    ReadingProject(String),
}

/// What a progress reporter remembers between notifications.
#[derive(Debug, Clone)]
pub struct ReporterState {
    pub project_name: Option<String>,
    pub server_address: Option<ServerAddress>,
    pub percentage: Option<u8>,
}

impl ReporterState {
    /// The state before any notification.
    pub fn new() -> (r: ReporterState)
        ensures
            r.project_name is None,
            r.server_address is None,
            r.percentage is None,
    {
        ReporterState { project_name: None, server_address: None, percentage: None }
    }
}

/// The notification shown while connecting to a server.
pub open spec fn connecting_view(addr: ServerAddress) -> Seq<ChunkView> {
    seq![
        ChunkView::Text("Connecting to server at "@, None),
        ChunkView::Text(host_text(addr@.0), Some("Identifier"@)),
        ChunkView::Text(seq![':'] + decimal(addr@.1 as nat), Some("Comment"@)),
    ]
}

/// The notification shown while receiving a project's files.
pub open spec fn receiving_view(name: Seq<char>) -> Seq<ChunkView> {
    seq![
        ChunkView::Text("Receiving files for project "@, None),
        ChunkView::Text(name, Some(PROJ_NAME_HL_GROUP@)),
    ]
}

/// The notification shown while connecting to the server at `addr`.
pub fn connecting_to_server(addr: &ServerAddress) -> (r: Vec<Chunk>)
    ensures
        chunks_view(r@) == connecting_view(*addr),
{
    let mut port: Vec<char> = Vec::new();
    port.push(':');
    push_decimal(&mut port, addr.port() as u64);
    let mut r: Vec<Chunk> = Vec::new();
    r.push(plain("Connecting to server at "));
    r.push(highlighted(addr.host_to_string(), "Identifier"));
    r.push(highlighted(string_of(port.as_slice()), "Comment"));
    proof { assert(chunks_view(r@) =~= connecting_view(*addr)); }
    r
}

/// The notification shown while receiving the files of `project_name`.
pub fn receiving_files(project_name: &str) -> (r: Vec<Chunk>)
    ensures
        chunks_view(r@) == receiving_view(project_name@),
{
    let mut r: Vec<Chunk> = Vec::new();
    r.push(plain("Receiving files for project "));
    r.push(highlighted(String::from_str(project_name), PROJ_NAME_HL_GROUP));
    proof { assert(chunks_view(r@) =~= receiving_view(project_name@)); }
    r
}

/// Whether a join state can be shown given what the reporter remembers: a
/// state that needs an earlier one to have been shown requires it.
pub open spec fn join_state_showable(state: JoinState, percentage: u8, rs: ReporterState) -> bool {
    match state {
        JoinState::JoiningSession => rs.server_address is Some,
        JoinState::ReceivingProject(_, _) => rs.project_name is Some || rs.percentage == Some(percentage),
        JoinState::WritingProject(_) => rs.project_name is Some,
        _ => true,
    }
}

/// What the reporter remembers after showing `state` (see
/// [`display_join_state`]).
pub open spec fn join_reporter_after(state: JoinState, percentage: u8, rs: ReporterState) -> ReporterState {
    match state {
        JoinState::ConnectingToServer(addr) => ReporterState { server_address: Some(addr), ..rs },
        JoinState::JoiningSession => rs,
        JoinState::ReceivedWelcome(name) => ReporterState { project_name: Some(name), ..rs },
        JoinState::ReceivingProject(_, _) => ReporterState { percentage: Some(percentage), ..rs },
        JoinState::WritingProject(_) => ReporterState { percentage: None, ..rs },
    }
}

/// Whether showing `state` shows a notification (see
/// [`display_join_state`]): always, except for the progress of receiving the
/// project when the share received did not change.
pub open spec fn join_shows(state: JoinState, percentage: u8, rs: ReporterState) -> bool {
    match state {
        JoinState::ReceivingProject(_, _) => rs.percentage != Some(percentage),
        _ => true,
    }
}

/// Shows a progress state of joining a session, updating what the reporter
/// remembers. `percentage` is the share of the project received so far, used
/// for `ReceivingProject`; a notification is only shown for it when it
/// changed. `path_chunk` is how the root path of `WritingProject` is drawn.
pub fn display_join_state(
    state: JoinState,
    percentage: u8,
    path_chunk: Chunk,
    rs: &mut ReporterState,
) -> (r: Option<Vec<Chunk>>)
    requires
        join_state_showable(state, percentage, *old(rs)),
    ensures
        *final(rs) == join_reporter_after(state, percentage, *old(rs)),
        r is Some == join_shows(state, percentage, *old(rs)),
        match state {
            JoinState::ConnectingToServer(addr) => {
                &&& final(rs).server_address == Some(addr)
                &&& final(rs).project_name == old(rs).project_name
                &&& final(rs).percentage == old(rs).percentage
                &&& r matches Some(cs) && chunks_view(cs@) == connecting_view(addr)
            },
            JoinState::JoiningSession => {
                &&& *final(rs) == *old(rs)
                &&& r matches Some(cs) && chunks_view(cs@) == connecting_view(old(rs).server_address->0)
            },
            JoinState::ReceivedWelcome(name) => {
                &&& final(rs).project_name == Some(name)
                &&& final(rs).server_address == old(rs).server_address
                &&& final(rs).percentage == old(rs).percentage
                &&& r matches Some(cs) && chunks_view(cs@) == receiving_view(name@)
            },
            JoinState::ReceivingProject(_, _) => if old(rs).percentage == Some(percentage) {
                &&& *final(rs) == *old(rs)
                &&& r is None
            } else {
                &&& final(rs).percentage == Some(percentage)
                &&& final(rs).project_name == old(rs).project_name
                &&& final(rs).server_address == old(rs).server_address
                &&& r matches Some(cs) && chunks_view(cs@) == receiving_view(old(rs).project_name->0@)
            },
            JoinState::WritingProject(_) => {
                &&& final(rs).percentage is None
                &&& final(rs).project_name == old(rs).project_name
                &&& final(rs).server_address == old(rs).server_address
                &&& r matches Some(cs) && chunks_view(cs@) == seq![
                    ChunkView::Text("Writing project "@, None),
                    ChunkView::Text(old(rs).project_name->0@, Some(PROJ_NAME_HL_GROUP@)),
                    ChunkView::Text(" to "@, None),
                    path_chunk@,
                ]
            },
        },
{
    match state {
        JoinState::ConnectingToServer(addr) => {
            let chunks = connecting_to_server(&addr);
            rs.server_address = Some(addr);
            Some(chunks)
        },
        JoinState::JoiningSession => {
            match &rs.server_address {
                Some(addr) => Some(connecting_to_server(addr)),
                None => None,
            }
        },
        JoinState::ReceivedWelcome(name) => {
            let chunks = receiving_files(name.as_str());
            rs.project_name = Some(name);
            Some(chunks)
        },
        JoinState::ReceivingProject(_, _) => {
            match rs.percentage {
                Some(old_pct) => {
                    if old_pct == percentage {
                        return None;
                    }
                },
                None => {},
            }
            rs.percentage = Some(percentage);
            match &rs.project_name {
                Some(name) => Some(receiving_files(name.as_str())),
                None => None,
            }
        },
        JoinState::WritingProject(_) => {
            rs.percentage = None;
            match &rs.project_name {
                Some(name) => {
                    let mut r: Vec<Chunk> = Vec::new();
                    r.push(plain("Writing project "));
                    r.push(highlighted(name.clone(), PROJ_NAME_HL_GROUP));
                    r.push(plain(" to "));
                    r.push(path_chunk);
                    proof {
                        assert(chunks_view(r@) =~= seq![
                            ChunkView::Text("Writing project "@, None),
                            ChunkView::Text(old(rs).project_name->0@, Some(PROJ_NAME_HL_GROUP@)),
                            ChunkView::Text(" to "@, None),
                            path_chunk@,
                        ]);
                    }
                    Some(r)
                },
                None => None,
            }
        },
    }
}

/// Whether a start state can be shown given what the reporter remembers.
pub open spec fn start_state_showable(state: StartState, rs: ReporterState) -> bool {
    match state {
        StartState::StartingSession => rs.server_address is Some,
        _ => true,
    }
}

/// What the reporter remembers after showing `state` (see
/// [`display_start_state`]).
pub open spec fn start_reporter_after(state: StartState, rs: ReporterState) -> ReporterState {
    match state {
        StartState::ConnectingToServer(addr) => ReporterState { server_address: Some(addr), ..rs },
        _ => rs,
    }
}

/// Shows a progress state of starting a session, updating what the reporter
/// remembers. `path_chunk` is how the root path of `ReadingProject` is
/// drawn.
pub fn display_start_state(state: StartState, path_chunk: Chunk, rs: &mut ReporterState) -> (r: Vec<Chunk>)
    requires
        start_state_showable(state, *old(rs)),
    ensures
        *final(rs) == start_reporter_after(state, *old(rs)),
        match state {
            StartState::ConnectingToServer(addr) => {
                &&& final(rs).server_address == Some(addr)
                &&& final(rs).project_name == old(rs).project_name
                &&& final(rs).percentage == old(rs).percentage
                &&& chunks_view(r@) == connecting_view(addr)
            },
            StartState::StartingSession => {
                &&& *final(rs) == *old(rs)
                &&& chunks_view(r@) == connecting_view(old(rs).server_address->0)
            },
            StartState::ReadingProject(_) => {
                &&& *final(rs) == *old(rs)
                &&& chunks_view(r@) == seq![ChunkView::Text("Reading project at "@, None), path_chunk@]
            },
        },
{
    match state {
        StartState::ConnectingToServer(addr) => {
            let chunks = connecting_to_server(&addr);
            rs.server_address = Some(addr);
            chunks
        },
        StartState::StartingSession => {
            match &rs.server_address {
                Some(addr) => connecting_to_server(addr),
                None => Vec::new(),
            }
        },
        StartState::ReadingProject(_) => {
            let mut r: Vec<Chunk> = Vec::new();
            r.push(plain("Reading project at "));
            r.push(path_chunk);
            proof {
                assert(chunks_view(r@) =~= seq![ChunkView::Text("Reading project at "@, None), path_chunk@]);
            }
            r
        },
    }
}

/// The notification shown when joining succeeded.
pub fn join_success_message() -> (r: &'static str)
    ensures
        r@ == "Joined session"@,
{
    "Joined session"
}

/// The notification shown when starting succeeded.
pub fn start_success_message() -> (r: &'static str)
    ensures
        r@ == "Started session"@,
{
    "Started session"
}

/// The notification shown when the user must log in first.
pub open spec fn not_logged_in_view() -> Seq<ChunkView> {
    seq![
        ChunkView::Text("You must be logged in to start collaborating. You can log in by executing:"@, None),
        ChunkView::Newline,
        ChunkView::Text(":"@, Some("Comment"@)),
        ChunkView::Text("Mad "@ + LOGIN_ACTION_NAME@, Some("Title"@)),
    ]
}

/// The notification shown when the user must log in first.
pub fn not_logged_in_chunks() -> (r: Vec<Chunk>)
    ensures
        chunks_view(r@) == not_logged_in_view(),
{
    let mut command: Vec<char> = Vec::new();
    push_str(&mut command, "Mad ");
    push_str(&mut command, LOGIN_ACTION_NAME);
    let mut r: Vec<Chunk> = Vec::new();
    r.push(plain("You must be logged in to start collaborating. You can log in by executing:"));
    r.push(Chunk::Newline);
    r.push(highlighted(String::from_str(":"), "Comment"));
    r.push(highlighted(string_of(command.as_slice()), "Title"));
    proof {
        assert(chunks_view(r@) =~= seq![
            ChunkView::Text("You must be logged in to start collaborating. You can log in by executing:"@, None),
            ChunkView::Newline,
            ChunkView::Text(":"@, Some("Comment"@)),
            ChunkView::Text("Mad "@ + LOGIN_ACTION_NAME@, Some("Title"@)),
        ]);
    }
    r
}

/// The notification shown when joining failed: the login hint when the
/// user is not logged in, else the error's message.
pub fn join_error_chunks(err: &JoinError) -> (r: Vec<Chunk>)
    ensures
        match *err {
            JoinError::UserNotLoggedIn => chunks_view(r@) == not_logged_in_view(),
            _ => chunks_view(r@) == seq![ChunkView::Text(join_error_message(*err), None)],
        },
{
    match err {
        JoinError::UserNotLoggedIn => not_logged_in_chunks(),
        _ => {
            let mut r: Vec<Chunk> = Vec::new();
            r.push(Chunk::Text(err.message(), None));
            proof { assert(chunks_view(r@) =~= seq![ChunkView::Text(join_error_message(*err), None)]); }
            r
        },
    }
}

/// The notification shown when starting failed: the login hint when the
/// user is not logged in, else the error's message.
pub fn start_error_chunks(err: &StartError) -> (r: Vec<Chunk>)
    ensures
        match *err {
            StartError::UserNotLoggedIn => chunks_view(r@) == not_logged_in_view(),
            _ => chunks_view(r@) == seq![ChunkView::Text(start_error_message(*err), None)],
        },
{
    match err {
        StartError::UserNotLoggedIn => not_logged_in_chunks(),
        _ => {
            let mut r: Vec<Chunk> = Vec::new();
            r.push(Chunk::Text(err.message(), None));
            proof { assert(chunks_view(r@) =~= seq![ChunkView::Text(start_error_message(*err), None)]); }
            r
        },
    }
}

/// The error notified when joining failed.
pub fn join_error_notification(err: &JoinError) -> (r: String)
    ensures
        r@ == match *err {
            JoinError::UserNotLoggedIn => "You must be logged in to join a collaborative editing session. You can log in by executing ':Mad login'"@,
            _ => join_error_message(*err),
        },
{
    match err {
        JoinError::UserNotLoggedIn => String::from_str(
            "You must be logged in to join a collaborative editing session. You can log in by executing ':Mad login'"),
        _ => err.message(),
    }
}

/// The error notified when starting failed; none when the user chose not to
/// start.
pub fn start_error_notification(err: &StartError) -> (r: Option<String>)
    ensures
        match *err {
            StartError::UserDidNotConfirm => r is None,
            StartError::UserNotLoggedIn => r matches Some(s)
                && s@ == "You must be logged in to start collaborating. You can log in by executing ':Mad login'"@,
            _ => r matches Some(s) && s@ == start_error_message(*err),
        },
{
    match err {
        StartError::UserDidNotConfirm => None,
        StartError::UserNotLoggedIn => Some(String::from_str(
            "You must be logged in to start collaborating. You can log in by executing ':Mad login'")),
        _ => Some(err.message()),
    }
}

/// Receiving the project shows its progress only when the share received
/// changed: right after a share is shown, showing the same share again shows
/// nothing and changes nothing.
pub proof fn lemma_same_percentage_silent(rs: ReporterState, percentage: u8, a: u64, b: u64, c: u64, d: u64)
    requires
        rs.project_name is Some,
    ensures
        join_shows(JoinState::ReceivingProject(c, d), percentage,
            join_reporter_after(JoinState::ReceivingProject(a, b), percentage, rs)) == false,
        join_reporter_after(JoinState::ReceivingProject(c, d), percentage,
            join_reporter_after(JoinState::ReceivingProject(a, b), percentage, rs))
            == join_reporter_after(JoinState::ReceivingProject(a, b), percentage, rs),
{
}


/// The position of a join state in the sequence the join goes through.
pub open spec fn join_state_order(s: JoinState) -> nat {
    match s {
        JoinState::ConnectingToServer(_) => 0,
        JoinState::JoiningSession => 1,
        JoinState::ReceivedWelcome(_) => 2,
        JoinState::ReceivingProject(_, _) => 3,
        JoinState::WritingProject(_) => 4,
    }
}

/// Whether the join states `steps` (each with the share of the project
/// received when it was reported) come in the documented order: the first
/// is connecting to the server, and each is followed by the same state or
/// the next one.
pub open spec fn join_states_in_order(steps: Seq<(JoinState, u8)>) -> bool {
    &&& steps.len() > 0 ==> join_state_order(steps[0].0) == 0
    &&& forall|i: int| 0 < i < steps.len() ==> {
        ||| join_state_order(#[trigger] steps[i].0) == join_state_order(steps[i - 1].0)
        ||| join_state_order(steps[i].0) == join_state_order(steps[i - 1].0) + 1
    }
}

/// What a reporter that started with nothing remembers after showing
/// `steps` in turn.
pub open spec fn reporter_after_steps(steps: Seq<(JoinState, u8)>) -> ReporterState
    decreases steps.len(),
{
    if steps.len() == 0 {
        ReporterState { project_name: None, server_address: None, percentage: None }
    } else {
        join_reporter_after(steps.last().0, steps.last().1, reporter_after_steps(steps.drop_last()))
    }
}

proof fn lemma_reporter_after_prefix(steps: Seq<(JoinState, u8)>, i: int)
    requires
        join_states_in_order(steps),
        0 <= i <= steps.len(),
    ensures
        i >= 1 ==> reporter_after_steps(steps.take(i)).server_address is Some,
        i >= 1 && join_state_order(steps[i - 1].0) >= 2 ==> reporter_after_steps(steps.take(i)).project_name is Some,
    decreases i,
{
    if i >= 1 {
        lemma_reporter_after_prefix(steps, i - 1);
        assert(steps.take(i).drop_last() == steps.take(i - 1));
        assert(steps.take(i).last() == steps[i - 1]);
        if i >= 2 {
            assert(join_state_order(steps[i - 1].0) == join_state_order(steps[i - 2].0)
                || join_state_order(steps[i - 1].0) == join_state_order(steps[i - 2].0) + 1);
        }
    }
}

/// Reporting the join states in their documented order, starting from a
/// reporter that remembers nothing, never shows a state before the one it
/// needs: every state of the sequence can be shown when its turn comes.
pub proof fn lemma_join_states_in_order_showable(steps: Seq<(JoinState, u8)>)
    requires
        join_states_in_order(steps),
    ensures
        forall|i: int| 0 <= i < steps.len() ==> join_state_showable(
            #[trigger] steps[i].0,
            steps[i].1,
            reporter_after_steps(steps.take(i)),
        ),
{
    assert forall|i: int| 0 <= i < steps.len() implies join_state_showable(
        #[trigger] steps[i].0,
        steps[i].1,
        reporter_after_steps(steps.take(i)),
    ) by {
        lemma_reporter_after_prefix(steps, i);
        if i > 0 {
            assert(join_state_order(steps[i].0) == join_state_order(steps[i - 1].0)
                || join_state_order(steps[i].0) == join_state_order(steps[i - 1].0) + 1);
        }
    }
}

/// The position of a start state in the sequence the start goes through.
pub open spec fn start_state_order(s: StartState) -> nat {
    match s {
        StartState::ConnectingToServer(_) => 0,
        StartState::StartingSession => 1,
        StartState::ReadingProject(_) => 2,
    }
}

/// Whether the start states `steps` come in the documented order: the
/// first is connecting to the server, and each is followed by the same
/// state or the next one.
pub open spec fn start_states_in_order(steps: Seq<StartState>) -> bool {
    &&& steps.len() > 0 ==> start_state_order(steps[0]) == 0
    &&& forall|i: int| 0 < i < steps.len() ==> {
        ||| start_state_order(#[trigger] steps[i]) == start_state_order(steps[i - 1])
        ||| start_state_order(steps[i]) == start_state_order(steps[i - 1]) + 1
    }
}

/// What a reporter that started with nothing remembers after showing the
/// start states `steps` in turn.
pub open spec fn reporter_after_start_steps(steps: Seq<StartState>) -> ReporterState
    decreases steps.len(),
{
    if steps.len() == 0 {
        ReporterState { project_name: None, server_address: None, percentage: None }
    } else {
        start_reporter_after(steps.last(), reporter_after_start_steps(steps.drop_last()))
    }
}

proof fn lemma_start_reporter_after_prefix(steps: Seq<StartState>, i: int)
    requires
        start_states_in_order(steps),
        0 <= i <= steps.len(),
    ensures
        i >= 1 ==> reporter_after_start_steps(steps.take(i)).server_address is Some,
    decreases i,
{
    if i >= 1 {
        lemma_start_reporter_after_prefix(steps, i - 1);
        assert(steps.take(i).drop_last() == steps.take(i - 1));
        assert(steps.take(i).last() == steps[i - 1]);
    }
}

/// Reporting the start states in their documented order, starting from a
/// reporter that remembers nothing, never shows a state before the one it
/// needs.
pub proof fn lemma_start_states_in_order_showable(steps: Seq<StartState>)
    requires
        start_states_in_order(steps),
    ensures
        forall|i: int| 0 <= i < steps.len() ==> start_state_showable(
            #[trigger] steps[i],
            reporter_after_start_steps(steps.take(i)),
        ),
{
    assert forall|i: int| 0 <= i < steps.len() implies start_state_showable(
        #[trigger] steps[i],
        reporter_after_start_steps(steps.take(i)),
    ) by {
        lemma_start_reporter_after_prefix(steps, i);
    }
}
}
