//! Joining and starting a session, as steps: each takes where the flow
//! stands and what the last outside call gave, and says what the flow waits
//! for next, what progress to report, and which outside call to make.
use vstd::prelude::*;

use crate::config::ServerAddress;
use crate::event_filter::{AllButOne, WatchState, WatchView};
use crate::id_maps::{IdMaps, IdMapsView};
use crate::paths::{join, join_exec, node_name, node_name_exec};
use crate::peers::{follows, peers_by_id, Peer, RemotePeers};
use crate::progress::{join_state_order, JoinError, JoinState, RequestProjectError, StartError, StartState};
use crate::sessions::{SessionInfos, Sessions};

verus! {

/// What the server's welcome says of the session.
#[derive(Debug)]
pub struct Welcome {
    /// The ID of the host of the session.
    pub host_id: u64,
    /// The local peer, as the server knows it.
    pub local_peer: Peer,
    /// The other peers in the session.
    pub other_peers: Vec<Peer>,
    /// The ID of the session.
    pub session_id: u64,
}

/// Whether `infos` describes the session of `w`, rooted at `root`, whose
/// remote peers follow their main cursors among `cursors`.
pub open spec fn describes(infos: SessionInfos, w: Welcome, root: Seq<char>, cursors: Seq<(u64, u64)>) -> bool {
    &&& infos.host_id == w.host_id
    &&& infos.local_peer == w.local_peer
    &&& infos.project_root_path@ == root
    &&& infos.session_id == w.session_id
    &&& infos.remote_peers.wf()
    &&& infos.remote_peers@.dom() == peers_by_id(w.other_peers@).dom()
    &&& forall|id: u64| #[trigger] infos.remote_peers@.contains_key(id)
        ==> follows(infos.remote_peers@[id], peers_by_id(w.other_peers@)[id], cursors)
}

/// The infos of the session of `w`, rooted at `root`, whose remote peers
/// follow their main cursors among `cursors`.
fn session_infos(w: Welcome, root: String, cursors: &Vec<(u64, u64)>) -> (r: SessionInfos)
    ensures
        describes(r, w, root@, cursors@),
{
    let remote_peers = RemotePeers::new(w.other_peers, cursors);
    SessionInfos {
        host_id: w.host_id,
        local_peer: w.local_peer,
        remote_peers,
        project_root_path: root,
        session_id: w.session_id,
    }
}

/// Where a join stands: what it waits for, and what it knows so far.
#[derive(Debug)]
pub enum JoinPhase {
    /// Waiting for the connection to the server.
    Connecting,
    /// Waiting for the server's welcome.
    Knocking,
    /// Waiting for the default directory for remote projects; the welcome
    /// and the project's name are known.
    AwaitingDefaultDir(Welcome, String),
    /// Waiting for the project from a peer; it goes under the given root.
    /// The flag says whether some progress of its reception was reported.
    RequestingProject(Welcome, String, bool),
    /// Waiting for the project to be written under the given root; the
    /// project's cursors are known, each as its owner and its ID.
    WritingProject(Welcome, String, Vec<(u64, u64)>),
    /// Waiting for the filter of the project's files; the project was
    /// written under the given root.
    MakingFilter(Welcome, String, Vec<(u64, u64)>),
    /// The join is over.
    Done,
}

/// The position, among the join states in the order they come, of the last
/// state a join in `phase` reported.
pub open spec fn reported_order(phase: JoinPhase) -> nat {
    match phase {
        JoinPhase::Connecting => 0,
        JoinPhase::Knocking => 1,
        JoinPhase::AwaitingDefaultDir(_, _) => 1,
        JoinPhase::RequestingProject(_, _, false) => 2,
        JoinPhase::RequestingProject(_, _, true) => 3,
        JoinPhase::WritingProject(_, _, _) => 4,
        JoinPhase::MakingFilter(_, _, _) => 4,
        JoinPhase::Done => 0,
    }
}

/// A join in progress.
#[derive(Debug)]
pub struct JoinFlow {
    /// The ID of the session asked for.
    pub session_id: u64,
    /// The directory the configuration puts remote projects under, if any.
    pub remote_dir: Option<String>,
    /// Where the join stands.
    pub phase: JoinPhase,
}

/// What an outside call made for a join gave.
#[derive(Debug)]
pub enum JoinEvent {
    /// Connecting to the server worked, or failed with the given message.
    Connected(Result<(), String>),
    /// The server's welcome and the project's name, or why it refused.
    Welcomed(Result<(Welcome, String), String>),
    /// The default directory for remote projects, or why there is none.
    DefaultDir(Result<String, String>),
    /// The given number of bytes of the project arrived, out of the total.
    ProjectProgress(u64, u64),
    /// The project's cursors, each as its owner and its ID, once the
    /// project arrived; or why it did not.
    ProjectReceived(Result<Vec<(u64, u64)>, RequestProjectError>),
    /// Writing the project worked, or failed with the given message.
    ProjectWritten(Result<(), String>),
    /// Making the filter of the project's files worked, or failed with the
    /// given message.
    FilterMade(Result<(), String>),
}

/// The outside call a join makes next.
#[derive(Debug)]
pub enum JoinAction {
    /// Connect to the server at the given address.
    Connect(ServerAddress),
    /// Ask the server to join the session with the given ID.
    Knock(u64),
    /// Ask the editor for its default directory for remote projects.
    AskDefaultDir,
    /// Ask a peer for the project, or go on receiving it.
    RequestProject,
    /// Write the project under the given root.
    WriteProject(String),
    /// Make the filter of the files of the project rooted at the given path.
    MakeFilter(String),
    /// The join is over: the ID of the session joined, or why it failed.
    Finish(Result<u64, JoinError>),
    /// Nothing: the event does not answer what the join waits for.
    Wait,
}

impl JoinFlow {
    /// Starts joining the session with the given ID on the server at
    /// `server_address`. A user who is not logged in gets
    /// `UserNotLoggedIn` before any connection is made.
    pub fn begin(
        logged_in: bool,
        server_address: ServerAddress,
        remote_dir: Option<String>,
        session_id: u64,
    ) -> (r: (JoinFlow, Option<JoinState>, JoinAction))
        ensures
            r.0.session_id == session_id,
            r.0.remote_dir == remote_dir,
            !logged_in ==> r.0.phase is Done && r.1 is None
                && (r.2 matches JoinAction::Finish(Err(JoinError::UserNotLoggedIn))),
            r.1 matches Some(s) ==> join_state_order(s) == 0 && reported_order(r.0.phase) == 0,
            logged_in ==> r.0.phase is Connecting
                && (r.1 matches Some(JoinState::ConnectingToServer(a)) && a@ == server_address@)
                && (r.2 matches JoinAction::Connect(a) && a@ == server_address@),
    {
        if !logged_in {
            return (JoinFlow { session_id, remote_dir, phase: JoinPhase::Done }, None,
                JoinAction::Finish(Err(JoinError::UserNotLoggedIn)));
        }
        let report = server_address.duplicate();
        (JoinFlow { session_id, remote_dir, phase: JoinPhase::Connecting },
            Some(JoinState::ConnectingToServer(report)), JoinAction::Connect(server_address))
    }

    /// The ID of the session a successful filter would register, if the
    /// join waits for the filter.
    pub fn session_to_register(&self) -> (r: Option<u64>)
        ensures
            r == (match self.phase {
                JoinPhase::MakingFilter(w, _, _) => Some(w.session_id),
                _ => None,
            }),
    {
        match &self.phase {
            JoinPhase::MakingFilter(w, _, _) => Some(w.session_id),
            _ => None,
        }
    }

    /// Moves the join on with what the last outside call gave. The states
    /// it reports come in the documented order: each is the state reported
    /// last, or the one after it (connecting, joining, welcomed, receiving,
    /// writing), the project being written only once some progress of its
    /// reception was reported. The project
    /// goes under the configured directory for remote projects, or else
    /// under the editor's default one (asked for only then), joined with
    /// the project's name. Every failure ends the join with its error and
    /// leaves the sessions as they were; once the filter is made, the
    /// session is registered under the ID the welcome gave.
    pub fn step(&mut self, event: JoinEvent, sessions: &mut Sessions) -> (r: (Option<JoinState>, JoinAction))
        requires
            match (old(self).phase, event) {
                (JoinPhase::MakingFilter(w, _, _), JoinEvent::FilterMade(Ok(_))) => !old(sessions)@.contains_key(w.session_id),
                _ => true,
            },
        ensures
            final(self).session_id == old(self).session_id,
            final(self).remote_dir == old(self).remote_dir,
            !(r.1 matches JoinAction::Finish(Ok(_))) ==> final(sessions)@ == old(sessions)@,
            r.0 matches Some(s) ==> join_state_order(s) == reported_order(final(self).phase)
                && (join_state_order(s) == reported_order(old(self).phase)
                    || join_state_order(s) == reported_order(old(self).phase) + 1),
            r.0 is None && !(final(self).phase is Done) ==> reported_order(final(self).phase) == reported_order(old(self).phase),
            match (old(self).phase, event) {
                (JoinPhase::Connecting, JoinEvent::Connected(Err(m))) => final(self).phase is Done
                    && r.0 is None && (r.1 matches JoinAction::Finish(Err(JoinError::ConnectToServer(e))) && e == m),
                (JoinPhase::Connecting, JoinEvent::Connected(Ok(_))) => final(self).phase is Knocking
                    && (r.0 matches Some(JoinState::JoiningSession))
                    && (r.1 matches JoinAction::Knock(id) && id == old(self).session_id),
                (JoinPhase::Knocking, JoinEvent::Welcomed(Err(m))) => final(self).phase is Done
                    && r.0 is None && (r.1 matches JoinAction::Finish(Err(JoinError::Knock(e))) && e == m),
                (JoinPhase::Knocking, JoinEvent::Welcomed(Ok((w, name)))) => match old(self).remote_dir {
                    Some(d) => (final(self).phase matches JoinPhase::RequestingProject(fw, root, false)
                        && fw == w && root@ == join(d@, name@))
                        && (r.0 matches Some(JoinState::ReceivedWelcome(n)) && n@ == name@)
                        && r.1 is RequestProject,
                    None => (final(self).phase matches JoinPhase::AwaitingDefaultDir(fw, n)
                        && fw == w && n@ == name@)
                        && r.0 is None && r.1 is AskDefaultDir,
                },
                (JoinPhase::AwaitingDefaultDir(_, _), JoinEvent::DefaultDir(Err(m))) => final(self).phase is Done
                    && r.0 is None
                    && (r.1 matches JoinAction::Finish(Err(JoinError::DefaultDirForRemoteProjects(e))) && e == m),
                (JoinPhase::AwaitingDefaultDir(w, name), JoinEvent::DefaultDir(Ok(d))) =>
                    (final(self).phase matches JoinPhase::RequestingProject(fw, root, false)
                        && fw == w && root@ == join(d@, name@))
                    && (r.0 matches Some(JoinState::ReceivedWelcome(n)) && n@ == name@)
                    && r.1 is RequestProject,
                (JoinPhase::RequestingProject(w, root, _), JoinEvent::ProjectProgress(done, total)) =>
                    (final(self).phase matches JoinPhase::RequestingProject(fw, froot, true)
                        && fw == w && froot == root)
                    && (r.0 matches Some(JoinState::ReceivingProject(d, t)) && d == done && t == total)
                    && r.1 is RequestProject,
                (JoinPhase::RequestingProject(_, _, _), JoinEvent::ProjectReceived(Err(e))) => final(self).phase is Done
                    && r.0 is None && (r.1 matches JoinAction::Finish(Err(JoinError::RequestProject(f))) && f == e),
                (JoinPhase::RequestingProject(w, root, true), JoinEvent::ProjectReceived(Ok(cursors))) =>
                    (final(self).phase matches JoinPhase::WritingProject(fw, froot, fc)
                        && fw == w && froot@ == root@ && fc == cursors)
                    && (r.0 matches Some(JoinState::WritingProject(p)) && p@ == root@)
                    && (r.1 matches JoinAction::WriteProject(p) && p@ == root@),
                (JoinPhase::WritingProject(_, _, _), JoinEvent::ProjectWritten(Err(m))) => final(self).phase is Done
                    && r.0 is None && (r.1 matches JoinAction::Finish(Err(JoinError::WriteProject(e))) && e == m),
                (JoinPhase::WritingProject(w, root, cursors), JoinEvent::ProjectWritten(Ok(_))) =>
                    (final(self).phase matches JoinPhase::MakingFilter(fw, fp, fc)
                        && fw == w && fp == root && fc == cursors)
                    && r.0 is None && (r.1 matches JoinAction::MakeFilter(p) && p@ == root@),
                (JoinPhase::MakingFilter(_, _, _), JoinEvent::FilterMade(Err(m))) => final(self).phase is Done
                    && r.0 is None && (r.1 matches JoinAction::Finish(Err(JoinError::ProjectFilter(e))) && e == m),
                (JoinPhase::MakingFilter(w, path, cursors), JoinEvent::FilterMade(Ok(_))) => final(self).phase is Done
                    && r.0 is None && (r.1 matches JoinAction::Finish(Ok(id)) && id == w.session_id)
                    && final(sessions)@.dom() == old(sessions)@.dom().insert(w.session_id)
                    && final(sessions)@ == old(sessions)@.insert(w.session_id, final(sessions)@[w.session_id])
                    && describes(final(sessions)@[w.session_id], w, path@, cursors@),
                _ => *final(self) == *old(self) && r.0 is None && r.1 is Wait,
            },
    {
        let mut phase = JoinPhase::Done;
        std::mem::swap(&mut phase, &mut self.phase);
        match (phase, event) {
            (JoinPhase::Connecting, JoinEvent::Connected(Err(m))) => {
                (None, JoinAction::Finish(Err(JoinError::ConnectToServer(m))))
            },
            (JoinPhase::Connecting, JoinEvent::Connected(Ok(_))) => {
                self.phase = JoinPhase::Knocking;
                (Some(JoinState::JoiningSession), JoinAction::Knock(self.session_id))
            },
            (JoinPhase::Knocking, JoinEvent::Welcomed(Err(m))) => {
                (None, JoinAction::Finish(Err(JoinError::Knock(m))))
            },
            (JoinPhase::Knocking, JoinEvent::Welcomed(Ok((w, name)))) => {
                match &self.remote_dir {
                    Some(d) => {
                        let root = join_exec(d.as_str(), name.as_str());
                        self.phase = JoinPhase::RequestingProject(w, root, false);
                        (Some(JoinState::ReceivedWelcome(name)), JoinAction::RequestProject)
                    },
                    None => {
                        self.phase = JoinPhase::AwaitingDefaultDir(w, name);
                        (None, JoinAction::AskDefaultDir)
                    },
                }
            },
            (JoinPhase::AwaitingDefaultDir(_, _), JoinEvent::DefaultDir(Err(m))) => {
                (None, JoinAction::Finish(Err(JoinError::DefaultDirForRemoteProjects(m))))
            },
            (JoinPhase::AwaitingDefaultDir(w, name), JoinEvent::DefaultDir(Ok(d))) => {
                let root = join_exec(d.as_str(), name.as_str());
                self.phase = JoinPhase::RequestingProject(w, root, false);
                (Some(JoinState::ReceivedWelcome(name)), JoinAction::RequestProject)
            },
            (JoinPhase::RequestingProject(w, root, _), JoinEvent::ProjectProgress(done, total)) => {
                self.phase = JoinPhase::RequestingProject(w, root, true);
                (Some(JoinState::ReceivingProject(done, total)), JoinAction::RequestProject)
            },
            (JoinPhase::RequestingProject(_, _, _), JoinEvent::ProjectReceived(Err(e))) => {
                (None, JoinAction::Finish(Err(JoinError::RequestProject(e))))
            },
            (JoinPhase::RequestingProject(w, root, true), JoinEvent::ProjectReceived(Ok(cursors))) => {
                let report = root.clone();
                let target = root.clone();
                self.phase = JoinPhase::WritingProject(w, root, cursors);
                (Some(JoinState::WritingProject(report)), JoinAction::WriteProject(target))
            },
            (JoinPhase::WritingProject(_, _, _), JoinEvent::ProjectWritten(Err(m))) => {
                (None, JoinAction::Finish(Err(JoinError::WriteProject(m))))
            },
            (JoinPhase::WritingProject(w, root, cursors), JoinEvent::ProjectWritten(Ok(_))) => {
                let target = root.clone();
                self.phase = JoinPhase::MakingFilter(w, root, cursors);
                (None, JoinAction::MakeFilter(target))
            },
            (JoinPhase::MakingFilter(_, _, _), JoinEvent::FilterMade(Err(m))) => {
                (None, JoinAction::Finish(Err(JoinError::ProjectFilter(m))))
            },
            (JoinPhase::MakingFilter(w, path, cursors), JoinEvent::FilterMade(Ok(_))) => {
                let id = w.session_id;
                let infos = session_infos(w, path, &cursors);
                sessions.insert(infos);
                (None, JoinAction::Finish(Ok(id)))
            },
            (phase, _) => {
                self.phase = phase;
                (None, JoinAction::Wait)
            },
        }
    }
}

/// Where a start stands: what it waits for, and what it knows so far.
#[derive(Debug)]
pub enum StartPhase {
    /// Waiting for the root of the project the focused buffer is in.
    SearchingRoot,
    /// Waiting for the user to confirm starting on the given root.
    Confirming(String),
    /// Waiting for the connection to the server; the root and the
    /// project's name are known.
    Connecting(String, String),
    /// Waiting for the server's welcome.
    Knocking(String, String),
    /// Waiting for the project at the given root to be read.
    Reading(String, Welcome),
    /// The start is over.
    Done,
}

/// A start in progress.
#[derive(Debug)]
pub struct StartFlow {
    /// The address of the server the session is started on.
    pub server_address: ServerAddress,
    /// Where the start stands.
    pub phase: StartPhase,
}

/// What an outside call made for a start gave.
#[derive(Debug)]
pub enum StartEvent {
    /// The root of the project, or why it could not be found.
    RootFound(Result<String, String>),
    /// Whether the user confirmed starting on the root found.
    Confirmed(bool),
    /// Connecting to the server worked, or failed with the given message.
    Connected(Result<(), String>),
    /// The server's welcome, or why it refused.
    Welcomed(Result<Welcome, String>),
    /// The project's cursors, each as its owner and its ID, once the
    /// project was read; or why reading it failed.
    ProjectRead(Result<Vec<(u64, u64)>, String>),
}

/// The outside call a start makes next.
#[derive(Debug)]
pub enum StartAction {
    /// Search the root of the project the buffer with the given ID is in.
    SearchRoot(u64),
    /// Ask the user to confirm starting on the given root.
    Confirm(String),
    /// Connect to the server at the given address.
    Connect(ServerAddress),
    /// Ask the server to start a session on the project with the given name.
    Knock(String),
    /// Read the project at the given root, for the local peer with the
    /// given ID.
    ReadProject(String, u64),
    /// The start is over: the ID of the session started, or why it failed.
    Finish(Result<u64, StartError>),
    /// Nothing: the event does not answer what the start waits for.
    Wait,
}

impl StartFlow {
    /// Starts a session on the project of the focused buffer, if any, on
    /// the server at `server_address`. A user who is not logged in gets
    /// `UserNotLoggedIn`, and without a focused buffer `NoBufferFocused`.
    pub fn begin(logged_in: bool, focused_buffer: Option<u64>, server_address: ServerAddress) -> (r: (StartFlow, StartAction))
        ensures
            r.0.server_address == server_address,
            !logged_in ==> r.0.phase is Done && (r.1 matches StartAction::Finish(Err(StartError::UserNotLoggedIn))),
            logged_in && focused_buffer is None ==> r.0.phase is Done
                && (r.1 matches StartAction::Finish(Err(StartError::NoBufferFocused))),
            logged_in && focused_buffer is Some ==> r.0.phase is SearchingRoot
                && (r.1 matches StartAction::SearchRoot(b) && focused_buffer == Some(b)),
    {
        if !logged_in {
            return (StartFlow { server_address, phase: StartPhase::Done },
                StartAction::Finish(Err(StartError::UserNotLoggedIn)));
        }
        match focused_buffer {
            None => (StartFlow { server_address, phase: StartPhase::Done },
                StartAction::Finish(Err(StartError::NoBufferFocused))),
            Some(b) => (StartFlow { server_address, phase: StartPhase::SearchingRoot }, StartAction::SearchRoot(b)),
        }
    }

    /// The ID of the session a successful read would register, if the
    /// start waits for the project to be read.
    pub fn session_to_register(&self) -> (r: Option<u64>)
        ensures
            r == (match self.phase {
                StartPhase::Reading(_, w) => Some(w.session_id),
                _ => None,
            }),
    {
        match &self.phase {
            StartPhase::Reading(_, w) => Some(w.session_id),
            _ => None,
        }
    }

    /// Moves the start on with what the last outside call gave. The
    /// session's project is named after the last component of its root,
    /// which must not be the root of the file system. Every failure ends
    /// the start with its error and leaves the sessions as they were; once
    /// the project is read, the session is registered under the ID the
    /// welcome gave.
    pub fn step(&mut self, event: StartEvent, sessions: &mut Sessions) -> (r: (Option<StartState>, StartAction))
        requires
            match (old(self).phase, event) {
                (StartPhase::Reading(_, w), StartEvent::ProjectRead(Ok(_))) => !old(sessions)@.contains_key(w.session_id),
                _ => true,
            },
        ensures
            final(self).server_address == old(self).server_address,
            !(r.1 matches StartAction::Finish(Ok(_))) ==> final(sessions)@ == old(sessions)@,
            match (old(self).phase, event) {
                (StartPhase::SearchingRoot, StartEvent::RootFound(Err(m))) => final(self).phase is Done
                    && r.0 is None && (r.1 matches StartAction::Finish(Err(StartError::SearchProjectRoot(e))) && e == m),
                (StartPhase::SearchingRoot, StartEvent::RootFound(Ok(root))) =>
                    (final(self).phase matches StartPhase::Confirming(fr) && fr@ == root@)
                    && r.0 is None && (r.1 matches StartAction::Confirm(p) && p@ == root@),
                (StartPhase::Confirming(_), StartEvent::Confirmed(false)) => final(self).phase is Done
                    && r.0 is None && (r.1 matches StartAction::Finish(Err(StartError::UserDidNotConfirm))),
                (StartPhase::Confirming(root), StartEvent::Confirmed(true)) => match node_name(root@) {
                    None => final(self).phase is Done && r.0 is None
                        && (r.1 matches StartAction::Finish(Err(StartError::ProjectRootIsFsRoot))),
                    Some(name) => (final(self).phase matches StartPhase::Connecting(fr, n)
                        && fr@ == root@ && n@ == name)
                        && (r.0 matches Some(StartState::ConnectingToServer(a)) && a@ == old(self).server_address@)
                        && (r.1 matches StartAction::Connect(a) && a@ == old(self).server_address@),
                },
                (StartPhase::Connecting(_, _), StartEvent::Connected(Err(m))) => final(self).phase is Done
                    && r.0 is None && (r.1 matches StartAction::Finish(Err(StartError::ConnectToServer(e))) && e == m),
                (StartPhase::Connecting(root, name), StartEvent::Connected(Ok(_))) =>
                    (final(self).phase matches StartPhase::Knocking(fr, n) && fr@ == root@ && n@ == name@)
                    && (r.0 matches Some(StartState::StartingSession))
                    && (r.1 matches StartAction::Knock(n) && n@ == name@),
                (StartPhase::Knocking(_, _), StartEvent::Welcomed(Err(m))) => final(self).phase is Done
                    && r.0 is None && (r.1 matches StartAction::Finish(Err(StartError::Knock(e))) && e == m),
                (StartPhase::Knocking(root, _), StartEvent::Welcomed(Ok(w))) =>
                    (final(self).phase matches StartPhase::Reading(fr, fw) && fr@ == root@ && fw == w)
                    && (r.0 matches Some(StartState::ReadingProject(p)) && p@ == root@)
                    && (r.1 matches StartAction::ReadProject(p, id) && p@ == root@ && id == w.local_peer.id),
                (StartPhase::Reading(_, _), StartEvent::ProjectRead(Err(m))) => final(self).phase is Done
                    && r.0 is None && (r.1 matches StartAction::Finish(Err(StartError::ReadProject(e))) && e == m),
                (StartPhase::Reading(root, w), StartEvent::ProjectRead(Ok(cursors))) => final(self).phase is Done
                    && r.0 is None && (r.1 matches StartAction::Finish(Ok(id)) && id == w.session_id)
                    && final(sessions)@.dom() == old(sessions)@.dom().insert(w.session_id)
                    && final(sessions)@ == old(sessions)@.insert(w.session_id, final(sessions)@[w.session_id])
                    && describes(final(sessions)@[w.session_id], w, root@, cursors@),
                _ => *final(self) == *old(self) && r.0 is None && r.1 is Wait,
            },
    {
        let mut phase = StartPhase::Done;
        std::mem::swap(&mut phase, &mut self.phase);
        match (phase, event) {
            (StartPhase::SearchingRoot, StartEvent::RootFound(Err(m))) => {
                (None, StartAction::Finish(Err(StartError::SearchProjectRoot(m))))
            },
            (StartPhase::SearchingRoot, StartEvent::RootFound(Ok(root))) => {
                let target = root.clone();
                self.phase = StartPhase::Confirming(root);
                (None, StartAction::Confirm(target))
            },
            (StartPhase::Confirming(_), StartEvent::Confirmed(false)) => {
                (None, StartAction::Finish(Err(StartError::UserDidNotConfirm)))
            },
            (StartPhase::Confirming(root), StartEvent::Confirmed(true)) => {
                match node_name_exec(root.as_str()) {
                    None => (None, StartAction::Finish(Err(StartError::ProjectRootIsFsRoot))),
                    Some(name) => {
                        self.phase = StartPhase::Connecting(root, name);
                        let report = self.server_address.duplicate();
                        let target = self.server_address.duplicate();
                        (Some(StartState::ConnectingToServer(report)), StartAction::Connect(target))
                    },
                }
            },
            (StartPhase::Connecting(_, _), StartEvent::Connected(Err(m))) => {
                (None, StartAction::Finish(Err(StartError::ConnectToServer(m))))
            },
            (StartPhase::Connecting(root, name), StartEvent::Connected(Ok(_))) => {
                let target = name.clone();
                self.phase = StartPhase::Knocking(root, name);
                (Some(StartState::StartingSession), StartAction::Knock(target))
            },
            (StartPhase::Knocking(_, _), StartEvent::Welcomed(Err(m))) => {
                (None, StartAction::Finish(Err(StartError::Knock(m))))
            },
            (StartPhase::Knocking(root, _), StartEvent::Welcomed(Ok(w))) => {
                let report = root.clone();
                let target = root.clone();
                let local_id = w.local_peer.id;
                self.phase = StartPhase::Reading(root, w);
                (Some(StartState::ReadingProject(report)), StartAction::ReadProject(target, local_id))
            },
            (StartPhase::Reading(_, _), StartEvent::ProjectRead(Err(m))) => {
                (None, StartAction::Finish(Err(StartError::ReadProject(m))))
            },
            (StartPhase::Reading(root, w), StartEvent::ProjectRead(Ok(cursors))) => {
                let id = w.session_id;
                let infos = session_infos(w, root, &cursors);
                sessions.insert(infos);
                (None, StartAction::Finish(Ok(id)))
            },
            (phase, _) => {
                self.phase = phase;
                (None, StartAction::Wait)
            },
        }
    }
}

/// What is at the path a session is started on.
#[derive(Debug, Clone, Copy, PartialEq, Eq, Structural)]
pub enum RootNode {
    /// A directory.
    Directory,
    /// A file, with its node ID.
    File(u64),
    /// A symbolic link.
    Symlink,
}

/// How the project is read from the path a session is started on.
#[derive(Debug, Clone, Copy, PartialEq, Eq, Structural)]
pub enum ProjectRootWalk {
    /// Walk the directory, keeping what the editor's project filter keeps.
    Directory,
    /// Walk the parent directory of the file, keeping only the file: the
    /// root of a project is always a directory.
    ParentOf(AllButOne),
}

/// Why the project cannot be read from the path a session is started on.
#[derive(Debug, Clone)]
pub enum ReadRootError {
    /// Nothing is at the given path.
    NoNodeAtRootPath(String),
    /// The given path is a symbolic link.
    RootIsSymlink(String),
}

/// How the project at `root_path` is read, given what is there.
pub fn project_root_walk(root_path: String, node: Option<RootNode>) -> (r: Result<ProjectRootWalk, ReadRootError>)
    ensures
        match node {
            None => r matches Err(ReadRootError::NoNodeAtRootPath(p)) && p == root_path,
            Some(RootNode::Directory) => r == Ok::<ProjectRootWalk, ReadRootError>(ProjectRootWalk::Directory),
            Some(RootNode::File(id)) => r == Ok::<ProjectRootWalk, ReadRootError>(ProjectRootWalk::ParentOf(AllButOne { id })),
            Some(RootNode::Symlink) => r matches Err(ReadRootError::RootIsSymlink(p)) && p == root_path,
        },
{
    match node {
        None => Err(ReadRootError::NoNodeAtRootPath(root_path)),
        Some(RootNode::Directory) => Ok(ProjectRootWalk::Directory),
        Some(RootNode::File(id)) => Ok(ProjectRootWalk::ParentOf(AllButOne { id })),
        Some(RootNode::Symlink) => Err(ReadRootError::RootIsSymlink(root_path)),
    }
}

/// The map from the first to the second number of each pair of `pairs`,
/// later pairs winning.
pub open spec fn pairs_map(pairs: Seq<(u64, u64)>) -> Map<u64, u64>
    decreases pairs.len(),
{
    if pairs.len() == 0 {
        Map::empty()
    } else {
        pairs_map(pairs.drop_last()).insert(pairs.last().0, pairs.last().1)
    }
}

/// A number is a key of `pairs_map(pairs)` exactly when it is the first
/// number of one of the pairs.
proof fn lemma_pairs_map_dom(pairs: Seq<(u64, u64)>, k: u64)
    ensures
        pairs_map(pairs).contains_key(k) <==> exists|a: int| 0 <= a < pairs.len() && #[trigger] pairs[a].0 == k,
    decreases pairs.len(),
{
    if pairs.len() > 0 {
        lemma_pairs_map_dom(pairs.drop_last(), k);
        if pairs_map(pairs.drop_last()).contains_key(k) {
            let a = choose|a: int| 0 <= a < pairs.drop_last().len() && #[trigger] pairs.drop_last()[a].0 == k;
            assert(pairs[a].0 == k);
        }
        if exists|a: int| 0 <= a < pairs.len() && #[trigger] pairs[a].0 == k {
            let a = choose|a: int| 0 <= a < pairs.len() && #[trigger] pairs[a].0 == k;
            if a < pairs.len() - 1 {
                assert(pairs.drop_last()[a].0 == k);
            }
        }
    }
}

/// Starts watching a buffer of the project that is open when the session
/// starts: the buffer is watched as the one of the file node `node_id` and
/// linked with the project's file `file_id`, and each of its cursors,
/// given as its editor ID and the ID of the cursor the project made for it,
/// is watched and mapped.
pub fn watch_open_buffer(
    watch: &mut WatchState,
    maps: &mut IdMaps,
    buffer_id: u64,
    node_id: u64,
    file_id: u64,
    cursors: &Vec<(u64, u64)>,
)
    requires
        !old(watch)@.buffers.contains(buffer_id),
        forall|a: int| 0 <= a < cursors@.len() ==> !old(watch)@.cursors.contains(#[trigger] cursors@[a].0),
        forall|a: int, b: int| 0 <= a < b < cursors@.len() ==> cursors@[a].0 != cursors@[b].0,
    ensures
        final(watch)@ == (WatchView {
            buffers: old(watch)@.buffers.insert(buffer_id),
            buffer_of_file: old(watch)@.buffer_of_file.insert(node_id, buffer_id),
            cursors: old(watch)@.cursors.union(pairs_map(cursors@).dom()),
            ..old(watch)@
        }),
        final(maps)@ == (IdMapsView {
            cursor2cursor: old(maps)@.cursor2cursor.union_prefer_right(pairs_map(cursors@)),
            ..old(maps)@.with_link(buffer_id, file_id)
        }),
{
    watch.watch_buffer(buffer_id, node_id);
    maps.link_buffer(buffer_id, file_id);
    let ghost w0 = watch@;
    let ghost m0 = maps@;
    proof {
        assert(cursors@.take(0) =~= Seq::<(u64, u64)>::empty());
        assert(w0.cursors.union(pairs_map(cursors@.take(0)).dom()) =~= w0.cursors);
        assert(m0.cursor2cursor.union_prefer_right(pairs_map(cursors@.take(0))) =~= m0.cursor2cursor);
    }
    let mut i: usize = 0;
    while i < cursors.len()
        invariant
            i <= cursors@.len(),
            forall|a: int| 0 <= a < cursors@.len() ==> !w0.cursors.contains(#[trigger] cursors@[a].0),
            forall|a: int, b: int| 0 <= a < b < cursors@.len() ==> cursors@[a].0 != cursors@[b].0,
            watch@ == (WatchView { cursors: w0.cursors.union(pairs_map(cursors@.take(i as int)).dom()), ..w0 }),
            maps@ == (IdMapsView {
                cursor2cursor: m0.cursor2cursor.union_prefer_right(pairs_map(cursors@.take(i as int))),
                ..m0
            }),
        decreases cursors@.len() - i,
    {
        let (cursor_id, project_cursor_id) = cursors[i];
        proof {
            assert(cursors@.take(i as int + 1).drop_last() == cursors@.take(i as int));
            lemma_pairs_map_dom(cursors@.take(i as int), cursor_id);
            if pairs_map(cursors@.take(i as int)).contains_key(cursor_id) {
                let a = choose|a: int| 0 <= a < cursors@.take(i as int).len() && #[trigger] cursors@.take(i as int)[a].0 == cursor_id;
                assert(cursors@[a].0 == cursors@[i as int].0);
            }
        }
        watch.watch_cursor(cursor_id);
        maps.track_cursor(cursor_id, project_cursor_id);
        i += 1;
        proof {
            let prev = pairs_map(cursors@.take(i - 1));
            let next = pairs_map(cursors@.take(i as int));
            assert(next == prev.insert(cursor_id, project_cursor_id));
            assert(watch@.cursors =~= w0.cursors.union(next.dom()));
            assert(maps@.cursor2cursor =~= m0.cursor2cursor.union_prefer_right(next));
        }
    }
    proof {
        assert(cursors@.take(cursors@.len() as int) == cursors@);
    }
}

} // verus!
