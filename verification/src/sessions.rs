//! The collaborative editing sessions the user is in, picking one of them,
//! and finding a remote peer to jump to.
use std::collections::{HashMap, VecDeque};
use vstd::prelude::*;

use crate::paths::{node_name, node_name_exec};
use crate::peers::{is_prefixed_handle, Peer, RemotePeer, RemotePeers};
use crate::text::chars_of;

verus! {

/// What the library knows about one running session.
#[derive(Debug)]
pub struct SessionInfos {
    /// The ID of the host of the session.
    pub host_id: u64,
    /// The local peer.
    pub local_peer: Peer,
    /// The remote peers in the session.
    pub remote_peers: RemotePeers,
    /// The path to the root of the project.
    pub project_root_path: String,
    /// The ID of the session.
    pub session_id: u64,
}

/// There is no active collaborative editing session.
#[derive(Debug, Clone, Copy, PartialEq, Eq, Structural)]
pub struct NoActiveSessionError;

impl NoActiveSessionError {
    /// The message shown to the user.
    pub fn message(&self) -> (r: &'static str)
        ensures
            r@ == "There's no active collaborative editing session"@,
    {
        "There's no active collaborative editing session"
    }
}

impl SessionInfos {
    /// The name of the project: the last component of its root path, which
    /// is never the file system's root.
    pub fn proj_name(&self) -> (r: String)
        requires
            node_name(self.project_root_path@) is Some,
        ensures
            Some(r@) == node_name(self.project_root_path@),
    {
        match node_name_exec(self.project_root_path.as_str()) {
            Some(n) => n,
            None => String::new(),
        }
    }
}

/// The running sessions, by their IDs.
#[derive(Debug)]
pub struct Sessions {
    inner: HashMap<u64, SessionInfos>,
}

impl View for Sessions {
    type V = Map<u64, SessionInfos>;

    closed spec fn view(&self) -> Map<u64, SessionInfos> {
        self.inner@
    }
}

/// The outcome of picking a session to act on.
#[derive(Debug)]
pub enum SessionChoice {
    /// The only session there is, as its root path and ID.
    Single(String, u64),
    /// More than one session: the user has to pick one of these.
    Ask(Vec<(String, u64)>),
}

/// Whether `list` holds each session of `m` once, as its root path and ID.
pub open spec fn lists_sessions(list: Seq<(String, u64)>, m: Map<u64, SessionInfos>) -> bool {
    &&& list.len() == m.len()
    &&& forall|j: int| 0 <= j < list.len() ==> #[trigger] m.contains_key(list[j].1)
        && list[j].0@ == m[list[j].1].project_root_path@
    &&& forall|id: u64| #[trigger] m.contains_key(id) ==> exists|j: int| 0 <= j < list.len() && list[j].1 == id
    &&& forall|a: int, b: int| 0 <= a < b < list.len() ==> list[a].1 != list[b].1
}

/// Where a jump to a peer lands: the peer's session and its main cursor.
pub enum JumpTarget {
    /// The main cursor of the peer, in the session with the given ID.
    Cursor(u64, u64),
    /// No session has a peer with the handle.
    UnknownPeer,
    /// The peer is in the session with the given ID (whose project has the
    /// given name) but has no cursor in the project.
    CursorNotInProject(u64, String),
}

/// Whether some remote peer of `peers` has the handle `handle`.
pub open spec fn has_handle(peers: Map<u64, RemotePeer>, handle: Seq<char>) -> bool {
    exists|id: u64| #[trigger] peers.contains_key(id) && peers[id].peer.handle@ == handle
}

/// Whether `h` starts with `prefix` and is the handle of a remote peer in
/// one of the sessions `m`.
pub open spec fn is_completion(m: Map<u64, SessionInfos>, h: Seq<char>, prefix: Seq<char>) -> bool {
    exists|sid: u64| #[trigger] m.contains_key(sid) && is_prefixed_handle(m[sid].remote_peers@, h, prefix)
}

impl Sessions {
    /// No session.
    pub fn new() -> (r: Sessions)
        ensures
            r@ == Map::<u64, SessionInfos>::empty(),
    {
        Sessions { inner: HashMap::new() }
    }

    /// The infos of the session with the given ID, if any.
    pub fn get(&self, session_id: u64) -> (r: Option<&SessionInfos>)
        ensures
            match r {
                Some(s) => self@.contains_key(session_id) && *s == self@[session_id],
                None => !self@.contains_key(session_id),
            },
    {
        broadcast use vstd::std_specs::hash::group_hash_axioms;
        self.inner.get(&session_id)
    }

    /// Adds the infos of a session that just started; no session with the
    /// same ID may be running.
    pub fn insert(&mut self, infos: SessionInfos)
        requires
            !old(self)@.contains_key(infos.session_id),
        ensures
            final(self)@ == old(self)@.insert(infos.session_id, infos),
    {
        broadcast use vstd::std_specs::hash::group_hash_axioms;
        let id = infos.session_id;
        self.inner.insert(id, infos);
    }

    /// Removes the infos of the session with the given ID, returning
    /// whether there were any.
    pub fn remove(&mut self, session_id: u64) -> (r: bool)
        ensures
            r == old(self)@.contains_key(session_id),
            final(self)@ == old(self)@.remove(session_id),
    {
        broadcast use vstd::std_specs::hash::group_hash_axioms;
        self.inner.remove(&session_id).is_some()
    }

    /// The number of running sessions.
    pub fn len(&self) -> (r: usize)
        ensures
            r == self@.len(),
    {
        broadcast use vstd::std_specs::hash::group_hash_axioms;
        self.inner.len()
    }

    /// The IDs of the running sessions, each once, in no given order.
    pub fn ids(&self) -> (r: Vec<u64>)
        ensures
            r@.to_set() == self@.dom(),
            r@.no_duplicates(),
    {
        broadcast use vstd::std_specs::hash::group_hash_axioms;
        let ghost keys = vstd::std_specs::iter::IteratorSpec::remaining(
            &vstd::std_specs::hash::spec_keys_iter(&self.inner),
        ).unref();
        let mut ids: Vec<u64> = Vec::new();
        for k in it: self.inner.keys()
            invariant
                ids@ == it.seq().unref().take(it.index()),
        {
            ids.push(*k);
            proof {
                assert(it.seq().unref().take(it.index() + 1) == it.seq().unref().take(it.index()).push(*k));
            }
        }
        proof {
            assert(keys.to_set() == self@.dom());
            assert(keys.no_duplicates());
        }
        assert(ids@ == keys);
        ids
    }

    /// Where jumping to the remote peer with the given handle lands: the
    /// first session found with such a peer decides.
    pub fn jump_target(&self, handle: &str) -> (r: JumpTarget)
        ensures
            match r {
                JumpTarget::Cursor(sid, cursor) => self@.contains_key(sid)
                    && exists|pid: u64| #[trigger] self@[sid].remote_peers@.contains_key(pid)
                        && self@[sid].remote_peers@[pid].peer.handle@ == handle@
                        && self@[sid].remote_peers@[pid].main_cursor_id == Some(cursor),
                JumpTarget::CursorNotInProject(sid, root) => self@.contains_key(sid)
                    && root@ == self@[sid].project_root_path@
                    && exists|pid: u64| #[trigger] self@[sid].remote_peers@.contains_key(pid)
                        && self@[sid].remote_peers@[pid].peer.handle@ == handle@
                        && self@[sid].remote_peers@[pid].main_cursor_id is None,
                JumpTarget::UnknownPeer => forall|sid: u64| #[trigger] self@.contains_key(sid)
                    ==> !has_handle(self@[sid].remote_peers@, handle@),
            },
    {
        broadcast use vstd::std_specs::hash::group_hash_axioms;
        let ids = self.ids();
        let mut i: usize = 0;
        while i < ids.len()
            invariant
                ids@.to_set() == self@.dom(),
                i <= ids@.len(),
                forall|k: int| 0 <= k < i ==> !has_handle(self@[#[trigger] ids@[k]].remote_peers@, handle@),
            decreases ids@.len() - i,
        {
            let sid = ids[i];
            proof { assert(ids@.to_set().contains(sid)); }
            let infos = self.inner.get(&sid).unwrap();
            match infos.remote_peers.find_by_handle(handle) {
                Some(p) => {
                    proof {
                        let pid = choose|pid: u64| #[trigger] infos.remote_peers@.contains_key(pid)
                            && infos.remote_peers@[pid] == *p;
                        assert(self@[sid].remote_peers@.contains_key(pid));
                    }
                    match p.main_cursor_id {
                        Some(c) => return JumpTarget::Cursor(sid, c),
                        None => return JumpTarget::CursorNotInProject(sid, infos.project_root_path.clone()),
                    }
                },
                None => {
                    proof {
                        assert(!has_handle(self@[ids@[i as int]].remote_peers@, handle@));
                    }
                },
            }
            i += 1;
        }
        proof {
            assert forall|sid: u64| #[trigger] self@.contains_key(sid) implies !has_handle(self@[sid].remote_peers@, handle@) by {
                assert(ids@.to_set().contains(sid));
                assert(ids@.contains(sid));
                let k = choose|k: int| 0 <= k < ids@.len() && ids@[k] == sid;
                assert(!has_handle(self@[ids@[k]].remote_peers@, handle@));
            }
        }
        JumpTarget::UnknownPeer
    }

    /// The handles of the remote peers of every session that start with
    /// `prefix`, each (session, peer) pair's once, in no given order.
    pub fn handle_completions(&self, prefix: &str) -> (r: Vec<String>)
        ensures
            forall|j: int| 0 <= j < r@.len() ==> is_completion(self@, #[trigger] r@[j]@, prefix@),
            forall|sid: u64, pid: u64| #[trigger] self@.contains_key(sid) && #[trigger] self@[sid].remote_peers@.contains_key(pid)
                && prefix@.is_prefix_of(self@[sid].remote_peers@[pid].peer.handle@)
                ==> exists|j: int| 0 <= j < r@.len() && r@[j]@ == self@[sid].remote_peers@[pid].peer.handle@,
    {
        broadcast use vstd::std_specs::hash::group_hash_axioms;
        let ids = self.ids();
        let mut out: Vec<String> = Vec::new();
        let mut i: usize = 0;
        while i < ids.len()
            invariant
                ids@.to_set() == self@.dom(),
                i <= ids@.len(),
                forall|j: int| 0 <= j < out@.len() ==> is_completion(self@, #[trigger] out@[j]@, prefix@),
                forall|k: int, pid: u64| 0 <= k < i && #[trigger] self@[ids@[k]].remote_peers@.contains_key(pid)
                    && prefix@.is_prefix_of(self@[ids@[k]].remote_peers@[pid].peer.handle@)
                    ==> exists|j: int| 0 <= j < out@.len() && out@[j]@ == self@[ids@[k]].remote_peers@[pid].peer.handle@,
            decreases ids@.len() - i,
        {
            let sid = ids[i];
            proof { assert(ids@.to_set().contains(sid)); }
            let infos = self.inner.get(&sid).unwrap();
            let found = infos.remote_peers.handles_with_prefix(prefix);
            let ghost before = out@;
            let mut j: usize = 0;
            while j < found.len()
                invariant
                    j <= found@.len(),
                    self@.contains_key(sid),
                    *infos == self@[sid],
                    sid == ids@[i as int],
                    out@.len() == before.len() + j,
                    forall|a: int| 0 <= a < before.len() ==> out@[a] == before[a],
                    forall|a: int| 0 <= a < j ==> out@[before.len() + a] == found@[a],
                    forall|a: int| 0 <= a < found@.len() ==> is_prefixed_handle(infos.remote_peers@, #[trigger] found@[a]@, prefix@),
                decreases found@.len() - j,
            {
                out.push(found[j].clone());
                j += 1;
            }
            proof {
                assert forall|a: int| 0 <= a < out@.len() implies is_completion(self@, #[trigger] out@[a]@, prefix@) by {
                    if a < before.len() {
                        assert(out@[a] == before[a]);
                    } else {
                        assert(out@[a] == found@[a - before.len()]);
                        assert(is_prefixed_handle(infos.remote_peers@, found@[a - before.len()]@, prefix@));
                    }
                }
                assert forall|k: int, pid: u64| 0 <= k < i + 1 && #[trigger] self@[ids@[k]].remote_peers@.contains_key(pid)
                    && prefix@.is_prefix_of(self@[ids@[k]].remote_peers@[pid].peer.handle@)
                    implies exists|b: int| 0 <= b < out@.len() && out@[b]@ == self@[ids@[k]].remote_peers@[pid].peer.handle@ by {
                    if k < i {
                        let b = choose|b: int| 0 <= b < before.len() && before[b]@ == self@[ids@[k]].remote_peers@[pid].peer.handle@;
                        assert(out@[b] == before[b]);
                    } else {
                        assert(infos.remote_peers@.contains_key(pid));
                        let a = choose|a: int| 0 <= a < found@.len() && found@[a]@ == infos.remote_peers@[pid].peer.handle@;
                        assert(out@[before.len() + a] == found@[a]);
                    }
                }
            }
            i += 1;
        }
        proof {
            assert forall|sid: u64, pid: u64| #[trigger] self@.contains_key(sid) && #[trigger] self@[sid].remote_peers@.contains_key(pid)
                && prefix@.is_prefix_of(self@[sid].remote_peers@[pid].peer.handle@)
                implies exists|j: int| 0 <= j < out@.len() && out@[j]@ == self@[sid].remote_peers@[pid].peer.handle@ by {
                assert(ids@.to_set().contains(sid));
                assert(ids@.contains(sid));
                let k = choose|k: int| 0 <= k < ids@.len() && ids@[k] == sid;
                assert(self@[ids@[k]].remote_peers@.contains_key(pid));
            }
        }
        out
    }

    /// Every running session, as its root path and ID, in no given order.
    pub fn active_sessions(&self) -> (r: Vec<(String, u64)>)
        ensures
            lists_sessions(r@, self@),
    {
        broadcast use vstd::std_specs::hash::group_hash_axioms;
        let ghost keys = vstd::std_specs::iter::IteratorSpec::remaining(
            &vstd::std_specs::hash::spec_keys_iter(&self.inner),
        ).unref();
        let mut ids: Vec<u64> = Vec::new();
        for k in it: self.inner.keys()
            invariant
                ids@ == it.seq().unref().take(it.index()),
        {
            ids.push(*k);
            proof {
                assert(it.seq().unref().take(it.index() + 1) == it.seq().unref().take(it.index()).push(*k));
            }
        }
        proof {
            assert(keys.to_set() == self@.dom());
            assert(keys.no_duplicates());
            assert(keys.len() == self@.dom().len());
        }
        assert(ids@ == keys);
        let mut out: Vec<(String, u64)> = Vec::new();
        let mut i: usize = 0;
        while i < ids.len()
            invariant
                ids@ == keys,
                keys.to_set() == self@.dom(),
                i <= ids@.len(),
                out@.len() == i,
                forall|j: int| 0 <= j < out@.len() ==> #[trigger] out@[j].1 == keys[j]
                    && out@[j].0@ == self@[keys[j]].project_root_path@,
            decreases ids@.len() - i,
        {
            let k = ids[i];
            proof {
                assert(keys.to_set().contains(k));
            }
            let infos = self.inner.get(&k).unwrap();
            let path = infos.project_root_path.clone();
            let ghost before = out@;
            out.push((path, k));
            proof {
                assert forall|j: int| 0 <= j < out@.len() implies #[trigger] out@[j].1 == keys[j]
                    && out@[j].0@ == self@[keys[j]].project_root_path@ by {
                    if j < before.len() {
                        assert(out@[j] == before[j]);
                    }
                }
            }
            i += 1;
        }
        proof {
            assert(out@.len() == keys.len());
            assert forall|j: int| 0 <= j < out@.len() implies #[trigger] self@.contains_key(out@[j].1)
                && out@[j].0@ == self@[out@[j].1].project_root_path@ by {
                assert(keys.to_set().contains(keys[j]));
            }
            assert forall|id: u64| #[trigger] self@.contains_key(id) implies exists|j: int| 0 <= j < out@.len() && out@[j].1 == id by {
                assert(keys.to_set().contains(id));
                assert(keys.contains(id));
                let j = choose|j: int| 0 <= j < keys.len() && keys[j] == id;
                assert(out@[j].1 == id);
            }
            assert forall|a: int, b: int| 0 <= a < b < out@.len() implies out@[a].1 != out@[b].1 by {
                assert(out@[a].1 == keys[a]);
                assert(out@[b].1 == keys[b]);
            }
            assert(self@.dom().len() == self@.len());
        }
        out
    }
}

/// Picks the session to act on among `sessions` (each given as its root
/// path and ID): fails when there is none, takes the only one, or leaves the
/// choice to the user.
pub fn choose_session(sessions: Vec<(String, u64)>) -> (r: Result<SessionChoice, NoActiveSessionError>)
    ensures
        match r {
            Err(_) => sessions@.len() == 0,
            Ok(SessionChoice::Single(p, id)) => sessions@.len() == 1 && p@ == sessions@[0].0@ && id == sessions@[0].1,
            Ok(SessionChoice::Ask(list)) => sessions@.len() > 1 && list@ == sessions@,
        },
{
    if sessions.len() == 0 {
        Err(NoActiveSessionError)
    } else if sessions.len() == 1 {
        let p = sessions[0].0.clone();
        let id = sessions[0].1;
        Ok(SessionChoice::Single(p, id))
    } else {
        Ok(SessionChoice::Ask(sessions))
    }
}


/// Where the cursor is on the command line of the jump command.
#[derive(Debug)]
pub enum CursorPosition {
    /// Inside an argument: whether it is the first argument, its text, and
    /// the cursor's offset in it, in characters.
    InArg(bool, String, usize),
    /// Between two arguments: whether there is an argument before the
    /// cursor.
    BetweenArgs(bool),
}

/// The start of the handle to complete at `pos`, if the cursor is on the
/// first argument: the part of it before the cursor, or nothing when no
/// argument comes before the cursor.
pub open spec fn completion_prefix_of(pos: CursorPosition) -> Option<Seq<char>> {
    match pos {
        CursorPosition::InArg(true, text, offset) => Some(text@.take(offset as int)),
        CursorPosition::BetweenArgs(false) => Some(Seq::empty()),
        _ => None,
    }
}

/// The start of the handle to complete at `pos` (see
/// [`completion_prefix_of`]).
pub fn completion_prefix(pos: &CursorPosition) -> (r: Option<String>)
    requires
        pos matches CursorPosition::InArg(_, t, o) ==> o <= t@.len(),
    ensures
        match r {
            Some(p) => completion_prefix_of(*pos) == Some(p@),
            None => completion_prefix_of(*pos) is None,
        },
{
    match pos {
        CursorPosition::InArg(true, text, offset) => {
            let mut cs = chars_of(text.as_str());
            cs.truncate(*offset);
            Some(crate::text::string_of(cs.as_slice()))
        },
        CursorPosition::BetweenArgs(false) => Some(String::new()),
        _ => None,
    }
}

/// The completions of the jump command at `pos`: the handles of the remote
/// peers of every session that start with what is typed of the first
/// argument.
pub fn jump_completions(sessions: &Sessions, pos: &CursorPosition) -> (r: Vec<String>)
    requires
        pos matches CursorPosition::InArg(_, t, o) ==> o <= t@.len(),
    ensures
        completion_prefix_of(*pos) is None ==> r@.len() == 0,
        completion_prefix_of(*pos) matches Some(prefix) ==> {
            &&& forall|j: int| 0 <= j < r@.len() ==> is_completion(sessions@, #[trigger] r@[j]@, prefix)
            &&& forall|sid: u64, pid: u64| #[trigger] sessions@.contains_key(sid)
                && #[trigger] sessions@[sid].remote_peers@.contains_key(pid)
                && prefix.is_prefix_of(sessions@[sid].remote_peers@[pid].peer.handle@)
                ==> exists|j: int| 0 <= j < r@.len() && r@[j]@ == sessions@[sid].remote_peers@[pid].peer.handle@
        },
{
    match completion_prefix(pos) {
        Some(p) => sessions.handle_completions(p.as_str()),
        None => Vec::new(),
    }
}

/// The message shown when no session has a peer with the given handle.
pub fn unknown_peer_message(handle: &str) -> (r: String)
    ensures
        r@ == "There's no peer with handle '"@ + handle@ + "' in any of the sessions"@,
{
    let mut cs = chars_of("There's no peer with handle '");
    crate::text::push_str(&mut cs, handle);
    crate::text::push_str(&mut cs, "' in any of the sessions");
    crate::text::string_of(cs.as_slice())
}

/// The message shown when the peer with the given handle has no cursor in
/// the project rooted at `root`.
pub fn cursor_not_in_project_message(handle: &str, root: &str) -> (r: String)
    requires
        node_name(root@) is Some,
    ensures
        node_name(root@) matches Some(name) && r@ == handle@ + "'s cursor is not in "@ + name,
{
    let mut cs = chars_of(handle);
    crate::text::push_str(&mut cs, "'s cursor is not in ");
    match node_name_exec(root) {
        Some(n) => crate::text::push_str(&mut cs, n.as_str()),
        None => {},
    }
    crate::text::string_of(cs.as_slice())
}


/// The channels used to ask each running session to stop, by session ID.
#[derive(Debug)]
pub struct StopChannels<S> {
    inner: HashMap<u64, S>,
}

impl<S> View for StopChannels<S> {
    type V = Map<u64, S>;

    closed spec fn view(&self) -> Map<u64, S> {
        self.inner@
    }
}

impl<S> StopChannels<S> {
    /// No channel.
    pub fn new() -> (r: StopChannels<S>)
        ensures
            r@ == Map::<u64, S>::empty(),
    {
        StopChannels { inner: HashMap::new() }
    }

    /// Keeps the sending half of the stop channel of a session that just
    /// started; no session with the same ID may have one already.
    pub fn insert(&mut self, session_id: u64, sender: S)
        requires
            !old(self)@.contains_key(session_id),
        ensures
            final(self)@ == old(self)@.insert(session_id, sender),
    {
        broadcast use vstd::std_specs::hash::group_hash_axioms;
        self.inner.insert(session_id, sender);
    }

    /// Takes out the sending half of the stop channel of the given session,
    /// if it has one.
    pub fn take(&mut self, session_id: u64) -> (r: Option<S>)
        ensures
            final(self)@ == old(self)@.remove(session_id),
            match r {
                Some(s) => old(self)@.contains_key(session_id) && s == old(self)@[session_id],
                None => !old(self)@.contains_key(session_id),
            },
    {
        broadcast use vstd::std_specs::hash::group_hash_axioms;
        self.inner.remove(&session_id)
    }
}

/// A sender kept for a session is what taking it out gives back, and then
/// the session has none.
pub proof fn lemma_stop_channel_roundtrip<S>(channels: Map<u64, S>, session_id: u64, sender: S)
    requires
        !channels.contains_key(session_id),
    ensures
        channels.insert(session_id, sender).contains_key(session_id),
        channels.insert(session_id, sender)[session_id] == sender,
        channels.insert(session_id, sender).remove(session_id) == channels,
{
    assert(channels.insert(session_id, sender).remove(session_id) =~= channels);
}


/// The requests to run a function on a session's project, queued until the
/// session's event loop takes them, in order.
#[derive(Debug)]
pub struct ProjectAccess<C> {
    callbacks: VecDeque<C>,
    event_loop_has_started: bool,
}

impl<C> ProjectAccess<C> {
    /// The queued requests, oldest first.
    pub closed spec fn queued(&self) -> Seq<C> {
        self.callbacks@
    }

    /// Whether the session's event loop has started taking requests.
    pub closed spec fn started(&self) -> bool {
        self.event_loop_has_started
    }

    /// No request, and an event loop that has not started.
    pub fn new() -> (r: ProjectAccess<C>)
        ensures
            r.queued() == Seq::<C>::empty(),
            !r.started(),
    {
        ProjectAccess { callbacks: VecDeque::new(), event_loop_has_started: false }
    }

    /// Queues a request.
    pub fn push(&mut self, callback: C)
        ensures
            final(self).queued() == old(self).queued().push(callback),
            final(self).started() == old(self).started(),
    {
        self.callbacks.push_back(callback);
    }

    /// After queueing a request and waking the event loop: when nobody was
    /// woken although the loop had started, the loop has ended, and the
    /// request just queued is taken back.
    pub fn after_wake(&mut self, num_notified: usize) -> (r: Option<C>)
        requires
            old(self).queued().len() > 0,
        ensures
            final(self).started() == old(self).started(),
            if num_notified == 0 && old(self).started() {
                &&& r == Some(old(self).queued().last())
                &&& final(self).queued() == old(self).queued().drop_last()
            } else {
                &&& r is None
                &&& final(self).queued() == old(self).queued()
            },
    {
        if num_notified == 0 && self.event_loop_has_started {
            self.callbacks.pop_back()
        } else {
            None
        }
    }

    /// Marks the event loop as started.
    pub fn start_event_loop(&mut self)
        ensures
            final(self).queued() == old(self).queued(),
            final(self).started(),
    {
        self.event_loop_has_started = true;
    }

    /// Takes the oldest request, if any.
    pub fn next(&mut self) -> (r: Option<C>)
        ensures
            final(self).started() == old(self).started(),
            if old(self).queued().len() == 0 {
                r is None && final(self).queued() == old(self).queued()
            } else {
                r == Some(old(self).queued()[0]) && final(self).queued() == old(self).queued().drop_first()
            },
    {
        self.callbacks.pop_front()
    }
}

/// A request queued once the event loop has ended (nobody is woken) is
/// taken back, and the queue is as it was before: `queued` is the queue
/// before [`ProjectAccess::push`] of `request`.
pub proof fn lemma_unheard_request_taken_back<C>(queued: Seq<C>, request: C)
    ensures
        queued.push(request).len() > 0,
        queued.push(request).last() == request,
        queued.push(request).drop_last() == queued,
{
    assert(queued.push(request).drop_last() =~= queued);
}
}
