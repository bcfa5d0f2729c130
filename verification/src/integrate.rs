//! What a session does with a message from a remote peer, once the
//! project's tree has taken it in: which decorations are drawn, moved or
//! removed, and how the remote peers change.
use vstd::prelude::*;

use crate::decorations::{removal, Decorations};
use crate::id_maps::{buffer_for_file, FileBuffer, IdMaps};
use crate::paths::concat;
use crate::peers::{follows, Peer, RemotePeer, RemotePeers};

verus! {

/// A remote cursor or selection as the project's tree reports it: its ID,
/// its owner, and the file it is in.
#[derive(Debug, Clone, Copy, PartialEq, Eq, Structural)]
pub struct RemoteMark {
    pub id: u64,
    pub owner: u64,
    pub file_id: u64,
}

/// Where to draw the decoration of a new remote cursor or selection.
#[derive(Debug)]
pub struct DrawAt {
    /// The ID of the cursor or selection.
    pub id: u64,
    /// The peer it belongs to.
    pub peer: Peer,
    /// The buffer to draw it in.
    pub buffer_id: u64,
}

/// The remote side of a session: its peers, and the decorations drawn for
/// their cursors (of type `T`) and selections (of type `S`).
#[derive(Debug)]
pub struct RemoteState<T, S> {
    pub peers: RemotePeers,
    pub tooltips: Decorations<T>,
    pub selections: Decorations<S>,
}

/// Where the decoration of `mark` is drawn, if it is drawn at all: in the
/// open buffer of its file, when its owner is a peer of the session.
pub open spec fn draw_target(peers: Map<u64, RemotePeer>, maps: crate::id_maps::IdMapsView, mark: RemoteMark) -> Option<u64> {
    if peers.contains_key(mark.owner) && maps.file2buffer.contains_key(mark.file_id) {
        Some(maps.file2buffer[mark.file_id])
    } else {
        None
    }
}

impl<T, S> RemoteState<T, S> {
    /// Where to draw the decoration of a cursor or selection that a remote
    /// peer created, if the project's tree took it in (`None` when it did
    /// not).
    pub fn on_mark_created(&self, mark: Option<RemoteMark>, maps: &IdMaps) -> (r: Option<DrawAt>)
        ensures
            match mark {
                None => r is None,
                Some(m) => match draw_target(self.peers@, maps@, m) {
                    None => r is None,
                    Some(b) => r matches Some(d) && d.id == m.id && d.buffer_id == b
                        && d.peer == self.peers@[m.owner].peer,
                },
            },
    {
        match mark {
            None => None,
            Some(m) => match crate::decorations::decoration_buffer(&self.peers, m.owner, maps, m.file_id) {
                None => None,
                Some(b) => {
                    let owner = self.peers.get(m.owner).unwrap();
                    Some(DrawAt { id: m.id, peer: owner.peer.duplicate(), buffer_id: b })
                },
            },
        }
    }

    /// Takes out the tooltip of a cursor that a remote peer removed, if the
    /// project's tree took the removal in and the cursor has one.
    pub fn on_cursor_removed(&mut self, cursor_id: Option<u64>) -> (r: Option<T>)
        ensures
            final(self).peers == old(self).peers,
            final(self).selections == old(self).selections,
            match cursor_id {
                None => r is None && final(self).tooltips == old(self).tooltips,
                Some(id) => final(self).tooltips@ == old(self).tooltips@.remove(id) && match r {
                    Some(t) => old(self).tooltips@.contains_key(id) && t == old(self).tooltips@[id],
                    None => !old(self).tooltips@.contains_key(id),
                },
            },
    {
        match cursor_id {
            None => None,
            Some(id) => self.tooltips.remove(id),
        }
    }

    /// Takes out the highlight of a selection that a remote peer removed, if
    /// the project's tree took the removal in and the selection has one.
    pub fn on_selection_removed(&mut self, selection_id: Option<u64>) -> (r: Option<S>)
        ensures
            final(self).peers == old(self).peers,
            final(self).tooltips == old(self).tooltips,
            match selection_id {
                None => r is None && final(self).selections == old(self).selections,
                Some(id) => final(self).selections@ == old(self).selections@.remove(id) && match r {
                    Some(s) => old(self).selections@.contains_key(id) && s == old(self).selections@[id],
                    None => !old(self).selections@.contains_key(id),
                },
            },
    {
        match selection_id {
            None => None,
            Some(id) => self.selections.remove(id),
        }
    }

    /// Adds a peer that joined the session; none with its ID may be in it.
    pub fn on_peer_joined(&mut self, peer: Peer, cursors: &Vec<(u64, u64)>)
        requires
            old(self).peers.wf(),
            !old(self).peers@.contains_key(peer.id),
        ensures
            final(self).peers.wf(),
            final(self).peers@.dom() == old(self).peers@.dom().insert(peer.id),
            forall|id: u64| #[trigger] old(self).peers@.contains_key(id) ==> final(self).peers@[id] == old(self).peers@[id],
            follows(final(self).peers@[peer.id], peer, cursors@),
            final(self).tooltips == old(self).tooltips,
            final(self).selections == old(self).selections,
    {
        self.peers.insert(peer, cursors);
    }

    /// Removes a peer that left (or was disconnected), with the decorations
    /// of the cursors and selections the project's tree dropped with it;
    /// the peer must be in the session. Gives back the peer and the
    /// decorations taken out.
    pub fn on_peer_left(&mut self, peer_id: u64, cursor_ids: &Vec<u64>, selection_ids: &Vec<u64>) -> (r: (
        RemotePeer,
        Vec<T>,
        Vec<S>,
    ))
        requires
            old(self).peers.wf(),
            old(self).peers@.contains_key(peer_id),
        ensures
            final(self).peers.wf(),
            final(self).peers@ == old(self).peers@.remove(peer_id),
            r.0 == old(self).peers@[peer_id],
            (r.1@, final(self).tooltips@) == removal(old(self).tooltips@, cursor_ids@),
            (r.2@, final(self).selections@) == removal(old(self).selections@, selection_ids@),
    {
        let peer = self.peers.remove(peer_id);
        let tooltips = self.tooltips.remove_all(cursor_ids);
        let selections = self.selections.remove_all(selection_ids);
        (peer, tooltips, selections)
    }
}

/// What to do with the buffer of a file that a remote peer saved: the
/// buffer open on the file, if any, may be saved too.
pub fn on_file_saved(file_id: Option<u64>, maps: &IdMaps) -> (r: Option<u64>)
    ensures
        match file_id {
            None => r is None,
            Some(f) => r == (if maps@.file2buffer.contains_key(f) { Some(maps@.file2buffer[f]) } else { None }),
        },
{
    match file_id {
        None => None,
        Some(f) => maps.buffer_of_file(f),
    }
}


/// A cursor of a file a remote text edit changed: its ID, its owner, and
/// its offset once the edit is applied.
#[derive(Debug, Clone, Copy, PartialEq, Eq, Structural)]
pub struct EditedCursor {
    pub id: u64,
    pub owner: u64,
    pub offset: u64,
}

/// A file a remote text edit changed, as the project's tree reports it: its
/// ID, its path in the project, and its cursors.
#[derive(Debug)]
pub struct EditedFile {
    pub file_id: u64,
    pub path: String,
    pub cursors: Vec<EditedCursor>,
}

/// What to do for a remote text edit: schedule the edit, as the session's
/// own agent, on the given buffer (opening it first if needed), then move
/// the tooltip of each listed cursor to the given offset.
#[derive(Debug)]
pub struct TextEditPlan {
    pub buffer: FileBuffer,
    pub tooltip_moves: Vec<(u64, u64)>,
}

/// The tooltip moves for the cursors `cursors` of an edited file: each
/// cursor not owned by the local peer `local`, in order, with its new
/// offset.
pub open spec fn tooltip_moves(cursors: Seq<EditedCursor>, local: u64) -> Seq<(u64, u64)>
    decreases cursors.len(),
{
    if cursors.len() == 0 {
        Seq::empty()
    } else {
        let prev = tooltip_moves(cursors.drop_last(), local);
        let c = cursors.last();
        if c.owner == local { prev } else { prev.push((c.id, c.offset)) }
    }
}

/// What to do for a remote text edit that the project's tree took in as a
/// change of `edited` (nothing when it took nothing in): the edit goes to
/// the buffer open on the file, or to a new buffer on the file's path under
/// `root`; then the tooltip of each remote cursor of the file moves to the
/// cursor's new offset.
pub fn text_edit_plan(maps: &IdMaps, local_peer_id: u64, root: &str, edited: Option<EditedFile>) -> (r: Option<TextEditPlan>)
    ensures
        match edited {
            None => r is None,
            Some(f) => r matches Some(plan)
                && (match plan.buffer {
                    FileBuffer::Open(b) => maps@.file2buffer.contains_key(f.file_id) && b == maps@.file2buffer[f.file_id],
                    FileBuffer::Create(p) => !maps@.file2buffer.contains_key(f.file_id) && p@ == concat(root@, f.path@),
                })
                && plan.tooltip_moves@ == tooltip_moves(f.cursors@, local_peer_id),
        },
{
    let f = match edited {
        None => return None,
        Some(f) => f,
    };
    let buffer = buffer_for_file(maps, f.file_id, root, f.path.as_str());
    let mut moves: Vec<(u64, u64)> = Vec::new();
    let mut i: usize = 0;
    while i < f.cursors.len()
        invariant
            i <= f.cursors@.len(),
            moves@ == tooltip_moves(f.cursors@.take(i as int), local_peer_id),
        decreases f.cursors@.len() - i,
    {
        proof {
            assert(f.cursors@.take(i as int + 1).drop_last() == f.cursors@.take(i as int));
        }
        let c = f.cursors[i];
        if c.owner != local_peer_id {
            moves.push((c.id, c.offset));
        }
        i += 1;
    }
    proof {
        assert(f.cursors@.take(f.cursors@.len() as int) == f.cursors@);
    }
    Some(TextEditPlan { buffer, tooltip_moves: moves })
}
}
