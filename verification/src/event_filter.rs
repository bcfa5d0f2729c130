//! Which editor and file system events a session acts on, and what it
//! watches: the project's directories, files and buffers, and the cursors
//! and selections in those buffers.
use std::collections::{HashMap, HashSet};
use vstd::prelude::*;

use crate::paths::{starts_with, starts_with_exec};

verus! {

/// The abstract value of a [`WatchState`].
pub struct WatchView {
    pub root_id: u64,
    pub root_path: Seq<char>,
    pub dirs: Set<u64>,
    pub files: Set<u64>,
    pub buffers: Set<u64>,
    pub cursors: Set<u64>,
    pub selections: Set<u64>,
    pub buffer_of_file: Map<u64, u64>,
    pub saved_buffers: Set<u64>,
}

/// What a session watches.
#[derive(Debug)]
pub struct WatchState {
    root_id: u64,
    root_path: String,
    dirs: HashSet<u64>,
    files: HashSet<u64>,
    buffers: HashSet<u64>,
    cursors: HashSet<u64>,
    selections: HashSet<u64>,
    buffer_of_file: HashMap<u64, u64>,
    saved_buffers: HashSet<u64>,
}

impl View for WatchState {
    type V = WatchView;

    closed spec fn view(&self) -> WatchView {
        WatchView {
            root_id: self.root_id,
            root_path: self.root_path@,
            dirs: self.dirs@,
            files: self.files@,
            buffers: self.buffers@,
            cursors: self.cursors@,
            selections: self.selections@,
            buffer_of_file: self.buffer_of_file@,
            saved_buffers: self.saved_buffers@,
        }
    }
}

/// What to do with a directory event about a moved node.
#[derive(Debug, Clone, Copy, PartialEq, Eq, Structural)]
pub enum MoveOutcome {
    /// Drop the event.
    Ignore,
    /// Pass the move on.
    Forward,
    /// The node left the project: pass the event on as the node's deletion,
    /// from its old path.
    AsDeletion,
}

/// The watched buffers once the buffer of the file `file`, if it has one,
/// stops being watched.
pub open spec fn buffers_without_file(w: WatchView, file: u64) -> Set<u64> {
    if w.buffer_of_file.contains_key(file) {
        w.buffers.remove(w.buffer_of_file[file])
    } else {
        w.buffers
    }
}

/// Whether a modification of the file `file` comes from saving its buffer:
/// the file has a watched buffer that was just saved.
pub open spec fn is_save_echo(w: WatchView, file: u64) -> bool {
    w.buffer_of_file.contains_key(file) && w.saved_buffers.contains(w.buffer_of_file[file])
}

/// What is watched after a modification of the file `file`: a save it
/// echoes is consumed.
pub open spec fn after_modification(w: WatchView, file: u64) -> WatchView {
    if is_save_echo(w, file) {
        WatchView { saved_buffers: w.saved_buffers.remove(w.buffer_of_file[file]), ..w }
    } else {
        w
    }
}

/// A save of a buffer hides one modification of its file: the next one is
/// passed on.
pub proof fn lemma_save_hides_one_modification(w: WatchView, file: u64)
    requires
        is_save_echo(w, file),
    ensures
        !is_save_echo(after_modification(w, file), file),
        after_modification(after_modification(w, file), file) == after_modification(w, file),
{
}

/// The kinds of node of the file system.
#[derive(Debug, Clone, Copy, PartialEq, Eq, Structural)]
pub enum NodeKind {
    Directory,
    File,
    Symlink,
}

impl WatchState {
    /// Starts watching a node created in the project: a directory, or a
    /// file together with the buffer open on it, if any (which must not be
    /// watched already). Symlinks are not watched.
    pub fn watch_node(&mut self, kind: NodeKind, node_id: u64, open_buffer: Option<u64>)
        requires
            kind == NodeKind::File ==> match open_buffer {
                Some(b) => !old(self)@.buffers.contains(b),
                None => true,
            },
        ensures
            final(self)@ == match kind {
                NodeKind::Directory => WatchView { dirs: old(self)@.dirs.insert(node_id), ..old(self)@ },
                NodeKind::File => match open_buffer {
                    Some(b) => WatchView {
                        files: old(self)@.files.insert(node_id),
                        buffers: old(self)@.buffers.insert(b),
                        buffer_of_file: old(self)@.buffer_of_file.insert(node_id, b),
                        ..old(self)@
                    },
                    None => WatchView { files: old(self)@.files.insert(node_id), ..old(self)@ },
                },
                NodeKind::Symlink => old(self)@,
            },
    {
        match kind {
            NodeKind::Directory => self.watch_directory(node_id),
            NodeKind::File => {
                self.watch_file(node_id);
                match open_buffer {
                    Some(b) => self.watch_buffer(b, node_id),
                    None => {},
                }
            },
            NodeKind::Symlink => {},
        }
    }

    /// Watches nothing yet, for the project whose root directory has the
    /// given node ID and path.
    pub fn new(root_id: u64, root_path: String) -> (r: WatchState)
        ensures
            r@ == (WatchView {
                root_id,
                root_path: root_path@,
                dirs: Set::empty(),
                files: Set::empty(),
                buffers: Set::empty(),
                cursors: Set::empty(),
                selections: Set::empty(),
                buffer_of_file: Map::empty(),
                saved_buffers: Set::empty(),
            }),
    {
        WatchState {
            root_id,
            root_path,
            dirs: HashSet::new(),
            files: HashSet::new(),
            buffers: HashSet::new(),
            cursors: HashSet::new(),
            selections: HashSet::new(),
            buffer_of_file: HashMap::new(),
            saved_buffers: HashSet::new(),
        }
    }

    /// The path of the project's root.
    pub fn root_path(&self) -> (r: &String)
        ensures
            r@ == self@.root_path,
    {
        &self.root_path
    }

    /// Starts watching the directory with the given node ID.
    pub fn watch_directory(&mut self, node_id: u64)
        ensures
            final(self)@ == (WatchView { dirs: old(self)@.dirs.insert(node_id), ..old(self)@ }),
    {
        broadcast use vstd::std_specs::hash::group_hash_axioms;
        self.dirs.insert(node_id);
    }

    /// Starts watching the file with the given node ID.
    pub fn watch_file(&mut self, node_id: u64)
        ensures
            final(self)@ == (WatchView { files: old(self)@.files.insert(node_id), ..old(self)@ }),
    {
        broadcast use vstd::std_specs::hash::group_hash_axioms;
        self.files.insert(node_id);
    }

    /// Starts watching the buffer opened on the file with the given node ID;
    /// the buffer must not be watched already.
    pub fn watch_buffer(&mut self, buffer_id: u64, file_id: u64)
        requires
            !old(self)@.buffers.contains(buffer_id),
        ensures
            final(self)@ == (WatchView {
                buffers: old(self)@.buffers.insert(buffer_id),
                buffer_of_file: old(self)@.buffer_of_file.insert(file_id, buffer_id),
                ..old(self)@
            }),
    {
        broadcast use vstd::std_specs::hash::group_hash_axioms;
        self.buffer_of_file.insert(file_id, buffer_id);
        self.buffers.insert(buffer_id);
    }

    /// Whether the buffer with the given ID is watched.
    pub fn is_buffer_watched(&self, buffer_id: u64) -> (r: bool)
        ensures
            r == self@.buffers.contains(buffer_id),
    {
        broadcast use vstd::std_specs::hash::group_hash_axioms;
        self.buffers.contains(&buffer_id)
    }

    /// Stops watching a buffer that was removed.
    pub fn buffer_removed(&mut self, buffer_id: u64)
        ensures
            final(self)@ == (WatchView { buffers: old(self)@.buffers.remove(buffer_id), ..old(self)@ }),
    {
        broadcast use vstd::std_specs::hash::group_hash_axioms;
        self.buffers.remove(&buffer_id);
    }

    /// Notes that a watched buffer was just saved, so that the file
    /// modification the save causes is not taken for an outside edit.
    pub fn buffer_saved(&mut self, buffer_id: u64)
        ensures
            final(self)@ == (WatchView { saved_buffers: old(self)@.saved_buffers.insert(buffer_id), ..old(self)@ }),
    {
        broadcast use vstd::std_specs::hash::group_hash_axioms;
        self.saved_buffers.insert(buffer_id);
    }

    /// Whether a buffer created at `path` may belong to the project: its
    /// path is under the project's root.
    pub fn buffer_in_project(&self, path: &str) -> (r: bool)
        ensures
            r == starts_with(path@, self@.root_path),
    {
        starts_with_exec(path, self.root_path.as_str())
    }

    /// Whether a cursor created in the buffer with the given ID is one the
    /// session cares about: the buffer is watched.
    pub fn cursor_in_project(&self, buffer_id: u64) -> (r: bool)
        ensures
            r == self@.buffers.contains(buffer_id),
    {
        self.is_buffer_watched(buffer_id)
    }

    /// Starts watching a cursor; it must not be watched already.
    pub fn watch_cursor(&mut self, cursor_id: u64)
        requires
            !old(self)@.cursors.contains(cursor_id),
        ensures
            final(self)@ == (WatchView { cursors: old(self)@.cursors.insert(cursor_id), ..old(self)@ }),
    {
        broadcast use vstd::std_specs::hash::group_hash_axioms;
        self.cursors.insert(cursor_id);
    }

    /// Stops watching a cursor that was removed.
    pub fn cursor_removed(&mut self, cursor_id: u64)
        ensures
            final(self)@ == (WatchView { cursors: old(self)@.cursors.remove(cursor_id), ..old(self)@ }),
    {
        broadcast use vstd::std_specs::hash::group_hash_axioms;
        self.cursors.remove(&cursor_id);
    }

    /// Whether a selection created in the buffer with the given ID is one
    /// the session cares about: the buffer is watched.
    pub fn selection_in_project(&self, buffer_id: u64) -> (r: bool)
        ensures
            r == self@.buffers.contains(buffer_id),
    {
        self.is_buffer_watched(buffer_id)
    }

    /// Starts watching a selection; it must not be watched already.
    pub fn watch_selection(&mut self, selection_id: u64)
        requires
            !old(self)@.selections.contains(selection_id),
        ensures
            final(self)@ == (WatchView { selections: old(self)@.selections.insert(selection_id), ..old(self)@ }),
    {
        broadcast use vstd::std_specs::hash::group_hash_axioms;
        self.selections.insert(selection_id);
    }

    /// Stops watching a selection that was removed.
    pub fn selection_removed(&mut self, selection_id: u64)
        ensures
            final(self)@ == (WatchView { selections: old(self)@.selections.remove(selection_id), ..old(self)@ }),
    {
        broadcast use vstd::std_specs::hash::group_hash_axioms;
        self.selections.remove(&selection_id);
    }

    /// Stops watching the buffer of the file with the given node ID, if it
    /// has one.
    fn forget_buffer_of_file(&mut self, file_id: u64)
        ensures
            final(self)@ == (WatchView { buffers: buffers_without_file(old(self)@, file_id), ..old(self)@ }),
    {
        broadcast use vstd::std_specs::hash::group_hash_axioms;
        match self.buffer_of_file.get(&file_id) {
            Some(b) => {
                let b = *b;
                self.buffers.remove(&b);
            },
            None => {},
        }
    }

    /// Handles the deletion of the node `node_id`, caused by the deletion of
    /// `deletion_root_id` (itself or an ancestor): its buffer, if any, stops
    /// being watched, and the event is passed on only when the node is the
    /// deleted one or the project's root.
    pub fn on_deletion(&mut self, node_id: u64, deletion_root_id: u64) -> (r: bool)
        ensures
            final(self)@ == (WatchView { buffers: buffers_without_file(old(self)@, node_id), ..old(self)@ }),
            r == (node_id == deletion_root_id || node_id == old(self)@.root_id),
    {
        self.forget_buffer_of_file(node_id);
        if node_id != deletion_root_id {
            node_id == self.root_id
        } else {
            true
        }
    }

    /// Handles the move of the node `node_id` to `new_path`, caused by the
    /// move of `move_root_id` (itself or an ancestor).
    ///
    /// A node moved along with an ancestor is ignored unless it is the
    /// project's root, whose new path is then kept. A node that stays under
    /// the root is passed on. One moved out of the root's subtree stops being
    /// watched, as does the buffer of its file, and the event becomes its
    /// deletion.
    pub fn on_move(&mut self, node_id: u64, move_root_id: u64, new_path: &str) -> (r: MoveOutcome)
        ensures
            node_id != move_root_id && node_id == old(self)@.root_id ==> r == MoveOutcome::Forward
                && final(self)@ == (WatchView { root_path: new_path@, ..old(self)@ }),
            node_id != move_root_id && node_id != old(self)@.root_id ==> r == MoveOutcome::Ignore
                && final(self)@ == old(self)@,
            node_id == move_root_id && starts_with(new_path@, old(self)@.root_path) ==> r == MoveOutcome::Forward
                && final(self)@ == old(self)@,
            node_id == move_root_id && !starts_with(new_path@, old(self)@.root_path) ==> r == MoveOutcome::AsDeletion
                && final(self)@ == (if old(self)@.files.contains(node_id) {
                    WatchView {
                        files: old(self)@.files.remove(node_id),
                        buffers: buffers_without_file(old(self)@, node_id),
                        ..old(self)@
                    }
                } else {
                    WatchView { dirs: old(self)@.dirs.remove(node_id), ..old(self)@ }
                }),
    {
        broadcast use vstd::std_specs::hash::group_hash_axioms;
        if node_id != move_root_id {
            if node_id == self.root_id {
                self.root_path = String::from_str(new_path);
                return MoveOutcome::Forward;
            } else {
                return MoveOutcome::Ignore;
            }
        }
        if starts_with_exec(new_path, self.root_path.as_str()) {
            MoveOutcome::Forward
        } else {
            let ghost before = self@;
            if self.files.remove(&node_id) {
                self.forget_buffer_of_file(node_id);
            } else {
                assert(before.files.remove(node_id) =~= before.files);
                self.dirs.remove(&node_id);
            }
            MoveOutcome::AsDeletion
        }
    }

    /// Handles the modification of the file with the given node ID: it is
    /// dropped when it comes from saving the file's buffer (which it
    /// consumes), else passed on.
    pub fn on_file_modification(&mut self, file_id: u64) -> (r: bool)
        ensures
            r == !is_save_echo(old(self)@, file_id),
            final(self)@ == after_modification(old(self)@, file_id),
    {
        broadcast use vstd::std_specs::hash::group_hash_axioms;
        match self.buffer_of_file.get(&file_id) {
            Some(b) => {
                let b = *b;
                let ghost before = self@;
                let was_saved = self.saved_buffers.remove(&b);
                proof {
                    if !was_saved {
                        assert(before.saved_buffers.remove(b) =~= before.saved_buffers);
                    }
                }
                !was_saved
            },
            None => true,
        }
    }
}


impl WatchState {
    /// Decides whether a buffer that was just created joins the project,
    /// and starts watching it if it does. `path` is the buffer's path, or
    /// `None` if the buffer is already gone; `node` is what the file system
    /// has at that path (its kind and node ID), if anything; `kept` is
    /// whether the project's filter keeps that node. The last two are only
    /// looked at when the path is under the project's root. The buffer is
    /// watched, as the buffer of the file node, exactly when it still
    /// exists, its path is under the root, a node is there, the filter keeps
    /// it, and it is a file; the result says whether it was.
    pub fn on_buffer_created(
        &mut self,
        buffer_id: u64,
        path: Option<&str>,
        node: Option<(NodeKind, u64)>,
        kept: bool,
    ) -> (r: bool)
        requires
            !old(self)@.buffers.contains(buffer_id),
        ensures
            r == match path {
                None => false,
                Some(p) => starts_with(p@, old(self)@.root_path) && kept
                    && (node matches Some((kind, _)) && kind == NodeKind::File),
            },
            r ==> (node matches Some((_, id)) && final(self)@ == (WatchView {
                buffers: old(self)@.buffers.insert(buffer_id),
                buffer_of_file: old(self)@.buffer_of_file.insert(id, buffer_id),
                ..old(self)@
            })),
            !r ==> final(self)@ == old(self)@,
    {
        let p = match path {
            None => return false,
            Some(p) => p,
        };
        if !self.buffer_in_project(p) {
            return false;
        }
        match node {
            Some((NodeKind::File, id)) => {
                if !kept {
                    return false;
                }
                self.watch_buffer(buffer_id, id);
                true
            },
            _ => false,
        }
    }
}

/// The filter used while reading a project from disk when only one node is
/// wanted: it filters out every node but the one with the given ID.
#[derive(Debug, Clone, Copy, PartialEq, Eq, Structural)]
pub struct AllButOne {
    pub id: u64,
}

impl AllButOne {
    /// Whether the node with the given ID is filtered out.
    pub fn should_filter(&self, node_id: u64) -> (r: bool)
        ensures
            r == (node_id != self.id),
    {
        node_id != self.id
    }
}
}
