//! The mappings between the editor's IDs (buffers, cursors, selections, file
//! system nodes) and the project's IDs (files, directories, cursors,
//! selections).
use std::collections::HashMap;
use vstd::prelude::*;

use crate::paths::{concat, concat_exec};

verus! {

/// The abstract value of [`IdMaps`].
pub struct IdMapsView {
    pub buffer2file: Map<u64, u64>,
    pub cursor2cursor: Map<u64, u64>,
    pub file2buffer: Map<u64, u64>,
    pub node2dir: Map<u64, u64>,
    pub node2file: Map<u64, u64>,
    pub selection2selection: Map<u64, u64>,
}

impl IdMapsView {
    /// Buffers and files are linked both ways: a buffer maps to a file if and
    /// only if that file maps back to it.
    pub open spec fn wf(self) -> bool {
        &&& forall|b: u64| #[trigger] self.buffer2file.contains_key(b)
            ==> self.file2buffer.contains_key(self.buffer2file[b]) && self.file2buffer[self.buffer2file[b]] == b
        &&& forall|f: u64| #[trigger] self.file2buffer.contains_key(f)
            ==> self.buffer2file.contains_key(self.file2buffer[f]) && self.buffer2file[self.file2buffer[f]] == f
    }

    /// The maps once `buffer` is linked with `file`.
    pub open spec fn with_link(self, buffer: u64, file: u64) -> IdMapsView {
        IdMapsView {
            buffer2file: self.buffer2file.insert(buffer, file),
            file2buffer: self.file2buffer.insert(file, buffer),
            ..self
        }
    }

    /// The maps once `buffer` is unlinked from its file, if it had one.
    pub open spec fn without_buffer(self, buffer: u64) -> IdMapsView {
        if self.buffer2file.contains_key(buffer) {
            IdMapsView {
                buffer2file: self.buffer2file.remove(buffer),
                file2buffer: self.file2buffer.remove(self.buffer2file[buffer]),
                ..self
            }
        } else {
            self
        }
    }

    /// The maps once the node `node` is deleted: a file node is forgotten
    /// with the buffer its file was linked with, else a directory node is
    /// forgotten.
    pub open spec fn without_node(self, node: u64) -> IdMapsView {
        if self.node2file.contains_key(node) {
            let f = self.node2file[node];
            if self.file2buffer.contains_key(f) {
                IdMapsView {
                    node2file: self.node2file.remove(node),
                    file2buffer: self.file2buffer.remove(f),
                    buffer2file: self.buffer2file.remove(self.file2buffer[f]),
                    ..self
                }
            } else {
                IdMapsView { node2file: self.node2file.remove(node), ..self }
            }
        } else {
            IdMapsView { node2dir: self.node2dir.remove(node), ..self }
        }
    }
}

/// Linking a buffer that has no file with a file that has no buffer keeps
/// buffers and files linked both ways.
pub proof fn lemma_link_keeps_links(m: IdMapsView, buffer: u64, file: u64)
    requires
        m.wf(),
        !m.buffer2file.contains_key(buffer),
        !m.file2buffer.contains_key(file),
    ensures
        m.with_link(buffer, file).wf(),
{
}

/// Unlinking a buffer keeps buffers and files linked both ways.
pub proof fn lemma_unlink_keeps_links(m: IdMapsView, buffer: u64)
    requires
        m.wf(),
    ensures
        m.without_buffer(buffer).wf(),
{
}

/// Forgetting a deleted node keeps buffers and files linked both ways.
pub proof fn lemma_node_deletion_keeps_links(m: IdMapsView, node: u64)
    requires
        m.wf(),
    ensures
        m.without_node(node).wf(),
{
}

/// Unlinking a buffer that was just linked gives back the maps as they were.
pub proof fn lemma_unlink_undoes_link(m: IdMapsView, buffer: u64, file: u64)
    requires
        !m.buffer2file.contains_key(buffer),
        !m.file2buffer.contains_key(file),
    ensures
        m.with_link(buffer, file).without_buffer(buffer) == m,
{
    assert(m.with_link(buffer, file).without_buffer(buffer).buffer2file =~= m.buffer2file);
    assert(m.with_link(buffer, file).without_buffer(buffer).file2buffer =~= m.file2buffer);
}

/// The mappings between the editor's IDs and the project's IDs.
#[derive(Debug)]
pub struct IdMaps {
    buffer2file: HashMap<u64, u64>,
    cursor2cursor: HashMap<u64, u64>,
    file2buffer: HashMap<u64, u64>,
    node2dir: HashMap<u64, u64>,
    node2file: HashMap<u64, u64>,
    selection2selection: HashMap<u64, u64>,
}

impl View for IdMaps {
    type V = IdMapsView;

    closed spec fn view(&self) -> IdMapsView {
        IdMapsView {
            buffer2file: self.buffer2file@,
            cursor2cursor: self.cursor2cursor@,
            file2buffer: self.file2buffer@,
            node2dir: self.node2dir@,
            node2file: self.node2file@,
            selection2selection: self.selection2selection@,
        }
    }
}

impl IdMaps {
    /// No mapping.
    pub fn new() -> (r: IdMaps)
        ensures
            r@.buffer2file.is_empty(),
            r@.cursor2cursor.is_empty(),
            r@.file2buffer.is_empty(),
            r@.node2dir.is_empty(),
            r@.node2file.is_empty(),
            r@.selection2selection.is_empty(),
            r@.wf(),
    {
        IdMaps {
            buffer2file: HashMap::new(),
            cursor2cursor: HashMap::new(),
            file2buffer: HashMap::new(),
            node2dir: HashMap::new(),
            node2file: HashMap::new(),
            selection2selection: HashMap::new(),
        }
    }

    /// Links a buffer that was opened on a text file of the project with
    /// that file.
    pub fn link_buffer(&mut self, buffer_id: u64, file_id: u64)
        ensures
            final(self)@ == old(self)@.with_link(buffer_id, file_id),
    {
        broadcast use vstd::std_specs::hash::group_hash_axioms;
        self.buffer2file.insert(buffer_id, file_id);
        self.file2buffer.insert(file_id, buffer_id);
    }

    /// Unlinks a buffer that was closed from its file, if it had one.
    pub fn unlink_buffer(&mut self, buffer_id: u64)
        ensures
            final(self)@ == old(self)@.without_buffer(buffer_id),
    {
        broadcast use vstd::std_specs::hash::group_hash_axioms;
        let ghost before = self@;
        match self.buffer2file.remove(&buffer_id) {
            Some(file_id) => {
                self.file2buffer.remove(&file_id);
            },
            None => {
                assert(before.buffer2file.remove(buffer_id) =~= before.buffer2file);
            },
        }
    }

    /// The project file the buffer is linked with, if any.
    pub fn file_of_buffer(&self, buffer_id: u64) -> (r: Option<u64>)
        ensures
            r == (if self@.buffer2file.contains_key(buffer_id) { Some(self@.buffer2file[buffer_id]) } else { None }),
    {
        broadcast use vstd::std_specs::hash::group_hash_axioms;
        match self.buffer2file.get(&buffer_id) {
            Some(f) => Some(*f),
            None => None,
        }
    }

    /// The buffer the project file is linked with, if any.
    pub fn buffer_of_file(&self, file_id: u64) -> (r: Option<u64>)
        ensures
            r == (if self@.file2buffer.contains_key(file_id) { Some(self@.file2buffer[file_id]) } else { None }),
    {
        broadcast use vstd::std_specs::hash::group_hash_axioms;
        match self.file2buffer.get(&file_id) {
            Some(b) => Some(*b),
            None => None,
        }
    }

    /// Maps a local cursor that was created to its cursor in the project.
    pub fn track_cursor(&mut self, cursor_id: u64, project_cursor_id: u64)
        ensures
            final(self)@ == (IdMapsView {
                cursor2cursor: old(self)@.cursor2cursor.insert(cursor_id, project_cursor_id),
                ..old(self)@
            }),
    {
        broadcast use vstd::std_specs::hash::group_hash_axioms;
        self.cursor2cursor.insert(cursor_id, project_cursor_id);
    }

    /// Forgets a local cursor that was removed.
    pub fn untrack_cursor(&mut self, cursor_id: u64)
        ensures
            final(self)@ == (IdMapsView {
                cursor2cursor: old(self)@.cursor2cursor.remove(cursor_id),
                ..old(self)@
            }),
    {
        broadcast use vstd::std_specs::hash::group_hash_axioms;
        self.cursor2cursor.remove(&cursor_id);
    }

    /// The project cursor of a local cursor, if it is tracked.
    pub fn project_cursor(&self, cursor_id: u64) -> (r: Option<u64>)
        ensures
            r == (if self@.cursor2cursor.contains_key(cursor_id) { Some(self@.cursor2cursor[cursor_id]) } else { None }),
    {
        broadcast use vstd::std_specs::hash::group_hash_axioms;
        match self.cursor2cursor.get(&cursor_id) {
            Some(c) => Some(*c),
            None => None,
        }
    }

    /// Maps a local selection that was created to its selection in the
    /// project.
    pub fn track_selection(&mut self, selection_id: u64, project_selection_id: u64)
        ensures
            final(self)@ == (IdMapsView {
                selection2selection: old(self)@.selection2selection.insert(selection_id, project_selection_id),
                ..old(self)@
            }),
    {
        broadcast use vstd::std_specs::hash::group_hash_axioms;
        self.selection2selection.insert(selection_id, project_selection_id);
    }

    /// Forgets a local selection that was removed.
    pub fn untrack_selection(&mut self, selection_id: u64)
        ensures
            final(self)@ == (IdMapsView {
                selection2selection: old(self)@.selection2selection.remove(selection_id),
                ..old(self)@
            }),
    {
        broadcast use vstd::std_specs::hash::group_hash_axioms;
        self.selection2selection.remove(&selection_id);
    }

    /// The project selection of a local selection, if it is tracked.
    pub fn project_selection(&self, selection_id: u64) -> (r: Option<u64>)
        ensures
            r == (if self@.selection2selection.contains_key(selection_id) {
                Some(self@.selection2selection[selection_id])
            } else {
                None
            }),
    {
        broadcast use vstd::std_specs::hash::group_hash_axioms;
        match self.selection2selection.get(&selection_id) {
            Some(s) => Some(*s),
            None => None,
        }
    }

    /// Maps a directory node that was created on disk to its directory in
    /// the project.
    pub fn directory_created(&mut self, node_id: u64, dir_id: u64)
        ensures
            final(self)@ == (IdMapsView { node2dir: old(self)@.node2dir.insert(node_id, dir_id), ..old(self)@ }),
    {
        broadcast use vstd::std_specs::hash::group_hash_axioms;
        self.node2dir.insert(node_id, dir_id);
    }

    /// Maps a file node that was created on disk to its file in the project.
    pub fn file_created(&mut self, node_id: u64, file_id: u64)
        ensures
            final(self)@ == (IdMapsView { node2file: old(self)@.node2file.insert(node_id, file_id), ..old(self)@ }),
    {
        broadcast use vstd::std_specs::hash::group_hash_axioms;
        self.node2file.insert(node_id, file_id);
    }

    /// The project file of a file node, if any.
    pub fn file_of_node(&self, node_id: u64) -> (r: Option<u64>)
        ensures
            r == (if self@.node2file.contains_key(node_id) { Some(self@.node2file[node_id]) } else { None }),
    {
        broadcast use vstd::std_specs::hash::group_hash_axioms;
        match self.node2file.get(&node_id) {
            Some(f) => Some(*f),
            None => None,
        }
    }

    /// The project directory of a directory node, if any.
    pub fn dir_of_node(&self, node_id: u64) -> (r: Option<u64>)
        ensures
            r == (if self@.node2dir.contains_key(node_id) { Some(self@.node2dir[node_id]) } else { None }),
    {
        broadcast use vstd::std_specs::hash::group_hash_axioms;
        match self.node2dir.get(&node_id) {
            Some(d) => Some(*d),
            None => None,
        }
    }

    /// Moves the project file of a file node over to the node's new ID; the
    /// old ID must be known.
    pub fn file_id_changed(&mut self, old_id: u64, new_id: u64)
        requires
            old(self)@.node2file.contains_key(old_id),
        ensures
            final(self)@ == (IdMapsView {
                node2file: old(self)@.node2file.remove(old_id).insert(new_id, old(self)@.node2file[old_id]),
                ..old(self)@
            }),
    {
        broadcast use vstd::std_specs::hash::group_hash_axioms;
        match self.node2file.remove(&old_id) {
            Some(file_id) => {
                self.node2file.insert(new_id, file_id);
            },
            None => {},
        }
    }

    /// Forgets a node that was deleted: a file node, with the buffer its
    /// file was linked with, else a directory node.
    pub fn node_deleted(&mut self, node_id: u64)
        ensures
            final(self)@ == old(self)@.without_node(node_id),
    {
        broadcast use vstd::std_specs::hash::group_hash_axioms;
        let ghost before = self@;
        match self.node2file.remove(&node_id) {
            Some(file_id) => {
                match self.file2buffer.remove(&file_id) {
                    Some(buffer_id) => {
                        self.buffer2file.remove(&buffer_id);
                    },
                    None => {
                        assert(before.file2buffer.remove(file_id) =~= before.file2buffer);
                    },
                }
            },
            None => {
                assert(before.node2file.remove(node_id) =~= before.node2file);
                self.node2dir.remove(&node_id);
            },
        }
    }
}


/// The buffer a file of the project is shown or edited in, for a jump to a
/// cursor in it or for a remote edit of it.
#[derive(Debug)]
pub enum FileBuffer {
    /// The buffer with the given ID, already open on the file.
    Open(u64),
    /// A new buffer, to be opened on the file at the given path.
    Create(String),
}

/// The buffer for the project file `file_id`, which is at
/// `file_path_in_project` in the project rooted at `root`: the buffer open
/// on the file, else a new one on the file's path.
pub fn buffer_for_file(maps: &IdMaps, file_id: u64, root: &str, file_path_in_project: &str) -> (r: FileBuffer)
    ensures
        match r {
            FileBuffer::Open(b) => maps@.file2buffer.contains_key(file_id) && b == maps@.file2buffer[file_id],
            FileBuffer::Create(p) => !maps@.file2buffer.contains_key(file_id)
                && p@ == concat(root@, file_path_in_project@),
        },
{
    match maps.buffer_of_file(file_id) {
        Some(b) => FileBuffer::Open(b),
        None => FileBuffer::Create(concat_exec(root, file_path_in_project)),
    }
}


/// The project node a file system node stands for.
#[derive(Debug, Clone, Copy, PartialEq, Eq, Structural)]
pub enum ProjectNodeId {
    /// The project directory with the given ID.
    Directory(u64),
    /// The project file with the given ID.
    File(u64),
}

/// The project node the file system node `node_id` stands for, looked up
/// among the directories first, if it is known.
pub fn project_node_of(maps: &IdMaps, node_id: u64) -> (r: Option<ProjectNodeId>)
    ensures
        r == (if maps@.node2dir.contains_key(node_id) {
            Some(ProjectNodeId::Directory(maps@.node2dir[node_id]))
        } else if maps@.node2file.contains_key(node_id) {
            Some(ProjectNodeId::File(maps@.node2file[node_id]))
        } else {
            None
        }),
{
    match maps.dir_of_node(node_id) {
        Some(d) => Some(ProjectNodeId::Directory(d)),
        None => match maps.file_of_node(node_id) {
            Some(f) => Some(ProjectNodeId::File(f)),
            None => None,
        },
    }
}
}
