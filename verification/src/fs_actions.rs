//! The file system actions that bring the disk in line with a remote change
//! to the project's tree, including the renames that settle a name clash.
use vstd::prelude::*;

use crate::paths::{concat, concat_exec, join, join_exec, node_name, node_name_exec, parent, parent_exec, starts_with, strip_prefix, strip_prefix_exec};

verus! {

/// What a file that is about to be created holds.
#[derive(Debug)]
pub enum FileContents {
    /// Raw bytes.
    Binary(Vec<u8>),
    /// Text.
    Text(String),
    /// A symbolic link to the given path.
    Symlink(String),
}

/// The abstract value of [`FileContents`].
pub enum ContentsView {
    Binary(Seq<u8>),
    Text(Seq<char>),
    Symlink(Seq<char>),
}

impl View for FileContents {
    type V = ContentsView;

    open spec fn view(&self) -> ContentsView {
        match self {
            FileContents::Binary(b) => ContentsView::Binary(b@),
            FileContents::Text(t) => ContentsView::Text(t@),
            FileContents::Symlink(t) => ContentsView::Symlink(t@),
        }
    }
}

impl FileContents {
    /// A copy of the contents.
    pub fn duplicate(&self) -> (r: FileContents)
        ensures
            r@ == self@,
    {
        match self {
            FileContents::Binary(b) => {
                let c = b.clone();
                assert(c@ == b@);
                FileContents::Binary(c)
            },
            FileContents::Text(t) => FileContents::Text(t.clone()),
            FileContents::Symlink(t) => FileContents::Symlink(t.clone()),
        }
    }
}

/// A file system action, on absolute paths.
#[derive(Debug)]
pub enum ResolvedFsAction {
    /// Create a directory at the given path.
    CreateDirectory(String),
    /// Create a file at the given path with the given contents.
    CreateFile(String, FileContents),
    /// Delete the node at the given path.
    DeleteNode(String),
    /// Move a node from the first path to the second path.
    MoveNode(String, String),
}

/// The abstract value of a [`ResolvedFsAction`].
pub enum ActionView {
    CreateDirectory(Seq<char>),
    CreateFile(Seq<char>, ContentsView),
    DeleteNode(Seq<char>),
    MoveNode(Seq<char>, Seq<char>),
}

impl View for ResolvedFsAction {
    type V = ActionView;

    open spec fn view(&self) -> ActionView {
        match self {
            ResolvedFsAction::CreateDirectory(p) => ActionView::CreateDirectory(p@),
            ResolvedFsAction::CreateFile(p, c) => ActionView::CreateFile(p@, c@),
            ResolvedFsAction::DeleteNode(p) => ActionView::DeleteNode(p@),
            ResolvedFsAction::MoveNode(a, b) => ActionView::MoveNode(a@, b@),
        }
    }
}

/// The abstract value of a list of actions.
pub open spec fn actions_view(actions: Seq<ResolvedFsAction>) -> Seq<ActionView> {
    actions.map_values(|a: ResolvedFsAction| a@)
}

/// A node of the project that a remote peer created, with everything under
/// it, each at its absolute path.
#[derive(Debug)]
pub enum ProjectNode {
    /// A directory and its children.
    Directory(String, Vec<ProjectNode>),
    /// A file and its contents.
    File(String, FileContents),
}

/// The actions that create `node` and everything under it: each directory
/// before its children, the children in order.
pub open spec fn creation_actions(node: ProjectNode) -> Seq<ActionView>
    decreases node,
{
    match node {
        ProjectNode::Directory(p, children) => seq![ActionView::CreateDirectory(p@)] + children_creation_actions(children@),
        ProjectNode::File(p, c) => seq![ActionView::CreateFile(p@, c@)],
    }
}

/// The actions that create each of `nodes`, one after the other.
pub open spec fn children_creation_actions(nodes: Seq<ProjectNode>) -> Seq<ActionView>
    decreases nodes,
{
    if nodes.len() == 0 {
        Seq::empty()
    } else {
        children_creation_actions(nodes.drop_last()) + creation_actions(nodes.last())
    }
}

/// The number of nodes of the tree rooted at `node`, itself included.
pub open spec fn tree_size(node: ProjectNode) -> nat
    decreases node,
{
    match node {
        ProjectNode::Directory(_, children) => 1 + forest_size(children@),
        ProjectNode::File(_, _) => 1,
    }
}

/// The number of nodes of the trees rooted at `nodes`.
pub open spec fn forest_size(nodes: Seq<ProjectNode>) -> nat
    decreases nodes,
{
    if nodes.len() == 0 {
        0
    } else {
        forest_size(nodes.drop_last()) + tree_size(nodes.last())
    }
}

/// Creating a node creates every node of its tree, each with one action:
/// there are as many creation actions as nodes, empty directories included.
pub proof fn lemma_creation_creates_every_node(node: ProjectNode)
    ensures
        creation_actions(node).len() == tree_size(node),
    decreases node,
{
    match node {
        ProjectNode::Directory(_, children) => {
            lemma_children_creation_count(children@);
        },
        ProjectNode::File(_, _) => {},
    }
}

/// Creating nodes creates every node of their trees, each with one action.
pub proof fn lemma_children_creation_count(nodes: Seq<ProjectNode>)
    ensures
        children_creation_actions(nodes).len() == forest_size(nodes),
    decreases nodes,
{
    if nodes.len() > 0 {
        lemma_children_creation_count(nodes.drop_last());
        lemma_creation_creates_every_node(nodes.last());
    }
}

/// A directory is always created, before anything under it and whatever
/// its children, even when it has none: its creation starts with creating
/// the directory at its own path, followed by one action per node under it.
pub proof fn lemma_directory_created_first(path: String, children: Vec<ProjectNode>)
    ensures
        creation_actions(ProjectNode::Directory(path, children)).len() == 1 + forest_size(children@),
        creation_actions(ProjectNode::Directory(path, children))[0] == ActionView::CreateDirectory(path@),
{
    lemma_creation_creates_every_node(ProjectNode::Directory(path, children));
}

/// Whether the tree rooted at `node` holds a directory at path `p`.
pub open spec fn tree_has_dir(node: ProjectNode, p: Seq<char>) -> bool
    decreases node,
{
    match node {
        ProjectNode::Directory(q, children) => q@ == p || forest_has_dir(children@, p),
        ProjectNode::File(_, _) => false,
    }
}

/// Whether one of the trees rooted at `nodes` holds a directory at `p`.
pub open spec fn forest_has_dir(nodes: Seq<ProjectNode>, p: Seq<char>) -> bool
    decreases nodes,
{
    nodes.len() > 0 && (forest_has_dir(nodes.drop_last(), p) || tree_has_dir(nodes.last(), p))
}

/// Whether the tree rooted at `node` holds a file at path `p` with the
/// contents `c`.
pub open spec fn tree_has_file(node: ProjectNode, p: Seq<char>, c: ContentsView) -> bool
    decreases node,
{
    match node {
        ProjectNode::Directory(_, children) => forest_has_file(children@, p, c),
        ProjectNode::File(q, d) => q@ == p && d@ == c,
    }
}

/// Whether one of the trees rooted at `nodes` holds a file at `p` with the
/// contents `c`.
pub open spec fn forest_has_file(nodes: Seq<ProjectNode>, p: Seq<char>, c: ContentsView) -> bool
    decreases nodes,
{
    nodes.len() > 0 && (forest_has_file(nodes.drop_last(), p, c) || tree_has_file(nodes.last(), p, c))
}

/// Creating a node creates every directory and every file of its tree: a
/// directory anywhere in it, empty or not, is created at its path, and a
/// file anywhere in it is created at its path with its contents.
pub proof fn lemma_creation_covers_tree(node: ProjectNode, p: Seq<char>, c: ContentsView)
    ensures
        tree_has_dir(node, p) ==> creation_actions(node).contains(ActionView::CreateDirectory(p)),
        tree_has_file(node, p, c) ==> creation_actions(node).contains(ActionView::CreateFile(p, c)),
    decreases node,
{
    let a = creation_actions(node);
    match node {
        ProjectNode::Directory(q, children) => {
            lemma_children_creation_covers(children@, p, c);
            let rest = children_creation_actions(children@);
            assert(a == seq![ActionView::CreateDirectory(q@)] + rest);
            if q@ == p {
                assert(a[0] == ActionView::CreateDirectory(p));
            }
            if rest.contains(ActionView::CreateDirectory(p)) {
                let k = choose|k: int| 0 <= k < rest.len() && rest[k] == ActionView::CreateDirectory(p);
                assert(a[k + 1] == rest[k]);
            }
            if rest.contains(ActionView::CreateFile(p, c)) {
                let k = choose|k: int| 0 <= k < rest.len() && rest[k] == ActionView::CreateFile(p, c);
                assert(a[k + 1] == rest[k]);
            }
        },
        ProjectNode::File(q, d) => {
            if tree_has_file(node, p, c) {
                assert(a[0] == ActionView::CreateFile(p, c));
            }
        },
    }
}

/// Creating nodes creates every directory and every file of their trees.
pub proof fn lemma_children_creation_covers(nodes: Seq<ProjectNode>, p: Seq<char>, c: ContentsView)
    ensures
        forest_has_dir(nodes, p) ==> children_creation_actions(nodes).contains(ActionView::CreateDirectory(p)),
        forest_has_file(nodes, p, c) ==> children_creation_actions(nodes).contains(ActionView::CreateFile(p, c)),
    decreases nodes,
{
    if nodes.len() > 0 {
        lemma_children_creation_covers(nodes.drop_last(), p, c);
        lemma_creation_covers_tree(nodes.last(), p, c);
        let front = children_creation_actions(nodes.drop_last());
        let back = creation_actions(nodes.last());
        let a = children_creation_actions(nodes);
        assert(a == front + back);
        assert forall|x: ActionView| front.contains(x) || back.contains(x) implies a.contains(x) by {
            if front.contains(x) {
                let k = choose|k: int| 0 <= k < front.len() && front[k] == x;
                assert(a[k] == x);
            } else {
                let k = choose|k: int| 0 <= k < back.len() && back[k] == x;
                assert(a[front.len() + k] == x);
            }
        }
    }
}

/// Creating a node under a new place creates every node of its tree, each
/// with one action, and a directory first of all at its new path.
pub proof fn lemma_rebased_creation_creates_every_node(node: ProjectNode, from: Seq<char>, to: Seq<char>)
    ensures
        rebased_creation_actions(node, from, to).len() == tree_size(node),
        node matches ProjectNode::Directory(p, _) ==>
            rebased_creation_actions(node, from, to)[0] == ActionView::CreateDirectory(rebase(p@, from, to)),
    decreases node,
{
    match node {
        ProjectNode::Directory(_, children) => {
            lemma_rebased_children_count(children@, from, to);
        },
        ProjectNode::File(_, _) => {},
    }
}

/// Creating nodes under a new place creates every node of their trees.
pub proof fn lemma_rebased_children_count(nodes: Seq<ProjectNode>, from: Seq<char>, to: Seq<char>)
    ensures
        rebased_children_actions(nodes, from, to).len() == forest_size(nodes),
    decreases nodes,
{
    if nodes.len() > 0 {
        lemma_rebased_children_count(nodes.drop_last(), from, to);
        lemma_rebased_creation_creates_every_node(nodes.last(), from, to);
    }
}

/// Appends the actions that create each of `children` and everything under
/// them.
fn push_children_creation(children: &Vec<ProjectNode>, actions: &mut Vec<ResolvedFsAction>)
    ensures
        actions_view(final(actions)@) == actions_view(old(actions)@) + children_creation_actions(children@),
    decreases children, 0nat,
{
    let ghost head = actions_view(actions@);
    let mut i: usize = 0;
    while i < children.len()
        invariant
            i <= children@.len(),
            actions_view(actions@) == head + children_creation_actions(children@.take(i as int)),
        decreases children@.len() - i,
    {
        proof {
            assert(children@.take(i as int + 1).drop_last() == children@.take(i as int));
            assert(children@.take(i as int + 1).last() == children@[i as int]);
            assert(decreases_to!(*children => children@));
            assert(decreases_to!(children@ => children@[i as int]));
        }
        push_node_creation(&children[i], actions);
        i += 1;
    }
    proof {
        assert(children@.take(children@.len() as int) == children@);
    }
}

/// Appends the actions that create `node` and everything under it.
pub fn push_node_creation(node: &ProjectNode, actions: &mut Vec<ResolvedFsAction>)
    ensures
        actions_view(final(actions)@) == actions_view(old(actions)@) + creation_actions(*node),
    decreases node, 1nat,
{
    match node {
        ProjectNode::Directory(p, children) => {
            let ghost start = actions_view(actions@);
            actions.push(ResolvedFsAction::CreateDirectory(p.clone()));
            proof {
                assert(actions_view(actions@) == start + seq![ActionView::CreateDirectory(p@)]);
                assert(node->Directory_1 == *children);
                assert(decreases_to!(*node => node->Directory_1));
            }
            push_children_creation(children, actions);
        },
        ProjectNode::File(p, c) => {
            let ghost start = actions_view(actions@);
            actions.push(ResolvedFsAction::CreateFile(p.clone(), c.duplicate()));
            proof {
                assert(actions_view(actions@) == start + seq![ActionView::CreateFile(p@, c@)]);
            }
        },
    }
}


/// `path` with its last component replaced by `name` (a path without a
/// parent gets `name` appended).
pub open spec fn retarget(path: Seq<char>, name: Seq<char>) -> Seq<char> {
    match parent(path) {
        Some(q) => join(q, name),
        None => join(path, name),
    }
}

/// `path` with its last component replaced by `name`.
pub fn retarget_exec(path: &str, name: &str) -> (r: String)
    ensures
        r@ == retarget(path@, name@),
{
    match parent_exec(path) {
        Some(q) => join_exec(q.as_str(), name),
        None => join_exec(path, name),
    }
}

/// The new names that settled a name clash: the conflicting node's, then
/// the existing node's.
#[derive(Debug)]
pub struct Renames {
    pub conflicting: String,
    pub existing: String,
}

/// A change to the project's tree that a remote message caused, to be
/// mirrored on disk. Paths are absolute; a move or a rename gives the old
/// path, then the new one.
#[derive(Debug)]
pub enum SyncAction {
    /// A node was created.
    Create(ProjectNode),
    /// The node at the path was deleted.
    Delete(String),
    /// A node was moved.
    Move(String, String),
    /// A node was renamed.
    Rename(String, String),
    /// A node was created with the name of an existing one; both got new
    /// names.
    CreateAndResolve(ProjectNode, Renames),
    /// A node was moved onto the name of an existing one; both got new names.
    MoveAndResolve(String, String, Renames),
    /// A node was renamed to the name of an existing one; both got new names.
    RenameAndResolve(String, String, Renames),
}

/// The path of `node`.
pub open spec fn node_path(node: ProjectNode) -> Seq<char> {
    match node {
        ProjectNode::Directory(p, _) => p@,
        ProjectNode::File(p, _) => p@,
    }
}

/// `p` moved from under the directory `from` to under `to`; a path not
/// under `from` stays as it is.
pub open spec fn rebase(p: Seq<char>, from: Seq<char>, to: Seq<char>) -> Seq<char> {
    match strip_prefix(p, from) {
        Some(rel) => concat(to, rel),
        None => p,
    }
}

/// The actions that create `node` and everything under it, every path
/// moved from under `from` to under `to`.
pub open spec fn rebased_creation_actions(node: ProjectNode, from: Seq<char>, to: Seq<char>) -> Seq<ActionView>
    decreases node,
{
    match node {
        ProjectNode::Directory(p, children) =>
            seq![ActionView::CreateDirectory(rebase(p@, from, to))] + rebased_children_actions(children@, from, to),
        ProjectNode::File(p, c) => seq![ActionView::CreateFile(rebase(p@, from, to), c@)],
    }
}

/// The actions that create each of `nodes`, one after the other, every path
/// moved from under `from` to under `to`.
pub open spec fn rebased_children_actions(nodes: Seq<ProjectNode>, from: Seq<char>, to: Seq<char>) -> Seq<ActionView>
    decreases nodes,
{
    if nodes.len() == 0 {
        Seq::empty()
    } else {
        rebased_children_actions(nodes.drop_last(), from, to) + rebased_creation_actions(nodes.last(), from, to)
    }
}

/// The actions that create `node` and everything under it, the node itself
/// being created under the name `name` in its directory, and everything
/// under it moving along.
pub open spec fn renamed_creation_actions(node: ProjectNode, name: Seq<char>) -> Seq<ActionView> {
    rebased_creation_actions(node, node_path(node), retarget(node_path(node), name))
}

/// `p` moved from under the directory `from` to under `to`.
fn rebase_exec(p: &str, from: &str, to: &str) -> (r: String)
    ensures
        r@ == rebase(p@, from@, to@),
{
    match strip_prefix_exec(p, from) {
        Some(rel) => concat_exec(to, rel.as_str()),
        None => String::from_str(p),
    }
}

/// Appends the actions that create each of `children` and everything under
/// them, every path moved from under `from` to under `to`.
fn push_children_creation_rebased(children: &Vec<ProjectNode>, from: &str, to: &str, actions: &mut Vec<ResolvedFsAction>)
    ensures
        actions_view(final(actions)@) == actions_view(old(actions)@) + rebased_children_actions(children@, from@, to@),
    decreases children, 0nat,
{
    let ghost head = actions_view(actions@);
    let mut i: usize = 0;
    while i < children.len()
        invariant
            i <= children@.len(),
            actions_view(actions@) == head + rebased_children_actions(children@.take(i as int), from@, to@),
        decreases children@.len() - i,
    {
        proof {
            assert(children@.take(i as int + 1).drop_last() == children@.take(i as int));
            assert(children@.take(i as int + 1).last() == children@[i as int]);
            assert(decreases_to!(*children => children@));
            assert(decreases_to!(children@ => children@[i as int]));
        }
        push_node_creation_rebased(&children[i], from, to, actions);
        i += 1;
    }
    proof {
        assert(children@.take(children@.len() as int) == children@);
    }
}

/// Appends the actions that create `node` and everything under it, every
/// path moved from under `from` to under `to`.
fn push_node_creation_rebased(node: &ProjectNode, from: &str, to: &str, actions: &mut Vec<ResolvedFsAction>)
    ensures
        actions_view(final(actions)@) == actions_view(old(actions)@) + rebased_creation_actions(*node, from@, to@),
    decreases node, 1nat,
{
    match node {
        ProjectNode::Directory(p, children) => {
            let ghost start = actions_view(actions@);
            let np = rebase_exec(p.as_str(), from, to);
            let ghost npv = np@;
            actions.push(ResolvedFsAction::CreateDirectory(np));
            proof {
                assert(actions_view(actions@) == start + seq![ActionView::CreateDirectory(npv)]);
                assert(node->Directory_1 == *children);
                assert(decreases_to!(*node => node->Directory_1));
            }
            push_children_creation_rebased(children, from, to, actions);
        },
        ProjectNode::File(p, c) => {
            let ghost start = actions_view(actions@);
            let np = rebase_exec(p.as_str(), from, to);
            let ghost npv = np@;
            actions.push(ResolvedFsAction::CreateFile(np, c.duplicate()));
            proof {
                assert(actions_view(actions@) == start + seq![ActionView::CreateFile(npv, c@)]);
            }
        },
    }
}

/// The two moves that settle a clash caused by moving (or renaming) the node
/// at `conflicting_from` onto `existing_from`: the existing node takes the
/// name `existing`, and the moved one takes the name `conflicting`, both in
/// the directory of `existing_from`.
pub open spec fn clash_moves(
    existing_from: Seq<char>,
    conflicting_from: Seq<char>,
    conflicting: Seq<char>,
    existing: Seq<char>,
) -> Seq<ActionView> {
    seq![
        ActionView::MoveNode(existing_from, retarget(existing_from, existing)),
        ActionView::MoveNode(conflicting_from, retarget(existing_from, conflicting)),
    ]
}

/// The actions that mirror `action` on disk.
pub open spec fn resolved_actions(action: SyncAction) -> Seq<ActionView> {
    match action {
        SyncAction::Create(node) => creation_actions(node),
        SyncAction::Delete(p) => seq![ActionView::DeleteNode(p@)],
        SyncAction::Move(from, to) => seq![ActionView::MoveNode(from@, to@)],
        SyncAction::Rename(from, to) => seq![ActionView::MoveNode(from@, to@)],
        SyncAction::CreateAndResolve(node, r) =>
            seq![ActionView::MoveNode(node_path(node), retarget(node_path(node), r.existing@))]
                + renamed_creation_actions(node, r.conflicting@),
        SyncAction::MoveAndResolve(from, to, r) => clash_moves(to@, from@, r.conflicting@, r.existing@),
        SyncAction::RenameAndResolve(from, to, r) => clash_moves(to@, from@, r.conflicting@, r.existing@),
    }
}

/// The new names that settled a clash, if `action` had one.
pub open spec fn action_renames(action: SyncAction) -> Option<(Seq<char>, Seq<char>)> {
    match action {
        SyncAction::CreateAndResolve(_, r) => Some((r.conflicting@, r.existing@)),
        SyncAction::MoveAndResolve(_, _, r) => Some((r.conflicting@, r.existing@)),
        SyncAction::RenameAndResolve(_, _, r) => Some((r.conflicting@, r.existing@)),
        _ => None,
    }
}

/// Appends the moves that settle a clash (see [`clash_moves`]).
fn push_clash_moves(
    existing_from: String,
    conflicting_from: String,
    renames: &Renames,
    actions: &mut Vec<ResolvedFsAction>,
)
    ensures
        actions_view(final(actions)@) == actions_view(old(actions)@)
            + clash_moves(existing_from@, conflicting_from@, renames.conflicting@, renames.existing@),
{
    let ghost start = actions_view(actions@);
    let existing_to = retarget_exec(existing_from.as_str(), renames.existing.as_str());
    let conflicting_to = retarget_exec(existing_from.as_str(), renames.conflicting.as_str());
    let ghost ef = existing_from@;
    let ghost cf = conflicting_from@;
    let ghost et = existing_to@;
    let ghost ct = conflicting_to@;
    actions.push(ResolvedFsAction::MoveNode(existing_from, existing_to));
    actions.push(ResolvedFsAction::MoveNode(conflicting_from, conflicting_to));
    proof {
        assert(actions_view(actions@) == start + seq![ActionView::MoveNode(ef, et), ActionView::MoveNode(cf, ct)]);
    }
}

/// Appends the actions that mirror `action` on disk, and gives back the new
/// names that settled a clash, if it had one.
pub fn push_resolved_actions(action: SyncAction, actions: &mut Vec<ResolvedFsAction>) -> (r: Option<Renames>)
    ensures
        actions_view(final(actions)@) == actions_view(old(actions)@) + resolved_actions(action),
        match r {
            Some(rn) => action_renames(action) == Some((rn.conflicting@, rn.existing@)),
            None => action_renames(action) is None,
        },
{
    let ghost start = actions_view(actions@);
    match action {
        SyncAction::Create(node) => {
            push_node_creation(&node, actions);
            None
        },
        SyncAction::Delete(p) => {
            let ghost pv = p@;
            actions.push(ResolvedFsAction::DeleteNode(p));
            proof { assert(actions_view(actions@) == start + seq![ActionView::DeleteNode(pv)]); }
            None
        },
        SyncAction::Move(from, to) => {
            let ghost (f, t) = (from@, to@);
            actions.push(ResolvedFsAction::MoveNode(from, to));
            proof { assert(actions_view(actions@) == start + seq![ActionView::MoveNode(f, t)]); }
            None
        },
        SyncAction::Rename(from, to) => {
            let ghost (f, t) = (from@, to@);
            actions.push(ResolvedFsAction::MoveNode(from, to));
            proof { assert(actions_view(actions@) == start + seq![ActionView::MoveNode(f, t)]); }
            None
        },
        SyncAction::CreateAndResolve(node, renames) => {
            let path = match &node {
                ProjectNode::Directory(p, _) => p.clone(),
                ProjectNode::File(p, _) => p.clone(),
            };
            let dest = retarget_exec(path.as_str(), renames.existing.as_str());
            let ghost (pv, dv) = (path@, dest@);
            actions.push(ResolvedFsAction::MoveNode(path, dest));
            proof { assert(actions_view(actions@) == start + seq![ActionView::MoveNode(pv, dv)]); }
            let from = match &node {
                ProjectNode::Directory(p, _) => p.clone(),
                ProjectNode::File(p, _) => p.clone(),
            };
            let to = retarget_exec(from.as_str(), renames.conflicting.as_str());
            push_node_creation_rebased(&node, from.as_str(), to.as_str(), actions);
            Some(renames)
        },
        SyncAction::MoveAndResolve(from, to, renames) => {
            push_clash_moves(to, from, &renames, actions);
            Some(renames)
        },
        SyncAction::RenameAndResolve(from, to, renames) => {
            push_clash_moves(to, from, &renames, actions);
            Some(renames)
        },
    }
}


/// A node of a project received from a peer, named but not yet placed on
/// disk.
#[derive(Debug)]
pub enum NamedNode {
    /// A directory, by name, and its children.
    Directory(String, Vec<NamedNode>),
    /// A file, by name, and its contents.
    File(String, FileContents),
}

/// The actions that write `node` and everything under it into the
/// directory at `parent`: each directory before its children, the children
/// in order, each at its parent's path joined with its name.
pub open spec fn write_actions(parent: Seq<char>, node: NamedNode) -> Seq<ActionView>
    decreases node,
{
    match node {
        NamedNode::Directory(name, children) => seq![ActionView::CreateDirectory(join(parent, name@))]
            + children_write_actions(join(parent, name@), children@),
        NamedNode::File(name, c) => seq![ActionView::CreateFile(join(parent, name@), c@)],
    }
}

/// The actions that write each of `nodes` into the directory at `parent`,
/// one after the other.
pub open spec fn children_write_actions(parent: Seq<char>, nodes: Seq<NamedNode>) -> Seq<ActionView>
    decreases nodes,
{
    if nodes.len() == 0 {
        Seq::empty()
    } else {
        children_write_actions(parent, nodes.drop_last()) + write_actions(parent, nodes.last())
    }
}

/// The number of nodes of the received tree rooted at `node`, itself
/// included.
pub open spec fn named_tree_size(node: NamedNode) -> nat
    decreases node,
{
    match node {
        NamedNode::Directory(_, children) => 1 + named_forest_size(children@),
        NamedNode::File(_, _) => 1,
    }
}

/// The number of nodes of the received trees rooted at `nodes`.
pub open spec fn named_forest_size(nodes: Seq<NamedNode>) -> nat
    decreases nodes,
{
    if nodes.len() == 0 {
        0
    } else {
        named_forest_size(nodes.drop_last()) + named_tree_size(nodes.last())
    }
}

/// Writing a received node writes every node of its tree, each with one
/// action, empty directories included; a directory comes first, at its
/// parent's path joined with its name, whatever its children.
pub proof fn lemma_write_writes_every_node(parent: Seq<char>, node: NamedNode)
    ensures
        write_actions(parent, node).len() == named_tree_size(node),
        node matches NamedNode::Directory(name, _) ==>
            write_actions(parent, node)[0] == ActionView::CreateDirectory(join(parent, name@)),
    decreases node,
{
    match node {
        NamedNode::Directory(name, children) => {
            lemma_children_write_count(join(parent, name@), children@);
        },
        NamedNode::File(_, _) => {},
    }
}

/// Writing received nodes writes every node of their trees, each with one
/// action.
pub proof fn lemma_children_write_count(parent: Seq<char>, nodes: Seq<NamedNode>)
    ensures
        children_write_actions(parent, nodes).len() == named_forest_size(nodes),
    decreases nodes,
{
    if nodes.len() > 0 {
        lemma_children_write_count(parent, nodes.drop_last());
        lemma_write_writes_every_node(parent, nodes.last());
    }
}

/// Whether the received tree rooted at `node`, placed in the directory at
/// `parent`, holds a directory at path `p`.
pub open spec fn named_has_dir(parent: Seq<char>, node: NamedNode, p: Seq<char>) -> bool
    decreases node,
{
    match node {
        NamedNode::Directory(name, children) => join(parent, name@) == p || named_forest_has_dir(join(parent, name@), children@, p),
        NamedNode::File(_, _) => false,
    }
}

/// Whether one of the received trees rooted at `nodes`, placed in the
/// directory at `parent`, holds a directory at `p`.
pub open spec fn named_forest_has_dir(parent: Seq<char>, nodes: Seq<NamedNode>, p: Seq<char>) -> bool
    decreases nodes,
{
    nodes.len() > 0 && (named_forest_has_dir(parent, nodes.drop_last(), p) || named_has_dir(parent, nodes.last(), p))
}

/// Whether the received tree rooted at `node`, placed in the directory at
/// `parent`, holds a file at path `p` with the contents `c`.
pub open spec fn named_has_file(parent: Seq<char>, node: NamedNode, p: Seq<char>, c: ContentsView) -> bool
    decreases node,
{
    match node {
        NamedNode::Directory(name, children) => named_forest_has_file(join(parent, name@), children@, p, c),
        NamedNode::File(name, d) => join(parent, name@) == p && d@ == c,
    }
}

/// Whether one of the received trees rooted at `nodes`, placed in the
/// directory at `parent`, holds a file at `p` with the contents `c`.
pub open spec fn named_forest_has_file(parent: Seq<char>, nodes: Seq<NamedNode>, p: Seq<char>, c: ContentsView) -> bool
    decreases nodes,
{
    nodes.len() > 0 && (named_forest_has_file(parent, nodes.drop_last(), p, c) || named_has_file(parent, nodes.last(), p, c))
}

/// Writing a received node writes every directory and every file of its
/// tree: a directory anywhere in it, empty or not, is created at its path,
/// and a file anywhere in it is created at its path with its contents.
pub proof fn lemma_write_covers_tree(parent: Seq<char>, node: NamedNode, p: Seq<char>, c: ContentsView)
    ensures
        named_has_dir(parent, node, p) ==> write_actions(parent, node).contains(ActionView::CreateDirectory(p)),
        named_has_file(parent, node, p, c) ==> write_actions(parent, node).contains(ActionView::CreateFile(p, c)),
    decreases node,
{
    let a = write_actions(parent, node);
    match node {
        NamedNode::Directory(name, children) => {
            let here = join(parent, name@);
            lemma_children_write_covers(here, children@, p, c);
            let rest = children_write_actions(here, children@);
            assert(a == seq![ActionView::CreateDirectory(here)] + rest);
            if here == p {
                assert(a[0] == ActionView::CreateDirectory(p));
            }
            if rest.contains(ActionView::CreateDirectory(p)) {
                let k = choose|k: int| 0 <= k < rest.len() && rest[k] == ActionView::CreateDirectory(p);
                assert(a[k + 1] == rest[k]);
            }
            if rest.contains(ActionView::CreateFile(p, c)) {
                let k = choose|k: int| 0 <= k < rest.len() && rest[k] == ActionView::CreateFile(p, c);
                assert(a[k + 1] == rest[k]);
            }
        },
        NamedNode::File(_, _) => {
            if named_has_file(parent, node, p, c) {
                assert(a[0] == ActionView::CreateFile(p, c));
            }
        },
    }
}

/// Writing received nodes writes every directory and every file of their
/// trees; with `parent` the project's root, this is the whole write plan
/// of a joined project.
pub proof fn lemma_children_write_covers(parent: Seq<char>, nodes: Seq<NamedNode>, p: Seq<char>, c: ContentsView)
    ensures
        named_forest_has_dir(parent, nodes, p) ==> children_write_actions(parent, nodes).contains(ActionView::CreateDirectory(p)),
        named_forest_has_file(parent, nodes, p, c) ==> children_write_actions(parent, nodes).contains(ActionView::CreateFile(p, c)),
    decreases nodes,
{
    if nodes.len() > 0 {
        lemma_children_write_covers(parent, nodes.drop_last(), p, c);
        lemma_write_covers_tree(parent, nodes.last(), p, c);
        let front = children_write_actions(parent, nodes.drop_last());
        let back = write_actions(parent, nodes.last());
        let a = children_write_actions(parent, nodes);
        assert(a == front + back);
        assert forall|x: ActionView| front.contains(x) || back.contains(x) implies a.contains(x) by {
            if front.contains(x) {
                let k = choose|k: int| 0 <= k < front.len() && front[k] == x;
                assert(a[k] == x);
            } else {
                let k = choose|k: int| 0 <= k < back.len() && back[k] == x;
                assert(a[front.len() + k] == x);
            }
        }
    }
}

/// The nodes before position `i`, and the one there, are no more than all
/// of `nodes`.
proof fn lemma_named_prefix_size(nodes: Seq<NamedNode>, i: int)
    requires
        0 <= i < nodes.len(),
    ensures
        named_forest_size(nodes.take(i)) + named_tree_size(nodes[i]) <= named_forest_size(nodes),
    decreases nodes.len(),
{
    if i < nodes.len() - 1 {
        let front = nodes.drop_last();
        lemma_named_prefix_size(front, i);
        assert(front.take(i) == nodes.take(i));
        assert(front[i] == nodes[i]);
    } else {
        assert(nodes.take(i) == nodes.drop_last());
    }
}

/// The plan for writing a received project holds one action per node of
/// the project, and each top-level directory is created at the root joined
/// with its name, right where its turn comes: after the nodes written
/// before it.
pub proof fn lemma_write_plan_writes_every_node(root: Seq<char>, children: Seq<NamedNode>, i: int)
    requires
        0 <= i < children.len(),
    ensures
        children_write_actions(root, children).len() == named_forest_size(children),
        children[i] matches NamedNode::Directory(name, _) ==>
            children_write_actions(root, children)[named_forest_size(children.take(i)) as int]
                == ActionView::CreateDirectory(join(root, name@)),
    decreases children.len(),
{
    lemma_children_write_count(root, children);
    if i < children.len() - 1 {
        let front = children.drop_last();
        lemma_write_plan_writes_every_node(root, front, i);
        assert(front.take(i) == children.take(i));
        assert(front[i] == children[i]);
        lemma_named_prefix_size(front, i);
        lemma_children_write_count(root, front);
        assert(children_write_actions(root, children)
            == children_write_actions(root, front) + write_actions(root, children.last()));
    } else {
        assert(children.take(i) == children.drop_last());
        lemma_children_write_count(root, children.drop_last());
        lemma_write_writes_every_node(root, children.last());
    }
}

/// Appends the actions that write each of `children` into the directory at
/// `parent`.
pub fn push_children_writes(parent: &str, children: &Vec<NamedNode>, actions: &mut Vec<ResolvedFsAction>)
    ensures
        actions_view(final(actions)@) == actions_view(old(actions)@) + children_write_actions(parent@, children@),
    decreases children, 0nat,
{
    let ghost head = actions_view(actions@);
    let mut i: usize = 0;
    while i < children.len()
        invariant
            i <= children@.len(),
            actions_view(actions@) == head + children_write_actions(parent@, children@.take(i as int)),
        decreases children@.len() - i,
    {
        proof {
            assert(children@.take(i as int + 1).drop_last() == children@.take(i as int));
            assert(children@.take(i as int + 1).last() == children@[i as int]);
            assert(decreases_to!(*children => children@));
            assert(decreases_to!(children@ => children@[i as int]));
        }
        push_node_write(parent, &children[i], actions);
        i += 1;
    }
    proof {
        assert(children@.take(children@.len() as int) == children@);
    }
}

/// Appends the actions that write `node` and everything under it into the
/// directory at `parent`.
pub fn push_node_write(parent: &str, node: &NamedNode, actions: &mut Vec<ResolvedFsAction>)
    ensures
        actions_view(final(actions)@) == actions_view(old(actions)@) + write_actions(parent@, *node),
    decreases node, 1nat,
{
    let ghost start = actions_view(actions@);
    match node {
        NamedNode::Directory(name, children) => {
            let path = join_exec(parent, name.as_str());
            let ghost pv = path@;
            actions.push(ResolvedFsAction::CreateDirectory(path.clone()));
            proof {
                assert(actions_view(actions@) == start + seq![ActionView::CreateDirectory(pv)]);
                assert(node->Directory_1 == *children);
                assert(decreases_to!(*node => node->Directory_1));
            }
            push_children_writes(path.as_str(), children, actions);
        },
        NamedNode::File(name, c) => {
            let path = join_exec(parent, name.as_str());
            let ghost pv = path@;
            actions.push(ResolvedFsAction::CreateFile(path, c.duplicate()));
            proof {
                assert(actions_view(actions@) == start + seq![ActionView::CreateFile(pv, c@)]);
            }
        },
    }
}

/// The actions that write a project received from a peer, whose root holds
/// `children`, into the directory at `root`.
pub fn project_write_plan(root: &str, children: &Vec<NamedNode>) -> (r: Vec<ResolvedFsAction>)
    ensures
        actions_view(r@) == children_write_actions(root@, children@),
{
    let mut actions: Vec<ResolvedFsAction> = Vec::new();
    proof {
        assert(actions_view(actions@) =~= Seq::<ActionView>::empty());
    }
    push_children_writes(root, children, &mut actions);
    proof {
        assert(Seq::<ActionView>::empty() + children_write_actions(root@, children@) =~= children_write_actions(root@, children@));
    }
    actions
}


/// The new contents of a binary file that changed on disk, if they differ
/// from what the project holds.
pub fn binary_change(before: &Vec<u8>, after: Vec<u8>) -> (r: Option<Vec<u8>>)
    ensures
        match r {
            Some(c) => c@ == after@ && before@ != after@,
            None => before@ == after@,
        },
{
    if before.len() != after.len() {
        return Some(after);
    }
    let mut i: usize = 0;
    while i < before.len()
        invariant
            before@.len() == after@.len(),
            i <= before@.len(),
            forall|j: int| 0 <= j < i ==> before@[j] == after@[j],
        decreases before@.len() - i,
    {
        if before[i] != after[i] {
            return Some(after);
        }
        i += 1;
    }
    proof {
        assert(before@ =~= after@);
    }
    None
}


/// Where a node created on disk at `node_path` goes in the project rooted
/// at `root`: its name, and the path of its parent inside the project. The
/// node is never the root, and its parent lies under the project's root.
pub fn creation_site(node_path: &str, root: &str) -> (r: (String, String))
    requires
        parent(node_path@) matches Some(p) && starts_with(p, root@),
    ensures
        node_name(node_path@) == Some(r.0@),
        strip_prefix(parent(node_path@)->0, root@) == Some(r.1@),
{
    proof { lemma_parent_has_name(node_path@); }
    let name = match node_name_exec(node_path) {
        Some(n) => n,
        None => String::new(),
    };
    let parent_path = match parent_exec(node_path) {
        Some(p) => p,
        None => String::new(),
    };
    let inside = match strip_prefix_exec(parent_path.as_str(), root) {
        Some(q) => q,
        None => String::new(),
    };
    (name, inside)
}

/// The path, inside the project rooted at `root`, of the new parent of a
/// node moved to `new_path`, which is never the root and whose parent lies
/// under the project's root.
pub fn move_target_parent(new_path: &str, root: &str) -> (r: String)
    requires
        parent(new_path@) matches Some(p) && starts_with(p, root@),
    ensures
        strip_prefix(parent(new_path@)->0, root@) == Some(r@),
{
    let parent_path = match parent_exec(new_path) {
        Some(p) => p,
        None => String::new(),
    };
    match strip_prefix_exec(parent_path.as_str(), root) {
        Some(q) => q,
        None => String::new(),
    }
}

/// A path with a parent has a last node.
proof fn lemma_parent_has_name(p: Seq<char>)
    ensures
        parent(p) is Some ==> node_name(p) is Some,
{
}

/// What a node on disk holds, as read when it changed or appeared.
#[derive(Debug)]
pub enum FsNodeContents {
    /// The node is a directory.
    Directory,
    /// A file whose bytes are valid UTF-8.
    Text(String),
    /// A file whose bytes are not valid UTF-8.
    Binary(Vec<u8>),
    /// A symbolic link to the given path.
    Symlink(String),
}

/// The text that `bytes` encode in UTF-8, if they are valid UTF-8
/// (`String::from_utf8` of `std`).
pub uninterp spec fn spec_utf8(bytes: Seq<u8>) -> Option<Seq<char>>;

/// Decodes `bytes` with `String::from_utf8` of `std`; on failure, gives the
/// bytes back (`FromUtf8Error::into_bytes`, which the documentation says
/// returns the bytes that were converted). The decoded text is named by
/// `spec_utf8`.
#[verifier::external_body]
fn from_utf8(bytes: Vec<u8>) -> (r: Result<String, Vec<u8>>)
    ensures
        match r {
            Ok(s) => spec_utf8(bytes@) == Some(s@),
            Err(b) => spec_utf8(bytes@) is None && b@ == bytes@,
        },
{
    String::from_utf8(bytes).map_err(|e| e.into_bytes())
}

/// What a file on disk holding `bytes` holds: text when they are valid
/// UTF-8, else raw bytes.
pub fn file_node_contents(bytes: Vec<u8>) -> (r: FsNodeContents)
    ensures
        match spec_utf8(bytes@) {
            Some(t) => r matches FsNodeContents::Text(s) && s@ == t,
            None => r matches FsNodeContents::Binary(b) && b@ == bytes@,
        },
{
    match from_utf8(bytes) {
        Ok(s) => FsNodeContents::Text(s),
        Err(b) => FsNodeContents::Binary(b),
    }
}

/// What the project holds of a file that changed on disk.
#[derive(Debug)]
pub enum ProjectFileContents {
    /// A binary file and its bytes.
    Binary(Vec<u8>),
    /// A text file and its text.
    Text(String),
}

/// The new bytes of a binary file that changed on disk, if the project
/// should take them: only when the file is binary both in the project and
/// on disk and its bytes differ. A file that is text on both sides is not
/// compared here.
pub fn binary_file_change(before: &ProjectFileContents, after: FsNodeContents) -> (r: Option<Vec<u8>>)
    requires
        !(before is Text && after is Text),
    ensures
        match (before, after) {
            (ProjectFileContents::Binary(b), FsNodeContents::Binary(a)) => match r {
                Some(c) => c@ == a@ && b@ != a@,
                None => b@ == a@,
            },
            _ => r is None,
        },
{
    match (before, after) {
        (ProjectFileContents::Binary(b), FsNodeContents::Binary(a)) => binary_change(b, a),
        _ => None,
    }
}

/// The ways applying a remote binary edit to the file on disk can fail
/// before writing, given what is at the file's path.
#[derive(Debug)]
pub enum BinaryEditTargetError {
    /// A directory is at the path.
    DirectoryAtPath(String),
    /// Nothing is at the path.
    NoNodeAtPath(String),
    /// A symlink is at the path.
    SymlinkAtPath(String),
}

/// Checks that what is at `path` (its kind, if anything is there) is a file
/// that a remote binary edit can be written to.
pub fn binary_edit_target(path: String, kind: Option<crate::event_filter::NodeKind>) -> (r: Result<(), BinaryEditTargetError>)
    ensures
        match kind {
            None => r matches Err(BinaryEditTargetError::NoNodeAtPath(p)) && p@ == path@,
            Some(crate::event_filter::NodeKind::File) => r is Ok,
            Some(crate::event_filter::NodeKind::Directory) => r matches Err(BinaryEditTargetError::DirectoryAtPath(p))
                && p@ == path@,
            Some(crate::event_filter::NodeKind::Symlink) => r matches Err(BinaryEditTargetError::SymlinkAtPath(p))
                && p@ == path@,
        },
{
    match kind {
        None => Err(BinaryEditTargetError::NoNodeAtPath(path)),
        Some(crate::event_filter::NodeKind::File) => Ok(()),
        Some(crate::event_filter::NodeKind::Directory) => Err(BinaryEditTargetError::DirectoryAtPath(path)),
        Some(crate::event_filter::NodeKind::Symlink) => Err(BinaryEditTargetError::SymlinkAtPath(path)),
    }
}
}
