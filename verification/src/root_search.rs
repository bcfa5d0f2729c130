//! Finding the root of the project a buffer belongs to: a language server's
//! root if there is one, else the closest ancestor holding a marker (a `.git`
//! directory), else the buffer's own directory.
use vstd::prelude::*;

use crate::paths::{parent, parent_exec};
use crate::text::chars_of;
use crate::paths::chars_eq;

verus! {

/// What is known of a node in a directory listing.
#[derive(Debug, Clone)]
pub struct NodeMetadata {
    /// The node's name, or `None` when it is not valid UTF-8.
    pub name: Option<String>,
    /// Whether the node is a directory.
    pub is_dir: bool,
}

/// The type of error that can occur when reading a node's metadata.
#[derive(Debug, Clone)]
pub enum ReadMetadataError {
    /// The metadata couldn't be read.
    Access(String),
    /// The node's name is not valid UTF-8.
    Name,
}

/// A marker whose presence in a directory makes it a project root.
pub trait RootMarker {
    /// The type of error that can occur when checking a node.
    type Error;

    /// Whether the node with the given metadata is the marker.
    fn matches(&self, metadata: &NodeMetadata) -> Result<bool, Self::Error>;
}

/// The marker of a Git repository: a directory named `.git`.
#[derive(Debug, Clone, Copy, Default)]
pub struct GitDirectory;

/// The characters of `.git`.
pub open spec fn git_dir_name() -> Seq<char> {
    seq!['.', 'g', 'i', 't']
}

impl RootMarker for GitDirectory {
    type Error = ReadMetadataError;

    fn matches(&self, metadata: &NodeMetadata) -> (r: Result<bool, ReadMetadataError>)
        ensures
            match metadata.name {
                None => r matches Err(ReadMetadataError::Name),
                Some(n) => r == Ok::<bool, ReadMetadataError>(n@ == git_dir_name() && metadata.is_dir),
            },
    {
        match &metadata.name {
            None => Err(ReadMetadataError::Name),
            Some(n) => {
                let cs = chars_of(n.as_str());
                let git: Vec<char> = vec!['.', 'g', 'i', 't'];
                proof { assert(git@ == git_dir_name()); }
                Ok(chars_eq(&cs, &git) && metadata.is_dir)
            },
        }
    }
}

/// What checking the entries of a directory for the `.git` marker gives,
/// taking them in order: the first entry that can't be read or named ends
/// the check with its error, the first `.git` directory ends it with `true`,
/// and going through all of them without either gives `false`.
pub open spec fn git_marker_check(entries: Seq<Result<NodeMetadata, String>>) -> Result<bool, ReadMetadataError>
    decreases entries.len(),
{
    if entries.len() == 0 {
        Ok(false)
    } else {
        match entries[0] {
            Err(a) => Err(ReadMetadataError::Access(a)),
            Ok(meta) => match meta.name {
                None => Err(ReadMetadataError::Name),
                Some(n) => if n@ == git_dir_name() && meta.is_dir {
                    Ok(true)
                } else {
                    git_marker_check(entries.skip(1))
                },
            },
        }
    }
}

/// Checks the entries of a directory, as listed, for the `.git` marker (see
/// [`git_marker_check`]).
pub fn contains_git_marker(entries: &Vec<Result<NodeMetadata, String>>) -> (r: Result<bool, ReadMetadataError>)
    ensures
        match git_marker_check(entries@) {
            Ok(b) => r == Ok::<bool, ReadMetadataError>(b),
            Err(ReadMetadataError::Name) => r matches Err(ReadMetadataError::Name),
            Err(ReadMetadataError::Access(a)) => r matches Err(ReadMetadataError::Access(b)) && b@ == a@,
        },
{
    let mut i: usize = 0;
    proof { assert(entries@.skip(0) == entries@); }
    while i < entries.len()
        invariant
            i <= entries@.len(),
            git_marker_check(entries@) == git_marker_check(entries@.skip(i as int)),
        decreases entries@.len() - i,
    {
        proof {
            assert(entries@.skip(i as int)[0] == entries@[i as int]);
            assert(entries@.skip(i as int).skip(1) == entries@.skip(i as int + 1));
        }
        match &entries[i] {
            Err(a) => return Err(ReadMetadataError::Access(a.clone())),
            Ok(meta) => {
                match GitDirectory.matches(meta) {
                    Err(e) => return Err(e),
                    Ok(true) => return Ok(true),
                    Ok(false) => {},
                }
            },
        }
        i += 1;
    }
    proof { assert(entries@.skip(i as int).len() == 0); }
    Ok(false)
}

/// What to do after checking one directory for a root marker.
#[derive(Debug, Clone)]
pub enum SearchStep {
    /// The directory holds the marker: it is the root.
    Found(String),
    /// The search is over without finding a root.
    NotFound,
    /// Go on with the given parent directory.
    Ascend(String),
}

/// The abstract value of a [`SearchStep`].
pub enum SearchStepView {
    Found(Seq<char>),
    NotFound,
    Ascend(Seq<char>),
}

impl View for SearchStep {
    type V = SearchStepView;

    open spec fn view(&self) -> SearchStepView {
        match self {
            SearchStep::Found(d) => SearchStepView::Found(d@),
            SearchStep::NotFound => SearchStepView::NotFound,
            SearchStep::Ascend(d) => SearchStepView::Ascend(d@),
        }
    }
}

/// What one step of the search decides.
pub open spec fn search_decision(dir: Seq<char>, contains_marker: bool, stop_at: Option<Seq<char>>) -> SearchStepView {
    if contains_marker {
        SearchStepView::Found(dir)
    } else if stop_at == Some(dir) {
        SearchStepView::NotFound
    } else {
        match parent(dir) {
            None => SearchStepView::NotFound,
            Some(p) => SearchStepView::Ascend(p),
        }
    }
}

/// One step of the search for a root marker: a directory holding the marker
/// is the root; otherwise the search stops at `stop_at` or at the filesystem
/// root, and else goes on with the parent.
pub fn search_step(dir: &str, contains_marker: bool, stop_at: Option<&str>) -> (r: SearchStep)
    ensures
        r@ == search_decision(dir@, contains_marker, match stop_at { Some(s) => Some(s@), None => None }),
{
    if contains_marker {
        return SearchStep::Found(String::from_str(dir));
    }
    if let Some(s) = stop_at {
        let sc = chars_of(s);
        let dc = chars_of(dir);
        if chars_eq(&sc, &dc) {
            return SearchStep::NotFound;
        }
    }
    match parent_exec(dir) {
        None => SearchStep::NotFound,
        Some(p) => SearchStep::Ascend(p),
    }
}

/// A directory that holds the marker is the root found, whether or not it
/// is the directory the search stops at; a directory without the marker is
/// never taken for the root: the search then stops at `stop_at` or at the
/// file system's root, and else goes on with the parent.
pub proof fn lemma_marker_dir_is_root(dir: Seq<char>, contains_marker: bool, stop_at: Option<Seq<char>>)
    ensures
        contains_marker ==> search_decision(dir, contains_marker, stop_at) == SearchStepView::Found(dir),
        !contains_marker ==> !(search_decision(dir, contains_marker, stop_at) is Found),
        !contains_marker && stop_at == Some(dir) ==> search_decision(dir, contains_marker, stop_at) is NotFound,
        !contains_marker && stop_at != Some(dir) ==> search_decision(dir, contains_marker, stop_at) == match parent(dir) {
            Some(p) => SearchStepView::Ascend(p),
            None => SearchStepView::NotFound,
        },
{
}

/// Each step of the search moves to a strictly shorter path, so the search
/// ends.
pub proof fn lemma_search_ascends(dir: Seq<char>)
    ensures
        parent(dir) matches Some(p) ==> p.len() < dir.len(),
{
    if dir.len() > 1 {
        match crate::paths::last_slash(dir) {
            None => {},
            Some(i) => { lemma_last_slash_in_range(dir); },
        }
    }
}

proof fn lemma_last_slash_in_range(s: Seq<char>)
    ensures
        crate::paths::last_slash(s) matches Some(i) ==> i < s.len(),
    decreases s.len(),
{
    if s.len() > 0 {
        lemma_last_slash_in_range(s.drop_last());
    }
}

/// What is at the path the search for a root marker starts from, symbolic
/// links followed: a directory or a file with the given path, or a link
/// that leads nowhere.
#[derive(Debug, Clone)]
pub enum StartNode {
    Directory(String),
    File(String),
    DanglingSymlink,
}

/// Why the search for a root marker cannot start.
#[derive(Debug, Clone)]
pub enum FindRootStartError {
    /// Nothing is at the given start path.
    StartPathNotFound(String),
    /// The given start path is a symbolic link that leads nowhere.
    StartsAtDanglingSymlink(String),
    /// The start is a file, at the given path, without a parent directory.
    FileParent(String),
}

/// A search for a root marker, going up from a directory one parent at a
/// time.
#[derive(Debug)]
pub struct RootSearch {
    dir: String,
    stop_at: Option<String>,
}

impl RootSearch {
    /// The directory to check next.
    pub closed spec fn dir(&self) -> Seq<char> {
        self.dir@
    }

    /// The directory the search stops at, if any.
    pub closed spec fn stop_at(&self) -> Option<Seq<char>> {
        match self.stop_at {
            Some(s) => Some(s@),
            None => None,
        }
    }

    /// A search that starts at the directory `start` and goes no higher
    /// than `stop_at`, if it is given.
    pub fn new(start: String, stop_at: Option<String>) -> (r: RootSearch)
        ensures
            r.dir() == start@,
            r.stop_at() == (match stop_at { Some(s) => Some(s@), None => None }),
    {
        RootSearch { dir: start, stop_at }
    }

    /// A search from the path `start_from`, given what is there (symbolic
    /// links followed): a directory is searched from, a file from its
    /// parent; nothing there, or a link leading nowhere, is an error
    /// carrying the start path.
    pub fn from_start(start_from: String, node: Option<StartNode>, stop_at: Option<String>) -> (r: Result<RootSearch, FindRootStartError>)
        ensures
            match node {
                None => r matches Err(FindRootStartError::StartPathNotFound(p)) && p@ == start_from@,
                Some(StartNode::DanglingSymlink) => r matches Err(FindRootStartError::StartsAtDanglingSymlink(p)) && p@ == start_from@,
                Some(StartNode::Directory(d)) => r matches Ok(search) && search.dir() == d@
                    && search.stop_at() == (match stop_at { Some(s) => Some(s@), None => None }),
                Some(StartNode::File(f)) => match parent(f@) {
                    Some(p) => r matches Ok(search) && search.dir() == p
                        && search.stop_at() == (match stop_at { Some(s) => Some(s@), None => None }),
                    None => r matches Err(FindRootStartError::FileParent(p)) && p@ == f@,
                },
            },
    {
        match node {
            None => Err(FindRootStartError::StartPathNotFound(start_from)),
            Some(StartNode::DanglingSymlink) => Err(FindRootStartError::StartsAtDanglingSymlink(start_from)),
            Some(StartNode::Directory(d)) => Ok(RootSearch::new(d, stop_at)),
            Some(StartNode::File(f)) => match parent_exec(f.as_str()) {
                Some(p) => Ok(RootSearch::new(p, stop_at)),
                None => Err(FindRootStartError::FileParent(f)),
            },
        }
    }

    /// The directory to check next for the marker.
    pub fn current_dir(&self) -> (r: &String)
        ensures
            r@ == self.dir(),
    {
        &self.dir
    }

    /// Moves the search on once the current directory was checked:
    /// `Some(Some(root))` when it holds the marker, `Some(None)` when the
    /// search ends without a root (at `stop_at` or at the file system's
    /// root), and `None` when the search goes on with the parent, a
    /// strictly shorter path, so that the search ends.
    pub fn after_check(&mut self, contains_marker: bool) -> (r: Option<Option<String>>)
        ensures
            final(self).stop_at() == old(self).stop_at(),
            match search_decision(old(self).dir(), contains_marker, old(self).stop_at()) {
                SearchStepView::Found(d) => (r matches Some(Some(root)) && root@ == d) && final(self).dir() == old(self).dir(),
                SearchStepView::NotFound => (r matches Some(None)) && final(self).dir() == old(self).dir(),
                SearchStepView::Ascend(p) => r is None && final(self).dir() == p && p.len() < old(self).dir().len(),
            },
    {
        let step = match &self.stop_at {
            Some(s) => search_step(self.dir.as_str(), contains_marker, Some(s.as_str())),
            None => search_step(self.dir.as_str(), contains_marker, None),
        };
        match step {
            SearchStep::Found(d) => Some(Some(d)),
            SearchStep::NotFound => Some(None),
            SearchStep::Ascend(p) => {
                proof { lemma_search_ascends(self.dir@); }
                self.dir = p;
                None
            },
        }
    }
}

/// What the root of a project is, after asking the language servers.
#[derive(Debug, Clone)]
pub enum LspRootOutcome<E> {
    /// A language server reported this root.
    Root(String),
    /// Asking failed.
    Error(E),
    /// No language server is attached: search for a root marker.
    SearchMarkers,
}

/// Decides what to do with the answer of the language servers.
pub fn after_lsp_root<E>(lsp: Result<Option<String>, E>) -> (r: LspRootOutcome<E>)
    ensures
        match lsp {
            Ok(Some(root)) => r == LspRootOutcome::<E>::Root(root),
            Ok(None) => r == LspRootOutcome::<E>::SearchMarkers,
            Err(e) => r == LspRootOutcome::<E>::Error(e),
        },
{
    match lsp {
        Ok(Some(root)) => LspRootOutcome::Root(root),
        Ok(None) => LspRootOutcome::SearchMarkers,
        Err(e) => LspRootOutcome::Error(e),
    }
}

/// The type of error that can occur when searching for a root marker gave
/// no root.
#[derive(Debug, Clone)]
pub enum RootSearchError<F> {
    /// The buffer's path has no parent.
    CouldntFindRoot(String),
    /// The search for a marker failed.
    FindRoot(F),
}

/// The project root given the result of the marker search: the directory
/// holding the marker, or else the directory holding the buffer.
pub fn after_marker_search<F>(found: Result<Option<String>, F>, buffer_path: &str) -> (r: Result<String, RootSearchError<F>>)
    ensures
        match found {
            Ok(Some(root)) => r == Ok::<String, RootSearchError<F>>(root),
            Err(e) => r == Err::<String, RootSearchError<F>>(RootSearchError::FindRoot(e)),
            Ok(None) => match parent(buffer_path@) {
                Some(p) => r matches Ok(s) && s@ == p,
                None => r matches Err(RootSearchError::CouldntFindRoot(s)) && s@ == buffer_path@,
            },
        },
{
    match found {
        Ok(Some(root)) => Ok(root),
        Err(e) => Err(RootSearchError::FindRoot(e)),
        Ok(None) => match parent_exec(buffer_path) {
            Some(p) => Ok(p),
            None => Err(RootSearchError::CouldntFindRoot(String::from_str(buffer_path))),
        },
    }
}

}
