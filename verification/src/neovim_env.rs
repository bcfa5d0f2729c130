//! What the Neovim integration decides from what it reads of its
//! environment: the home directory, the directory for remote projects, the
//! root reported by a language server, and the user's answers to prompts.
use vstd::prelude::*;

use crate::paths::{is_absolute, is_absolute_exec, join, join_exec, tilde_path, tilde_text};
use crate::text::{chars_of, push_chars, push_str, string_of};

verus! {

/// How a string is written by its `Debug` impl (`<str as Debug>::fmt` of
/// `std`): quoted, with special characters escaped.
pub uninterp spec fn spec_debug_str(s: Seq<char>) -> Seq<char>;

/// Writes a string with `std`'s `Debug` impl for `str`. The result is named
/// by `spec_debug_str`; nothing more is claimed of it.
#[verifier::external_body]
fn debug_str(s: &str) -> (r: String)
    ensures
        r@ == spec_debug_str(s@),
{
    format!("{:?}", s)
}

/// `prefix`, then `middle` written with `Debug`, then `suffix`.
fn message_with_debug(prefix: &str, middle: &str, suffix: &str) -> (r: String)
    ensures
        r@ == prefix@ + spec_debug_str(middle@) + suffix@,
{
    let mut cs: Vec<char> = Vec::new();
    push_str(&mut cs, prefix);
    let q = debug_str(middle);
    push_str(&mut cs, q.as_str());
    push_str(&mut cs, suffix);
    string_of(cs.as_slice())
}

/// What the operating system reported as the home directory.
#[derive(Debug, Clone)]
pub enum HomeDirCandidate {
    /// A path that is valid UTF-8.
    Utf8(String),
    /// A path that is not valid UTF-8, written lossily.
    NotUtf8(String),
}

/// The type of error that can occur when finding the home directory.
#[derive(Debug, Clone)]
pub enum NeovimHomeDirError {
    /// No home directory was found, or it was empty.
    CouldntFindHome,
    /// The home directory is not an absolute path.
    HomeDirNotAbsolute(String),
    /// The home directory is not valid UTF-8.
    HomeDirNotUtf8(String),
}

impl NeovimHomeDirError {
    /// The message shown to the user.
    pub fn message(&self) -> (r: String)
        ensures
            r@ == match self {
                NeovimHomeDirError::CouldntFindHome => "Couldn't find the home directory"@,
                NeovimHomeDirError::HomeDirNotAbsolute(p) => "Found home directory at "@
                    + spec_debug_str(p@) + ", but it's not an absolute path"@,
                NeovimHomeDirError::HomeDirNotUtf8(p) => "Found home directory at "@
                    + spec_debug_str(p@) + ", but it's not a valid UTF-8 string"@,
            },
    {
        match self {
            NeovimHomeDirError::CouldntFindHome => String::from_str("Couldn't find the home directory"),
            NeovimHomeDirError::HomeDirNotAbsolute(p) => message_with_debug(
                "Found home directory at ", p.as_str(), ", but it's not an absolute path"),
            NeovimHomeDirError::HomeDirNotUtf8(p) => message_with_debug(
                "Found home directory at ", p.as_str(), ", but it's not a valid UTF-8 string"),
        }
    }
}

/// The home directory decided from what the operating system reported: a
/// missing or empty path means there is none, a non-UTF-8 path or a relative
/// one is an error.
pub open spec fn home_dir_outcome(c: Option<HomeDirCandidate>) -> Result<Seq<char>, NeovimHomeDirError> {
    match c {
        None => Err(NeovimHomeDirError::CouldntFindHome),
        Some(HomeDirCandidate::NotUtf8(p)) => Err(NeovimHomeDirError::HomeDirNotUtf8(p)),
        Some(HomeDirCandidate::Utf8(p)) => if p@.len() == 0 {
            Err(NeovimHomeDirError::CouldntFindHome)
        } else if !is_absolute(p@) {
            Err(NeovimHomeDirError::HomeDirNotAbsolute(p))
        } else {
            Ok(p@)
        },
    }
}

/// Decides the home directory from what the operating system reported.
pub fn home_dir_from(c: Option<HomeDirCandidate>) -> (r: Result<String, NeovimHomeDirError>)
    ensures
        match home_dir_outcome(c) {
            Ok(p) => r matches Ok(s) && s@ == p,
            Err(e) => r matches Err(f) && f == e,
        },
{
    match c {
        None => Err(NeovimHomeDirError::CouldntFindHome),
        Some(HomeDirCandidate::NotUtf8(p)) => Err(NeovimHomeDirError::HomeDirNotUtf8(p)),
        Some(HomeDirCandidate::Utf8(p)) => {
            let cs = chars_of(p.as_str());
            if cs.len() == 0 {
                Err(NeovimHomeDirError::CouldntFindHome)
            } else if !is_absolute_exec(p.as_str()) {
                Err(NeovimHomeDirError::HomeDirNotAbsolute(p))
            } else {
                Ok(p)
            }
        },
    }
}

/// The value of the `XDG_DATA_HOME` environment variable.
#[derive(Debug, Clone)]
pub enum XdgDataHome {
    /// The variable is set to a UTF-8 string.
    Present(String),
    /// The variable is not set.
    NotPresent,
    /// The variable is set but is not valid UTF-8; it is written lossily.
    NotUnicode(String),
}

/// The type of error that can occur when finding the data directory.
#[derive(Debug, Clone)]
pub enum NeovimDataDirError {
    /// The home directory was needed and couldn't be found.
    Home(NeovimHomeDirError),
    /// `XDG_DATA_HOME` is not an absolute path.
    XdgDataHomeNotAbsolute(String),
    /// `XDG_DATA_HOME` is not valid UTF-8.
    XdgDataHomeNotUtf8(String),
}

impl NeovimDataDirError {
    /// The message shown to the user.
    pub fn message(&self) -> (r: String)
        ensures
            r@ == match self {
                NeovimDataDirError::Home(e) => match e {
                    NeovimHomeDirError::CouldntFindHome => "Couldn't find the home directory"@,
                    NeovimHomeDirError::HomeDirNotAbsolute(p) => "Found home directory at "@
                        + spec_debug_str(p@) + ", but it's not an absolute path"@,
                    NeovimHomeDirError::HomeDirNotUtf8(p) => "Found home directory at "@
                        + spec_debug_str(p@) + ", but it's not a valid UTF-8 string"@,
                },
                NeovimDataDirError::XdgDataHomeNotAbsolute(p) => "found data directory at "@
                    + spec_debug_str(p@) + ", but it's not an absolute path"@,
                NeovimDataDirError::XdgDataHomeNotUtf8(p) => "found data directory at "@
                    + spec_debug_str(p@) + ", but it's not a valid UTF-8 string"@,
            },
    {
        match self {
            NeovimDataDirError::Home(e) => e.message(),
            NeovimDataDirError::XdgDataHomeNotAbsolute(p) => message_with_debug(
                "found data directory at ", p.as_str(), ", but it's not an absolute path"),
            NeovimDataDirError::XdgDataHomeNotUtf8(p) => message_with_debug(
                "found data directory at ", p.as_str(), ", but it's not a valid UTF-8 string"),
        }
    }
}

/// The directory remote projects are written under: `nomad/remote-projects`
/// inside the data directory, which is `XDG_DATA_HOME` when it is set and
/// `~/.local/share` otherwise.
pub open spec fn remote_projects_dir_outcome(
    xdg: XdgDataHome,
    home: Result<Seq<char>, NeovimHomeDirError>,
) -> Result<Seq<char>, NeovimDataDirError> {
    let data_dir: Result<Seq<char>, NeovimDataDirError> = match xdg {
        XdgDataHome::Present(s) => if is_absolute(s@) {
            Ok(s@)
        } else {
            Err(NeovimDataDirError::XdgDataHomeNotAbsolute(s))
        },
        XdgDataHome::NotPresent => match home {
            Ok(h) => Ok(join(join(h, ".local"@), "share"@)),
            Err(e) => Err(NeovimDataDirError::Home(e)),
        },
        XdgDataHome::NotUnicode(s) => Err(NeovimDataDirError::XdgDataHomeNotUtf8(s)),
    };
    match data_dir {
        Ok(d) => Ok(join(join(d, "nomad"@), "remote-projects"@)),
        Err(e) => Err(e),
    }
}

/// Decides the directory remote projects are written under. The home
/// directory is only looked at when `XDG_DATA_HOME` is not set.
pub fn default_dir_for_remote_projects(
    xdg: XdgDataHome,
    home: Result<String, NeovimHomeDirError>,
) -> (r: Result<String, NeovimDataDirError>)
    ensures
        match remote_projects_dir_outcome(xdg, match home { Ok(h) => Ok(h@), Err(e) => Err(e) }) {
            Ok(p) => r matches Ok(s) && s@ == p,
            Err(e) => r matches Err(f) && f == e,
        },
{
    let data_dir = match xdg {
        XdgDataHome::Present(s) => {
            if is_absolute_exec(s.as_str()) {
                s
            } else {
                return Err(NeovimDataDirError::XdgDataHomeNotAbsolute(s));
            }
        },
        XdgDataHome::NotPresent => match home {
            Ok(h) => {
                let local = join_exec(h.as_str(), ".local");
                join_exec(local.as_str(), "share")
            },
            Err(e) => return Err(NeovimDataDirError::Home(e)),
        },
        XdgDataHome::NotUnicode(s) => return Err(NeovimDataDirError::XdgDataHomeNotUtf8(s)),
    };
    let nomad = join_exec(data_dir.as_str(), "nomad");
    Ok(join_exec(nomad.as_str(), "remote-projects"))
}

/// The type of error returned when a language server reports a root that is
/// not an absolute path.
#[derive(Debug, Clone)]
pub struct NeovimLspRootError {
    pub root_dir: String,
}

impl NeovimLspRootError {
    /// The message shown to the user.
    pub fn message(&self) -> (r: String)
        ensures
            r@ == "LSP root at "@ + self.root_dir@ + " is not an absolute path"@,
    {
        let mut cs: Vec<char> = Vec::new();
        push_str(&mut cs, "LSP root at ");
        push_str(&mut cs, self.root_dir.as_str());
        push_str(&mut cs, " is not an absolute path");
        string_of(cs.as_slice())
    }
}

/// Decides the project root from the root directory of the first language
/// server attached to a buffer, if there is one.
pub fn lsp_root_from(root_dir: Option<String>) -> (r: Result<Option<String>, NeovimLspRootError>)
    ensures
        match root_dir {
            None => r matches Ok(None),
            Some(d) => if is_absolute(d@) {
                r matches Ok(Some(s)) && s@ == d@
            } else {
                r matches Err(e) && e.root_dir@ == d@
            },
        },
{
    match root_dir {
        None => Ok(None),
        Some(d) => {
            if is_absolute_exec(d.as_str()) {
                Ok(Some(d))
            } else {
                Err(NeovimLspRootError { root_dir: d })
            }
        },
    }
}

/// Whether the answer to a "Yes/No" confirmation means yes. Neovim's
/// `confirm()` returns 1 for the first option, 2 for the second, and 0 when
/// the prompt is dismissed.
pub fn confirmed(choice: u8) -> (r: bool)
    requires
        choice <= 2,
    ensures
        r == (choice == 1),
{
    match choice {
        1 => true,
        _ => false,
    }
}

/// What an action on a selected session is: the session picker's prompt
/// depends on it.
#[derive(Debug, Clone, Copy, PartialEq, Eq, Structural)]
pub enum ActionForSelectedSession {
    /// Copy the session's ID to the clipboard.
    CopySessionId,
    /// Leave the session.
    Leave,
}

impl ActionForSelectedSession {
    /// The prompt shown when asking which session to act on.
    pub fn prompt(self) -> (r: &'static str)
        ensures
            r@ == match self {
                ActionForSelectedSession::CopySessionId => "Choose which session to yank the ID of: "@,
                ActionForSelectedSession::Leave => "Choose which session to leave: "@,
            },
    {
        match self {
            ActionForSelectedSession::CopySessionId => "Choose which session to yank the ID of: ",
            ActionForSelectedSession::Leave => "Choose which session to leave: ",
        }
    }
}

/// The session picked in the list of `len` sessions, from the one-based
/// index the picker returned (`None` when nothing was picked). An index past
/// the end picks nothing.
pub fn picked_session(len: usize, lua_idx: Option<u8>) -> (r: Option<usize>)
    requires
        lua_idx matches Some(i) ==> i >= 1,
    ensures
        match lua_idx {
            None => r is None,
            Some(i) => if (i - 1) < len { r == Some((i - 1) as usize) } else { r is None },
        },
{
    match lua_idx {
        None => None,
        Some(i) => {
            let idx = (i - 1) as usize;
            if idx < len { Some(idx) } else { None }
        },
    }
}

/// The ways creating a `.gitignore`-based filter can fail.
#[derive(Debug, Clone)]
pub enum GitIgnoreCreateError {
    /// `git` is not in `$PATH`.
    GitNotInPath,
    /// The project is not inside a Git repository.
    PathNotInGitRepository,
    /// Running `git` failed.
    CommandFailed(String),
    /// The project's path is not valid.
    InvalidPath,
}

/// The project filter to use given the result of creating a `.gitignore`
/// filter: a project outside any Git repository, or without `git` to ask,
/// has no filter; the other failures are errors.
pub fn project_filter_outcome<F>(created: Result<F, GitIgnoreCreateError>) -> (r: Result<Option<F>, GitIgnoreCreateError>)
    ensures
        match created {
            Ok(f) => r == Ok::<Option<F>, GitIgnoreCreateError>(Some(f)),
            Err(GitIgnoreCreateError::GitNotInPath) => r == Ok::<Option<F>, GitIgnoreCreateError>(None),
            Err(GitIgnoreCreateError::PathNotInGitRepository) => r == Ok::<Option<F>, GitIgnoreCreateError>(None),
            Err(e) => r == Err::<Option<F>, GitIgnoreCreateError>(e),
        },
{
    match created {
        Ok(f) => Ok(Some(f)),
        Err(GitIgnoreCreateError::GitNotInPath) => Ok(None),
        Err(GitIgnoreCreateError::PathNotInGitRepository) => Ok(None),
        Err(e) => Err(e),
    }
}


/// The name of the plugin's collaboration module.
pub const COLLAB_MODULE_NAME: &'static str = "collab";

/// The name of the action that copies a session's ID.
pub const YANK_ACTION_NAME: &'static str = "yank";

/// The question asked before starting a session on the project at `root`
/// (`home` is the home directory, if known, for shortening the path).
pub fn confirm_start_prompt(root: &str, home: Option<&str>) -> (r: String)
    ensures
        r@ == "Start collaborating on the project at \""@
            + tilde_text(root@, match home { Some(h) => Some(h@), None => None }) + "\"?"@,
{
    let mut cs: Vec<char> = Vec::new();
    push_str(&mut cs, "Start collaborating on the project at \"");
    let shown = tilde_path(root, home);
    push_str(&mut cs, shown.as_str());
    push_str(&mut cs, "\"?");
    string_of(cs.as_slice())
}

/// The question asked once a session was started on the project at `root`
/// with the ID written `session_id`.
pub fn session_started_prompt(root: &str, home: Option<&str>, session_id: &str) -> (r: String)
    ensures
        r@ == "Started a new collaborative editing session at "@
            + tilde_text(root@, match home { Some(h) => Some(h@), None => None })
            + " with ID "@ + session_id@
            + ".\nYou can share this ID with other peers to let them join the session. Would you like to copy it to the clipboard?"@,
{
    let mut cs: Vec<char> = Vec::new();
    push_str(&mut cs, "Started a new collaborative editing session at ");
    let shown = tilde_path(root, home);
    push_str(&mut cs, shown.as_str());
    push_str(&mut cs, " with ID ");
    push_str(&mut cs, session_id);
    push_str(&mut cs, ".\nYou can share this ID with other peers to let them join the session. Would you like to copy it to the clipboard?");
    string_of(cs.as_slice())
}

/// The command that copies a session's ID later: `Mad collab yank`.
pub fn yank_command() -> (r: String)
    ensures
        r@ == "Mad "@ + COLLAB_MODULE_NAME@ + " "@ + YANK_ACTION_NAME@,
{
    let mut cs: Vec<char> = Vec::new();
    push_str(&mut cs, "Mad ");
    push_str(&mut cs, COLLAB_MODULE_NAME);
    push_str(&mut cs, " ");
    push_str(&mut cs, YANK_ACTION_NAME);
    string_of(cs.as_slice())
}
}
