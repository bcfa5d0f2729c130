//! The steps of joining and of starting a session, as states that can only
//! be left for the next step.
use vstd::prelude::*;

use crate::text::{chars_of, push_str, string_of};

verus! {

/// A join in progress, at the step `Status`.
#[derive(Debug)]
pub struct Joiner<Status> {
    pub status: Status,
}

/// The first step of a join: connecting to the server.
#[derive(Debug, Clone, Copy, PartialEq, Eq, Structural)]
pub struct ConnectToServer;

impl Joiner<ConnectToServer> {
    /// A join that has not started yet.
    pub fn new() -> (r: Joiner<ConnectToServer>)
        ensures
            r.status == ConnectToServer,
    {
        Joiner { status: ConnectToServer }
    }
}

/// A start in progress, at the step `Status`.
#[derive(Debug)]
pub struct Starter<Status> {
    pub status: Status,
}

/// The first step of a start: finding the project's root.
#[derive(Debug, Clone, Copy, PartialEq, Eq, Structural)]
pub struct FindProjectRoot;

/// The step of a start where the user confirms the project root found.
#[derive(Debug, Clone)]
pub struct ConfirmStart(pub String);

/// The ways finding the project root can fail.
#[derive(Debug)]
pub enum FindProjectRootError<E> {
    /// No file is focused.
    NotInFile,
    /// No root marker was found above the file at the given path.
    CouldntFindRoot(String),
    /// Looking for the root failed.
    FailedLookingForRoot(E),
}

/// The ways the user can decline starting a session.
#[derive(Debug, Clone, Copy, PartialEq, Eq, Structural)]
pub enum ConfirmStartError {
    /// The user said no.
    UserCancelled,
    /// The user dismissed the question.
    UserDismissed,
}

impl Starter<FindProjectRoot> {
    /// A start that has not started yet.
    pub fn new() -> (r: Starter<FindProjectRoot>)
        ensures
            r.status == FindProjectRoot,
    {
        Starter { status: FindProjectRoot }
    }

    /// Moves on once the root was looked for: `current_file` is the path of
    /// the focused file, if any, and `found` what the search above it gave.
    pub fn after_root_search<E>(
        self,
        current_file: Option<String>,
        found: Result<Option<String>, E>,
    ) -> (r: Result<Starter<ConfirmStart>, FindProjectRootError<E>>)
        ensures
            match current_file {
                None => r matches Err(FindProjectRootError::NotInFile),
                Some(f) => match found {
                    Ok(Some(root)) => r matches Ok(s) && s.status.0@ == root@,
                    Ok(None) => r matches Err(FindProjectRootError::CouldntFindRoot(p)) && p@ == f@,
                    Err(e) => r matches Err(FindProjectRootError::FailedLookingForRoot(g)) && g == e,
                },
            },
    {
        match current_file {
            None => Err(FindProjectRootError::NotInFile),
            Some(f) => match found {
                Ok(Some(root)) => Ok(Starter { status: ConfirmStart(root) }),
                Ok(None) => Err(FindProjectRootError::CouldntFindRoot(f)),
                Err(e) => Err(FindProjectRootError::FailedLookingForRoot(e)),
            },
        }
    }
}

impl Starter<ConfirmStart> {
    /// The question asked before starting on the root found.
    pub fn prompt(&self) -> (r: String)
        ensures
            r@ == "found root of project at '"@ + self.status.0@ + "'. Start session?"@,
    {
        let mut cs = chars_of("found root of project at '");
        push_str(&mut cs, self.status.0.as_str());
        push_str(&mut cs, "'. Start session?");
        string_of(cs.as_slice())
    }

    /// Moves on once the user answered: yes goes on with the root found, no
    /// or no answer stops the start.
    pub fn after_answer(self, answer: Option<bool>) -> (r: Result<String, ConfirmStartError>)
        ensures
            match answer {
                Some(true) => r matches Ok(root) && root@ == self.status.0@,
                Some(false) => r == Err::<String, ConfirmStartError>(ConfirmStartError::UserCancelled),
                None => r == Err::<String, ConfirmStartError>(ConfirmStartError::UserDismissed),
            },
    {
        match answer {
            Some(true) => Ok(self.status.0),
            Some(false) => Err(ConfirmStartError::UserCancelled),
            None => Err(ConfirmStartError::UserDismissed),
        }
    }
}

}
