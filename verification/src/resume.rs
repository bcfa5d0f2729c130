//! Pausing and resuming the messages a session receives from the server,
//! and what resuming a session that is not paused answers.
use vstd::prelude::*;

verus! {

/// Whether the messages of a session are held back.
#[derive(Debug, Clone, Copy, PartialEq, Eq, Structural)]
pub struct PauseSwitch {
    pub paused: bool,
}

impl PauseSwitch {
    /// Messages flow.
    pub fn new() -> (r: PauseSwitch)
        ensures
            !r.paused,
    {
        PauseSwitch { paused: false }
    }

    /// Holds the messages back; says whether they were flowing before.
    pub fn pause(&mut self) -> (r: bool)
        ensures
            final(self).paused,
            r == !old(self).paused,
    {
        let was_flowing = !self.paused;
        self.paused = true;
        was_flowing
    }

    /// Lets the messages flow again; says whether they were held back.
    pub fn resume(&mut self) -> (r: bool)
        ensures
            !final(self).paused,
            r == old(self).paused,
    {
        let was_paused = self.paused;
        self.paused = false;
        was_paused
    }
}

/// The type of error that can occur when resuming a session fails.
#[derive(Debug, Clone, Copy, PartialEq, Eq, Structural)]
pub enum ResumeError {
    /// There are no active sessions to resume.
    NoActiveSession,
    /// The session with the given ID is not paused.
    SessionIsNotPaused(u64),
}

impl ResumeError {
    /// The message shown to the user.
    pub fn message(&self) -> (r: &'static str)
        ensures
            match self {
                ResumeError::NoActiveSession => r@ == "There's no active collaborative editing session"@,
                ResumeError::SessionIsNotPaused(_) => r@ == "The session is not paused"@,
            },
    {
        match self {
            ResumeError::NoActiveSession => "There's no active collaborative editing session",
            ResumeError::SessionIsNotPaused(_) => "The session is not paused",
        }
    }
}

/// Resumes the session with the given ID, whose messages go through
/// `switch`: an error when they were not held back.
pub fn resume_session(session_id: u64, switch: &mut PauseSwitch) -> (r: Result<(), ResumeError>)
    ensures
        !final(switch).paused,
        r == (if old(switch).paused { Ok::<(), ResumeError>(()) } else {
            Err::<(), ResumeError>(ResumeError::SessionIsNotPaused(session_id))
        }),
{
    if switch.resume() {
        Ok(())
    } else {
        Err(ResumeError::SessionIsNotPaused(session_id))
    }
}

} // verus!
