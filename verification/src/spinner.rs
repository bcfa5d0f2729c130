//! The spinner shown next to the message of the step a join is at.
use vstd::prelude::*;

use crate::text::{push_str, string_of};

verus! {

/// The frames of the spinner, in the order they are shown.
#[derive(Debug, Clone, Copy, PartialEq, Eq, Structural)]
pub enum Spinner {
    Iter1,
    Iter2,
    Iter3,
}

/// The number of frames of the spinner.
pub const NUM_FRAMES: u8 = 3;

/// How long each frame is shown, in milliseconds.
pub const FRAME_DURATION_MILLIS: u64 = 80;

/// The position of a frame in the cycle.
pub open spec fn frame_index(s: Spinner) -> nat {
    match s {
        Spinner::Iter1 => 0,
        Spinner::Iter2 => 1,
        Spinner::Iter3 => 2,
    }
}

/// The character drawn for a frame.
pub open spec fn frame_char(s: Spinner) -> char {
    match s {
        Spinner::Iter1 => '\u{1F30D}',
        Spinner::Iter2 => '\u{1F30E}',
        Spinner::Iter3 => '\u{1F30F}',
    }
}

impl Spinner {
    /// Moves to the next frame, going back to the first after the last.
    pub fn advance(&mut self)
        ensures
            frame_index(*final(self)) == (frame_index(*old(self)) + 1) % (NUM_FRAMES as nat),
    {
        *self = match *self {
            Spinner::Iter1 => Spinner::Iter2,
            Spinner::Iter2 => Spinner::Iter3,
            Spinner::Iter3 => Spinner::Iter1,
        };
    }

    /// The character drawn for this frame: a globe, turned a little further
    /// at each frame.
    pub fn into_char(self) -> (c: char)
        ensures
            c == frame_char(self),
    {
        match self {
            Spinner::Iter1 => '\u{1F30D}',
            Spinner::Iter2 => '\u{1F30E}',
            Spinner::Iter3 => '\u{1F30F}',
        }
    }
}

/// Advancing the spinner as many times as it has frames brings it back to the
/// frame it started from, and each frame is drawn with its own character.
pub proof fn lemma_spinner_cycle(s: Spinner)
    ensures
        frame_index(s) < NUM_FRAMES,
        (((frame_index(s) + 1) % (NUM_FRAMES as nat) + 1) % (NUM_FRAMES as nat) + 1) % (NUM_FRAMES as nat)
            == frame_index(s),
        forall|t: Spinner| frame_index(t) == frame_index(s) ==> t == s,
        forall|t: Spinner| frame_char(t) == frame_char(s) ==> t == s,
{
}

/// The steps of joining a session that a spinner is shown for.
#[derive(Debug, Clone, Copy, PartialEq, Eq, Structural)]
pub enum JoinStep {
    ConnectToServer,
    Knock,
    ConfirmJoin,
    RequestProject,
    FindProjectRoot,
    FlushProject,
}

/// The message shown for a step.
pub open spec fn step_message(step: JoinStep) -> Seq<char> {
    match step {
        JoinStep::ConnectToServer => "Connecting to server"@,
        JoinStep::Knock => "Authenticating"@,
        JoinStep::ConfirmJoin => "Confirming join"@,
        JoinStep::RequestProject => "Requesting project"@,
        JoinStep::FindProjectRoot => "Finding project root"@,
        JoinStep::FlushProject => "Flushing project"@,
    }
}

impl JoinStep {
    /// The message shown next to the spinner while at this step.
    pub fn message(self) -> (r: &'static str)
        ensures
            r@ == step_message(self),
    {
        match self {
            JoinStep::ConnectToServer => "Connecting to server",
            JoinStep::Knock => "Authenticating",
            JoinStep::ConfirmJoin => "Confirming join",
            JoinStep::RequestProject => "Requesting project",
            JoinStep::FindProjectRoot => "Finding project root",
            JoinStep::FlushProject => "Flushing project",
        }
    }
}

/// One frame of the spinner shown while a step is in progress.
#[derive(Debug, Clone, Copy)]
pub struct SpinFrame {
    pub spinner: Spinner,
    pub step_message: &'static str,
}

impl SpinFrame {
    /// A frame showing `spinner` next to `step_message`.
    pub fn new(spinner: Spinner, step_message: &'static str) -> (r: SpinFrame)
        ensures
            r.spinner == spinner,
            r.step_message == step_message,
    {
        SpinFrame { spinner, step_message }
    }

    /// The text of the frame: the spinner's character, a space, and the
    /// step's message.
    pub fn message(&self) -> (r: String)
        ensures
            r@ == seq![frame_char(self.spinner), ' '] + self.step_message@,
    {
        let mut cs: Vec<char> = Vec::new();
        cs.push(self.spinner.into_char());
        cs.push(' ');
        push_str(&mut cs, self.step_message);
        string_of(cs.as_slice())
    }
}

}
