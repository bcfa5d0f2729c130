//! Asking a peer of a session for the project and receiving it, while the
//! other messages that arrive in the meantime are kept for later.
use vstd::prelude::*;

use crate::peers::Peer;

verus! {

/// The ID of a message: its sender and its position among the sender's
/// messages.
#[derive(Debug, Clone, Copy, PartialEq, Eq, Structural)]
pub struct MessageId {
    pub sender_id: u64,
    pub message_seq: u64,
}

/// The peer asked for the project when joining: the first of the other
/// peers the server listed, of which there is always at least one.
pub fn project_request_target(other_peers: &Vec<Peer>) -> (r: u64)
    requires
        other_peers@.len() > 0,
    ensures
        r == other_peers@[0].id,
{
    other_peers[0].id
}

/// The ID of the project request a joining peer sends: its first message.
pub fn project_request_id(local_id: u64) -> (r: MessageId)
    ensures
        r == (MessageId { sender_id: local_id, message_seq: 0 }),
{
    MessageId { sender_id: local_id, message_seq: 0 }
}

/// What is known of a message fragment when it arrives.
#[derive(Debug, Clone, Copy)]
pub struct FragmentInfo {
    /// The request the message answers, if it is a response.
    pub response_to: Option<MessageId>,
    /// The number of bytes of the message this fragment carries.
    pub payload_len: u64,
    /// The length of the whole message, in bytes.
    pub message_len: u64,
    /// Whether the fragment completes a project response.
    pub completes_project: bool,
}

/// What to do with a fragment received while waiting for the project.
#[derive(Debug, Clone, Copy, PartialEq, Eq, Structural)]
pub enum ReceptionStep {
    /// Keep the fragment: it is not part of the answer, and is handed on
    /// once the session runs.
    Buffer,
    /// Report that the given number of bytes of the answer, out of the
    /// given total, arrived; the answer is not complete yet.
    Progress(u64, u64),
    /// Report the progress; the answer is complete and holds the project.
    Done(u64, u64),
}

/// The reception of the answer to a project request.
#[derive(Debug)]
pub struct ProjectReception {
    request_id: MessageId,
    bytes_received: u64,
}

impl ProjectReception {
    /// The ID of the request being answered.
    pub closed spec fn request(&self) -> MessageId {
        self.request_id
    }

    /// The number of bytes of the answer received so far.
    pub closed spec fn received(&self) -> nat {
        self.bytes_received as nat
    }

    /// Waits for the answer to the request with the given ID.
    pub fn new(request_id: MessageId) -> (r: ProjectReception)
        ensures
            r.request() == request_id,
            r.received() == 0,
    {
        ProjectReception { request_id, bytes_received: 0 }
    }

    /// The number of bytes of the answer received so far.
    pub fn bytes_received(&self) -> (r: u64)
        ensures
            r == self.received(),
    {
        self.bytes_received
    }

    /// Takes in a fragment: one that does not answer the request is kept;
    /// one that does adds its bytes to those received.
    pub fn on_fragment(&mut self, fragment: FragmentInfo) -> (r: ReceptionStep)
        requires
            fragment.response_to == Some(old(self).request()) ==> old(self).received() + fragment.payload_len
                <= u64::MAX,
        ensures
            final(self).request() == old(self).request(),
            fragment.response_to != Some(old(self).request()) ==> r == ReceptionStep::Buffer
                && final(self).received() == old(self).received(),
            fragment.response_to == Some(old(self).request()) ==> {
                &&& final(self).received() == old(self).received() + fragment.payload_len
                &&& r == (if fragment.completes_project {
                    ReceptionStep::Done(final(self).received() as u64, fragment.message_len)
                } else {
                    ReceptionStep::Progress(final(self).received() as u64, fragment.message_len)
                })
            },
    {
        let answers = match fragment.response_to {
            Some(id) => id.sender_id == self.request_id.sender_id && id.message_seq == self.request_id.message_seq,
            None => false,
        };
        if !answers {
            return ReceptionStep::Buffer;
        }
        self.bytes_received = self.bytes_received + fragment.payload_len;
        if fragment.completes_project {
            ReceptionStep::Done(self.bytes_received, fragment.message_len)
        } else {
            ReceptionStep::Progress(self.bytes_received, fragment.message_len)
        }
    }
}

}
