//! The records exchanged with the host, and the reserved side-channel lines.
use std::collections::HashMap;
use vstd::prelude::*;

verus! {

/// The reserved lines of the cancellation side channel.
pub struct MessageCommunicate;

impl MessageCommunicate {
    /// The line that asks the worker to shut down.
    pub const CLOSED_SIGNAL: &'static str = "__quit__";

    /// The line reserved for a context switch; the worker gives it no meaning.
    pub const INTERRUPT_SIGNAL: &'static str = "__context_swich__";
}

/// Status of an output task, as the host reads it.
#[derive(Debug, Clone, Copy, PartialEq, Eq, Structural)]
pub enum MessageStatus {
    /// The host ignores the message.
    IgnoreMessage,
    /// The message was handled.
    MessageDone,
    /// The message was handled and a reply follows.
    MessageDoneWithReply,
}

impl MessageStatus {
    /// The wire code of each status.
    pub open spec fn spec_code(self) -> int {
        match self {
            MessageStatus::IgnoreMessage => -1,
            MessageStatus::MessageDone => 200,
            MessageStatus::MessageDoneWithReply => 201,
        }
    }

    /// The wire code of this status.
    pub fn code(self) -> (r: i32)
        ensures
            r == self.spec_code(),
    {
        match self {
            MessageStatus::IgnoreMessage => -1,
            MessageStatus::MessageDone => 200,
            MessageStatus::MessageDoneWithReply => 201,
        }
    }

    /// The status with the given wire code, if there is one.
    pub fn from_code(code: i32) -> (r: Option<MessageStatus>)
        ensures
            match r {
                Some(s) => s.spec_code() == code,
                None => forall|s: MessageStatus| s.spec_code() != code,
            },
    {
        if code == -1 {
            Some(MessageStatus::IgnoreMessage)
        } else if code == 200 {
            Some(MessageStatus::MessageDone)
        } else if code == 201 {
            Some(MessageStatus::MessageDoneWithReply)
        } else {
            proof {
                assert forall|s: MessageStatus| s.spec_code() != code by {
                    match s {
                        MessageStatus::IgnoreMessage => {},
                        MessageStatus::MessageDone => {},
                        MessageStatus::MessageDoneWithReply => {},
                    }
                }
            }
            None
        }
    }
}

/// A result that the worker sends back to the host.
#[derive(Debug, Clone)]
pub struct MessageOutputTask {
    pub message: String,
    pub status: i32,
    pub headers: Option<HashMap<String, String>>,
    pub reply_queue_name: Option<String>,
}

/// The output that reports a failure of the processing step: the reason as
/// its message, and a status that tells the host to ignore it.
pub open spec fn failure_output(reason: String) -> MessageOutputTask {
    MessageOutputTask {
        message: reason,
        status: -1i32,
        headers: None,
        reply_queue_name: None,
    }
}

impl MessageOutputTask {
    /// The output that reports a failure of the processing step: the reason
    /// as its message, and a status that tells the host to ignore it.
    pub fn failure(reason: String) -> (r: MessageOutputTask)
        ensures
            r == failure_output(reason),
            r.message@ == reason@,
            r.status == MessageStatus::IgnoreMessage.spec_code(),
            r.headers is None,
            r.reply_queue_name is None,
    {
        MessageOutputTask {
            message: reason,
            status: MessageStatus::IgnoreMessage.code(),
            headers: None,
            reply_queue_name: None,
        }
    }
}

/// A work item that the host sends to the worker.
#[derive(Debug, Clone)]
pub struct MessageInputTask {
    pub message: String,
    pub correlation_id: String,
    pub original_queue_name: String,
    pub headers: Option<HashMap<String, String>>,
}

} // verus!
