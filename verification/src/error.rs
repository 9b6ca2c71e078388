//! Why a message could not be delivered, and how the outcome of a channel
//! operation becomes the answer of a send.

use vstd::prelude::*;

verus! {

/// Error returned when a message could not be delivered to an actor.
#[derive(Debug, Clone, Copy, PartialEq, Eq, Structural)]
pub enum SendError {
    /// The actor's mailbox is full and not accepting new messages right now.
    MailboxFull,
    /// The actor has stopped; the message will never be processed.
    ActorStopped,
}

/// Why a mailbox refused a message offered without waiting.
#[derive(Debug, Clone, Copy, PartialEq, Eq, Structural)]
pub enum MailboxRejection {
    /// No room in the mailbox right now.
    Full,
    /// The receiving side is gone.
    Disconnected,
}

/// The text that describes each error.
pub open spec fn error_text(e: SendError) -> Seq<char> {
    match e {
        SendError::MailboxFull => "actor mailbox is full"@,
        SendError::ActorStopped => "actor has stopped"@,
    }
}

/// The error that a refused non-blocking send turns into.
pub open spec fn rejection_error(r: MailboxRejection) -> SendError {
    match r {
        MailboxRejection::Full => SendError::MailboxFull,
        MailboxRejection::Disconnected => SendError::ActorStopped,
    }
}

/// The answer of a fire-and-forget send, given what the mailbox said.
pub open spec fn offer_outcome(r: Result<(), MailboxRejection>) -> Result<(), SendError> {
    match r {
        Ok(()) => Ok(()),
        Err(rej) => Err(rejection_error(rej)),
    }
}

/// The answer of a request, given whether the mailbox took the message and
/// what came back on the reply channel: any failure means the actor is gone.
pub open spec fn reply_outcome_of<R>(delivered: bool, reply: Option<R>) -> Result<R, SendError> {
    if !delivered {
        Err(SendError::ActorStopped)
    } else {
        match reply {
            Some(v) => Ok(v),
            None => Err(SendError::ActorStopped),
        }
    }
}

/// The answer of a send that waits for room but not for the actor: a
/// mailbox whose receiving side is gone means the actor has stopped.
pub open spec fn delivery_outcome_of(delivered: bool) -> Result<(), SendError> {
    if delivered {
        Ok(())
    } else {
        Err(SendError::ActorStopped)
    }
}

/// A send that waits for room never reports a full mailbox: it fails only
/// when the actor is gone, whether it waits for the reply or not.
pub proof fn lemma_waiting_sends_never_report_full<R>(delivered: bool, reply: Option<R>)
    ensures
        reply_outcome_of(delivered, reply) is Ok || reply_outcome_of(delivered, reply) == Err::<
            R,
            SendError,
        >(SendError::ActorStopped),
        delivery_outcome_of(delivered) is Ok || delivery_outcome_of(delivered) == Err::<
            (),
            SendError,
        >(SendError::ActorStopped),
{
}

/// A fire-and-forget send reports a full mailbox exactly when the mailbox
/// was full, and a stopped actor exactly when the mailbox was closed.
pub proof fn lemma_offer_errors_follow_the_mailbox(r: Result<(), MailboxRejection>)
    ensures
        offer_outcome(r) == Err::<(), SendError>(SendError::MailboxFull) <==> r == Err::<
            (),
            MailboxRejection,
        >(MailboxRejection::Full),
        offer_outcome(r) == Err::<(), SendError>(SendError::ActorStopped) <==> r == Err::<
            (),
            MailboxRejection,
        >(MailboxRejection::Disconnected),
        offer_outcome(r) is Ok <==> r is Ok,
{
}

impl SendError {
    /// The text that describes the error.
    pub fn to_string(&self) -> (s: String)
        ensures
            s@ == error_text(*self),
    {
        match self {
            SendError::MailboxFull => {
                let t = "actor mailbox is full";
                proof {
                    reveal_strlit("actor mailbox is full");
                }
                t.to_owned()
            },
            SendError::ActorStopped => {
                let t = "actor has stopped";
                proof {
                    reveal_strlit("actor has stopped");
                }
                t.to_owned()
            },
        }
    }

    /// The error that a refused non-blocking send turns into.
    pub fn from_rejection(r: MailboxRejection) -> (e: SendError)
        ensures
            e == rejection_error(r),
    {
        match r {
            MailboxRejection::Full => SendError::MailboxFull,
            MailboxRejection::Disconnected => SendError::ActorStopped,
        }
    }
}

/// The answer of a fire-and-forget send, given what the mailbox said.
pub fn offer_result(r: Result<(), MailboxRejection>) -> (out: Result<(), SendError>)
    ensures
        out == offer_outcome(r),
{
    match r {
        Ok(()) => Ok(()),
        Err(rej) => Err(SendError::from_rejection(rej)),
    }
}

/// The answer of a send that waits for room but not for the actor.
pub fn delivery_outcome(delivered: bool) -> (out: Result<(), SendError>)
    ensures
        out == delivery_outcome_of(delivered),
{
    if delivered {
        Ok(())
    } else {
        Err(SendError::ActorStopped)
    }
}

/// The answer of a request, given whether the mailbox took the message and
/// what came back on the reply channel.
pub fn reply_outcome<R>(delivered: bool, reply: Option<R>) -> (out: Result<R, SendError>)
    ensures
        out == reply_outcome_of(delivered, reply),
{
    if !delivered {
        Err(SendError::ActorStopped)
    } else {
        match reply {
            Some(v) => Ok(v),
            None => Err(SendError::ActorStopped),
        }
    }
}

} // verus!
