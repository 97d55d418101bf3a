//! Requests to the actor of a stream, taken one at a time.
use super::spec::{obey, react, refusal, refused_with, reports, room_for, supplies_text};
use super::types::{ActorOutput, StreamActor, StreamCommand, WorkerEvent};
use crate::error::MusicStreamError;
use crate::model::StreamStatus;
use vstd::prelude::*;
use vstd::string::*;

verus! {

pub const DEFAULT_STREAM_ACTOR_MAILBOX_CAPACITY: usize = 32;

#[derive(Debug)]
pub enum MailboxRequest {
    Command(StreamCommand),
    WorkerEvent(WorkerEvent),
    Status,
}

#[derive(Debug)]
pub enum MailboxReply {
    Output(Result<ActorOutput, MusicStreamError>),
    Status(StreamStatus),
}

/// How a request got into the mailbox, or why not.
#[derive(Clone, Copy, Debug, PartialEq, Eq, Structural)]
pub enum MailboxDelivery {
    Accepted,
    Full,
    Closed,
}

pub fn check_mailbox_capacity(capacity: usize) -> (result: Result<(), MusicStreamError>)
    ensures
        result is Ok <==> capacity > 0,
        result matches Err(error) ==> (error matches MusicStreamError::InvalidConfig(text) && text@
            == "stream actor mailbox capacity must be greater than zero"@),
{
    if capacity == 0 {
        return Err(
            MusicStreamError::InvalidConfig(
                "stream actor mailbox capacity must be greater than zero".to_owned(),
            ),
        );
    }
    Ok(())
}

/// The answer to whoever put a request into the mailbox of a stream.
pub fn delivery_result(stream_id: &str, delivery: MailboxDelivery) -> (result: Result<
    (),
    MusicStreamError,
>)
    ensures
        match delivery {
            MailboxDelivery::Accepted => result is Ok,
            MailboxDelivery::Full => result matches Err(error) && (
            error matches MusicStreamError::Busy(text) && text@
                == "stream actor mailbox is full: "@ + stream_id@),
            MailboxDelivery::Closed => result matches Err(error) && (
            error matches MusicStreamError::StreamClosed(text) && text@
                == "stream actor mailbox is closed: "@ + stream_id@),
        },
{
    match delivery {
        MailboxDelivery::Accepted => Ok(()),
        MailboxDelivery::Full => Err(
            MusicStreamError::Busy(
                "stream actor mailbox is full: ".to_owned().concat(stream_id),
            ),
        ),
        MailboxDelivery::Closed => Err(
            MusicStreamError::StreamClosed(
                "stream actor mailbox is closed: ".to_owned().concat(stream_id),
            ),
        ),
    }
}

/// How many requests wait in a mailbox of which so much room is left.
pub fn queue_depth(max_capacity: usize, capacity: usize) -> (depth: usize)
    ensures
        depth == if max_capacity > capacity {
            max_capacity - capacity
        } else {
            0
        },
{
    max_capacity.saturating_sub(capacity)
}

/// Lets the actor answer one request.
pub fn handle_mailbox_message(actor: &mut StreamActor, request: MailboxRequest) -> (reply:
    MailboxReply)
    requires
        request matches MailboxRequest::Command(command) ==> room_for(*old(actor), command),
    ensures
        match request {
            MailboxRequest::Command(command) => reply matches MailboxReply::Output(result) && (
            match result {
                Ok(output) => {
                    &&& refusal(*old(actor), command) is None
                    &&& reports(obey(*old(actor), command), *final(actor), output)
                },
                Err(error) => {
                    &&& *final(actor) == *old(actor)
                    &&& refusal(*old(actor), command) matches Some(reason) && refused_with(
                        error,
                        reason,
                    )
                },
            }),
            MailboxRequest::WorkerEvent(event) => reply matches MailboxReply::Output(result) && (
            result matches Ok(output) && exists|text: String| #[trigger]
                supplies_text(event, text) && reports(
                    react(*old(actor), event, text),
                    *final(actor),
                    output,
                )),
            MailboxRequest::Status => *final(actor) == *old(actor) && reply == MailboxReply::Status(
                old(actor).spec_status(),
            ),
        },
{
    match request {
        MailboxRequest::Command(command) => MailboxReply::Output(actor.handle_command(command)),
        MailboxRequest::WorkerEvent(event) => {
            let output = actor.handle_worker_event(event);
            MailboxReply::Output(Ok(output))
        },
        MailboxRequest::Status => MailboxReply::Status(actor.status()),
    }
}

/// What waits in a mailbox and what it has room for make up its size.
pub proof fn depth_and_room_make_up_the_size(max_capacity: usize, capacity: usize, depth: usize)
    requires
        capacity <= max_capacity,
        call_ensures(queue_depth, (max_capacity, capacity), depth),
    ensures
        depth + capacity == max_capacity,
{
}

} // verus!
