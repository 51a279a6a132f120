use vstd::prelude::*;

use crate::channel::Message;
use crate::errors::{Error, Result};
use crate::{UserId, ID};

verus! {

/// The channel that every message of a session goes to.
pub const SESSION_CHANNEL_ID: ID = 0x13cdc63e_55e2_403b_9ac6_4aa7c2155bf4;

/// A command sent by a client.
#[derive(Debug, Clone)]
pub enum ClientMessage {
    SendMessage { user: UserId, content: String },
}

/// A frame sent to a client.
#[derive(Debug, Clone)]
pub enum ServerMessage {
    InvalidCommand,
    ChatMessage(Message),
}

/// What a session asks of the actors while it handles one `SendMessage`.
pub enum SendAction {
    /// Bind the connection to the user in the connection directory.
    BindUser { connection_id: ID, user: UserId },
    /// Find or create the channel in the channel directory.
    GetChannel { channel_id: ID },
    /// Record the message in the channel found.
    AddMessage { user: UserId, content: String },
    /// List the members of the channel found.
    GetMembers,
    /// Deliver the frame to every connection of these users.
    Publish { users: Vec<UserId>, message: ServerMessage },
    /// Handling is over, with this outcome.
    Done(Result),
}

/// The answer to the last [`SendAction`].
pub enum SendEvent {
    UserBound(Result),
    ChannelFound(Result),
    MessageAdded(Result<Message>),
    Members(Result<Vec<UserId>>),
    Published(Result),
}

/// Where a session stands in handling one `SendMessage`: each state waits
/// for the answer to one action.
pub enum SendMessageFlow {
    Binding { user: UserId, content: String },
    Resolving { user: UserId, content: String },
    Adding,
    Listing { message: Message },
    Publishing,
    Finished,
}

impl SendMessageFlow {
    /// Starts handling a command from `connection_id`: the connection is
    /// first bound to the command's author.
    pub fn start(connection_id: ID, command: ClientMessage) -> (r: (SendMessageFlow, SendAction))
        ensures
            match command {
                ClientMessage::SendMessage { user, content } => {
                    &&& r.0 == (SendMessageFlow::Binding { user, content })
                    &&& r.1 matches SendAction::BindUser { connection_id: c, user: u }
                    &&& c == connection_id && u@ == user@
                },
            },
    {
        match command {
            ClientMessage::SendMessage { user, content } => {
                let u = user.clone();
                (SendMessageFlow::Binding { user, content }, SendAction::BindUser { connection_id, user: u })
            },
        }
    }

    /// Takes the answer to the last action and returns the next state and
    /// action. A failed step ends the handling with its error; an answer
    /// that does not belong to the current state ends it with a generic error.
    pub fn step(self, event: SendEvent) -> (r: (SendMessageFlow, SendAction))
        ensures
            r.1 is Done <==> r.0 is Finished,
            match (self, event) {
                (SendMessageFlow::Binding { user, content }, SendEvent::UserBound(Ok(()))) => {
                    &&& r.0 == (SendMessageFlow::Resolving { user, content })
                    &&& r.1 == (SendAction::GetChannel { channel_id: SESSION_CHANNEL_ID })
                },
                (SendMessageFlow::Resolving { user, content }, SendEvent::ChannelFound(Ok(()))) => {
                    &&& r.0 is Adding
                    &&& r.1 == (SendAction::AddMessage { user, content })
                },
                (SendMessageFlow::Adding, SendEvent::MessageAdded(Ok(m))) => {
                    &&& r.0 == (SendMessageFlow::Listing { message: m })
                    &&& r.1 is GetMembers
                },
                (SendMessageFlow::Listing { message }, SendEvent::Members(Ok(users))) => {
                    &&& r.0 is Publishing
                    &&& r.1 == (SendAction::Publish { users, message: ServerMessage::ChatMessage(message) })
                },
                (SendMessageFlow::Publishing, SendEvent::Published(res)) => r.1 == SendAction::Done(res),
                (SendMessageFlow::Binding { .. }, SendEvent::UserBound(Err(e))) => r.1 == SendAction::Done(Err(e)),
                (SendMessageFlow::Resolving { .. }, SendEvent::ChannelFound(Err(e))) => r.1 == SendAction::Done(Err(e)),
                (SendMessageFlow::Adding, SendEvent::MessageAdded(Err(e))) => r.1 == SendAction::Done(Err(e)),
                (SendMessageFlow::Listing { .. }, SendEvent::Members(Err(e))) => r.1 == SendAction::Done(Err(e)),
                _ => r.1 matches SendAction::Done(Err(Error::Generic(_))),
            },
    {
        match (self, event) {
            (SendMessageFlow::Binding { user, content }, SendEvent::UserBound(Ok(()))) => {
                (SendMessageFlow::Resolving { user, content }, SendAction::GetChannel { channel_id: SESSION_CHANNEL_ID })
            },
            (SendMessageFlow::Resolving { user, content }, SendEvent::ChannelFound(Ok(()))) => {
                (SendMessageFlow::Adding, SendAction::AddMessage { user, content })
            },
            (SendMessageFlow::Adding, SendEvent::MessageAdded(Ok(m))) => {
                (SendMessageFlow::Listing { message: m }, SendAction::GetMembers)
            },
            (SendMessageFlow::Listing { message }, SendEvent::Members(Ok(users))) => {
                (SendMessageFlow::Publishing, SendAction::Publish { users, message: ServerMessage::ChatMessage(message) })
            },
            (SendMessageFlow::Publishing, SendEvent::Published(res)) => (SendMessageFlow::Finished, SendAction::Done(res)),
            (SendMessageFlow::Binding { .. }, SendEvent::UserBound(Err(e))) => (SendMessageFlow::Finished, SendAction::Done(Err(e))),
            (SendMessageFlow::Resolving { .. }, SendEvent::ChannelFound(Err(e))) => (SendMessageFlow::Finished, SendAction::Done(Err(e))),
            (SendMessageFlow::Adding, SendEvent::MessageAdded(Err(e))) => (SendMessageFlow::Finished, SendAction::Done(Err(e))),
            (SendMessageFlow::Listing { .. }, SendEvent::Members(Err(e))) => (SendMessageFlow::Finished, SendAction::Done(Err(e))),
            _ => (
                SendMessageFlow::Finished,
                SendAction::Done(Err(Error::Generic(String::from_str("unexpected answer to a session request")))),
            ),
        }
    }
}

} // verus!
