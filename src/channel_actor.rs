use vstd::prelude::*;

use crate::channel::{views_of, Channel, Message};
use crate::errors::{Error, Result};
use crate::{UserId, ID};

verus! {

/// A request to a channel's state.
pub enum ChannelCommand {
    /// Record a message from `user`.
    AddMessage { user: UserId, content: String },
    /// List the channel's members.
    GetChannelUsers,
}

/// The answer to a [`ChannelCommand`], one variant for each request.
pub enum ChannelReply {
    AddMessage(Result<Message>),
    GetChannelUsers(Result<Vec<UserId>>),
}

/// The state owned by one channel's actor: its identity and, once it has
/// started, the channel itself.
pub struct ChannelActor {
    pub channel_id: ID,
    pub channel: Option<Channel>,
}

impl ChannelActor {
    /// Well-formedness: a started channel lists each member once.
    pub open spec fn wf(&self) -> bool {
        self.channel matches Some(c) ==> c.wf() && c.id == self.channel_id
    }

    /// The members of a started channel.
    pub open spec fn members(&self) -> Set<Seq<char>> {
        match self.channel {
            Some(c) => c.members(),
            None => Set::empty(),
        }
    }

    /// The state of a channel that has not started yet.
    pub fn new(channel_id: ID) -> (r: Self)
        ensures
            r.wf(),
            r.channel_id == channel_id,
            r.channel is None,
    {
        ChannelActor { channel_id, channel: None }
    }

    /// Starts the channel with its loaded or created information.
    pub fn on_start(&mut self, channel: Channel)
        requires
            old(self).wf(),
            channel.wf(),
            channel.id == old(self).channel_id,
        ensures
            final(self).wf(),
            final(self).channel_id == old(self).channel_id,
            final(self).channel == Some(channel),
    {
        self.channel = Some(channel);
    }

    /// Answers one request. A channel that has not started answers
    /// every request with `ChannelNotFound`.
    pub fn handle_message(&mut self, msg: ChannelCommand) -> (r: ChannelReply)
        requires
            old(self).wf(),
        ensures
            final(self).wf(),
            final(self).channel_id == old(self).channel_id,
            final(self).channel is Some == old(self).channel is Some,
            match msg {
                ChannelCommand::AddMessage { user, content } => match old(self).channel {
                    None => r == ChannelReply::AddMessage(Err(Error::ChannelNotFound))
                        && final(self).members() == old(self).members(),
                    Some(c) => r matches ChannelReply::AddMessage(Ok(m))
                        && m.channel_id == old(self).channel_id && m.sender@ == user@ && m.content@ == content@
                        && final(self).members() == old(self).members().insert(user@)
                        && (final(self).channel matches Some(c1) && c1.id == c.id && c1.name == c.name
                        && c1.description == c.description),
                },
                ChannelCommand::GetChannelUsers => *final(self) == *old(self) && match old(self).channel {
                    None => r == ChannelReply::GetChannelUsers(Err(Error::ChannelNotFound)),
                    Some(c) => r matches ChannelReply::GetChannelUsers(Ok(users))
                        && views_of(users@).no_duplicates() && views_of(users@).to_set() == c.members(),
                },
            },
    {
        match msg {
            ChannelCommand::AddMessage { user, content } => {
                match self.channel.as_mut() {
                    Some(c) => ChannelReply::AddMessage(c.add_message(user, content)),
                    None => ChannelReply::AddMessage(Err(Error::ChannelNotFound)),
                }
            },
            ChannelCommand::GetChannelUsers => {
                match self.channel.as_ref() {
                    Some(c) => ChannelReply::GetChannelUsers(Ok(c.member_list())),
                    None => ChannelReply::GetChannelUsers(Err(Error::ChannelNotFound)),
                }
            },
        }
    }
}

} // verus!
