use vstd::prelude::*;

use crate::errors::{Error, Result};
use crate::{new_id, UserId, CHANNEL_DATA_FOLDER, CHANNEL_INFO_FOLDER, ID};

verus! {

/// The lower-case hexadecimal digit of `d`, for `d < 16`.
pub open spec fn hex_digit(d: nat) -> char {
    if d < 10 {
        ((d + 48) as u8) as char
    } else {
        ((d + 87) as u8) as char
    }
}

/// `n` written in lower-case hexadecimal, without leading zeros.
pub open spec fn hex_digits(n: nat) -> Seq<char>
    decreases n,
{
    if n < 16 {
        seq![hex_digit(n)]
    } else {
        hex_digits(n / 16).push(hex_digit(n % 16))
    }
}

/// Relies on std's `{:x}` formatting of `u128`: lower-case hexadecimal
/// digits, without prefix or leading zeros.
#[verifier::external_body]
fn hex_text(n: u128) -> (r: String)
    ensures
        r@ == hex_digits(n as nat),
{
    format!("{:x}", n)
}

/// Relies on chrono::Utc::now and DateTime::timestamp_millis: the current
/// time in milliseconds since the Unix epoch. `Utc::now` panics on a clock
/// set before the epoch, so what it returns is never negative.
#[verifier::external_body]
fn now_millis() -> (r: i64)
    ensures
        r >= 0,
{
    chrono::Utc::now().timestamp_millis()
}

/// The string views of a list of users.
pub open spec fn views_of(users: Seq<UserId>) -> Seq<Seq<char>> {
    users.map_values(|u: UserId| u@)
}

/// A conversation group and its members.
#[derive(Debug, Clone)]
pub struct Channel {
    pub id: ID,
    pub name: String,
    pub description: String,
    pub users: Vec<UserId>,
}

impl Channel {
    /// The channel's members.
    pub open spec fn members(&self) -> Set<Seq<char>> {
        views_of(self.users@).to_set()
    }

    /// No member is listed twice.
    pub open spec fn wf(&self) -> bool {
        views_of(self.users@).no_duplicates()
    }

    /// A channel with no description and no members.
    pub fn new(id: ID, name: String) -> (r: Self)
        ensures
            r.wf(),
            r.id == id,
            r.name@ == name@,
            r.description@.len() == 0,
            r.users@.len() == 0,
    {
        Channel { id, name, description: String::new(), users: Vec::new() }
    }

    /// A channel with the given members, each kept once.
    pub fn with_members(id: ID, name: String, description: String, users: Vec<UserId>) -> (r: Self)
        ensures
            r.wf(),
            r.id == id,
            r.name@ == name@,
            r.description@ == description@,
            r.members() == views_of(users@).to_set(),
    {
        let mut c = Channel { id, name, description, users: Vec::new() };
        let mut i: usize = 0;
        while i < users.len()
            invariant
                c.wf(),
                c.id == id,
                c.name@ == name@,
                c.description@ == description@,
                i <= users@.len(),
                c.members() == views_of(users@.subrange(0, i as int)).to_set(),
            decreases users@.len() - i,
        {
            c.join(users[i].clone());
            proof {
                let s = users@.subrange(0, i as int);
                assert(users@.subrange(0, i + 1) =~= s.push(users@[i as int]));
                assert(views_of(s.push(users@[i as int])) =~= views_of(s).push(users@[i as int]@));
                views_of(s).lemma_push_to_set_commute(users@[i as int]@);
            }
            i += 1;
        }
        assert(users@.subrange(0, users@.len() as int) =~= users@);
        c
    }

    /// The name given to a channel that is created rather than loaded.
    pub fn default_name(id: ID) -> (r: String)
        ensures
            r@ == "Channel #"@ + hex_digits(id as nat),
    {
        String::from_str("Channel #").concat(hex_text(id).as_str())
    }

    /// Where the channel's message data is kept.
    pub fn get_data_path(&self) -> (r: String)
        ensures
            r@ == CHANNEL_DATA_FOLDER@ + "/"@ + hex_digits(self.id as nat),
    {
        String::from_str(CHANNEL_DATA_FOLDER).concat("/").concat(hex_text(self.id).as_str())
    }

    /// Where the channel's information is kept.
    pub fn get_info_path(&self) -> (r: String)
        ensures
            r@ == CHANNEL_INFO_FOLDER@ + hex_digits(self.id as nat),
    {
        String::from_str(CHANNEL_INFO_FOLDER).concat(hex_text(self.id).as_str())
    }

    /// Whether `user` is a member.
    pub fn has_member(&self, user: &UserId) -> (r: bool)
        ensures
            r == self.members().contains(user@),
    {
        let mut i: usize = 0;
        while i < self.users.len()
            invariant
                i <= self.users@.len(),
                forall|k: int| 0 <= k < i ==> #[trigger] self.users@[k]@ != user@,
            decreases self.users@.len() - i,
        {
            if self.users[i] == *user {
                assert(views_of(self.users@)[i as int] == user@);
                return true;
            }
            i += 1;
        }
        proof {
            if views_of(self.users@).contains(user@) {
                let k = choose|k: int| 0 <= k < self.users@.len() && views_of(self.users@)[k] == user@;
                assert(self.users@[k]@ == user@);
            }
        }
        false
    }

    /// A copy of the member list, each member once.
    pub fn member_list(&self) -> (r: Vec<UserId>)
        requires
            self.wf(),
        ensures
            r@ == self.users@,
            views_of(r@).no_duplicates(),
            views_of(r@).to_set() == self.members(),
    {
        let mut r: Vec<UserId> = Vec::new();
        let mut i: usize = 0;
        while i < self.users.len()
            invariant
                i <= self.users@.len(),
                r@ == self.users@.subrange(0, i as int),
            decreases self.users@.len() - i,
        {
            r.push(self.users[i].clone());
            i += 1;
        }
        assert(r@ =~= self.users@);
        r
    }

    /// Adds `user` to the members, if not there yet.
    fn join(&mut self, user: UserId)
        requires
            old(self).wf(),
        ensures
            final(self).wf(),
            final(self).id == old(self).id,
            final(self).name == old(self).name,
            final(self).description == old(self).description,
            final(self).members() == old(self).members().insert(user@),
    {
        if !self.has_member(&user) {
            let ghost before = views_of(self.users@);
            let ghost u = user@;
            self.users.push(user);
            assert(views_of(self.users@) =~= before.push(u));
            proof { before.lemma_push_to_set_commute(u); }
        } else {
            assert(self.members().insert(user@) =~= self.members());
        }
    }

    /// Records a message from `user`. Its author becomes a member; the
    /// message log itself is not written here.
    pub fn add_message(&mut self, user: UserId, content: String) -> (r: Result<Message>)
        requires
            old(self).wf(),
        ensures
            final(self).wf(),
            final(self).id == old(self).id,
            final(self).name == old(self).name,
            final(self).description == old(self).description,
            final(self).members() == old(self).members().insert(user@),
            r is Ok,
            r matches Ok(m) && m.channel_id == old(self).id && m.sender@ == user@ && m.content@ == content@,
    {
        let m = Message::new(self.id, user.clone(), content);
        self.join(user);
        Ok(m)
    }
}

/// A message of a channel. `created` counts milliseconds since the Unix epoch (UTC).
#[derive(Debug, Clone)]
pub struct Message {
    pub id: ID,
    pub channel_id: ID,
    pub sender: UserId,
    pub created: i64,
    pub content: String,
}

impl Message {
    /// A message with a fresh identity, stamped with the current time.
    pub fn new(channel_id: ID, sender: UserId, content: String) -> (r: Self)
        ensures
            r.channel_id == channel_id,
            r.sender@ == sender@,
            r.content@ == content@,
            r.created >= 0,
    {
        Message { id: new_id(), channel_id, sender, created: now_millis(), content }
    }
}

/// What to do with the outcome of loading a channel's information.
pub enum LoadStep {
    /// The channel was loaded: use it.
    Loaded(Channel),
    /// No channel was stored: save this new one, then use it.
    Create(Channel),
    /// Loading failed: report the error.
    Failed(Error),
}

impl Channel {
    /// Decides, from what loading `channel_id` gave, whether the channel is
    /// used as loaded, created afresh (when none was stored), or the error reported.
    pub fn load_or_create(channel_id: ID, loaded: Result<Channel>) -> (r: LoadStep)
        ensures
            match loaded {
                Ok(c) => r == LoadStep::Loaded(c),
                Err(Error::ChannelNotFound) => r matches LoadStep::Create(c) && c.wf() && c.id == channel_id
                    && c.name@ == "Channel #"@ + hex_digits(channel_id as nat)
                    && c.description@.len() == 0 && c.users@.len() == 0,
                Err(e) => r == LoadStep::Failed(e),
            },
    {
        match loaded {
            Ok(c) => LoadStep::Loaded(c),
            Err(Error::ChannelNotFound) => LoadStep::Create(Channel::new(channel_id, Channel::default_name(channel_id))),
            Err(e) => LoadStep::Failed(e),
        }
    }
}

} // verus!
