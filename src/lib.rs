//! Message relay core: connection directory, channel directory and
//! per-channel state, each written as the state of an actor whose
//! transitions carry contracts.
use vstd::prelude::*;

pub mod channel;
pub mod channel_actor;
pub mod errors;
pub mod registry_actor;
pub mod server_actor;
pub mod websocket;

verus! {

/// Capacity of each actor's mailbox.
pub const MAX_MAILBOX_SIZE: usize = 1024;

/// Relative path of the folder in which channel information files are stored.
pub const CHANNEL_INFO_FOLDER: &'static str = "data/channels/info/";

/// Relative path of the folder in which channel data files are stored.
pub const CHANNEL_DATA_FOLDER: &'static str = "data/channels/data/";

/// A user is named by a free-form string chosen by the client.
pub type UserId = String;

/// Connection and channel identities are 128-bit values.
pub type ID = u128;

/// Draws a random identity.
/// Relies on uuid::Uuid::new_v4 and Uuid::as_u128: the bits are random but
/// for the version nibble, set to 4, and the two variant bits, set to `10`.
#[verifier::external_body]
pub fn new_id() -> (r: ID)
    ensures
        (r >> 76u128) & 0xfu128 == 4,
        (r >> 62u128) & 3u128 == 2,
{
    uuid::Uuid::new_v4().as_u128()
}

} // verus!
