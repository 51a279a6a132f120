use vstd::prelude::*;

verus! {

/// Errors of the relay core.
#[derive(Debug, Clone, PartialEq, Eq)]
pub enum Error {
    /// The channel does not exist, or its state never came up.
    ChannelNotFound,
    /// The connection identity is not registered.
    ConnectionNotFound,
    /// An actor stopped before it answered.
    ActorUnexpectedTermination,
    /// Channel metadata could not be read or written.
    Storage(String),
    /// A client frame could not be decoded.
    Protocol(String),
    /// Any other failure, described in words.
    Generic(String),
}

impl From<String> for Error {
    fn from(s: String) -> (r: Self)
        ensures
            r == Error::Generic(s),
    {
        Error::Generic(s)
    }
}

impl vstd::std_specs::convert::FromSpecImpl<String> for Error {
    open spec fn obeys_from_spec() -> bool {
        true
    }

    open spec fn from_spec(s: String) -> Self {
        Error::Generic(s)
    }
}

/// General result type of the relay core.
pub type Result<T = (), E = Error> = core::result::Result<T, E>;

} // verus!
