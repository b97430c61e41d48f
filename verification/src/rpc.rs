use vstd::prelude::*;

verus! {

/// Error of an rpc channel.
#[derive(Debug)]
pub enum RpcChanError {
    /// Failed to send on the channel.
    SendError(futures::channel::mpsc::SendError),
    /// Failed to receive the response.
    ResponseError(futures::channel::oneshot::Canceled),
    /// Unspecified rpc channel error.
    Other(String),
}

/// Result type of rpc channel code.
pub type RpcChanResult<T> = Result<T, RpcChanError>;

/// Whether `e` is the `Other` rpc channel error whose message reads `message`.
pub open spec fn is_chan_other_with(e: RpcChanError, message: Seq<char>) -> bool {
    e matches RpcChanError::Other(m) && m@ == message
}

impl From<futures::channel::mpsc::SendError> for RpcChanError {
    fn from(e: futures::channel::mpsc::SendError) -> (r: RpcChanError)
        ensures
            r == RpcChanError::SendError(e),
    {
        RpcChanError::SendError(e)
    }
}

impl vstd::std_specs::convert::FromSpecImpl<futures::channel::mpsc::SendError> for RpcChanError {
    open spec fn obeys_from_spec() -> bool {
        true
    }

    open spec fn from_spec(v: futures::channel::mpsc::SendError) -> RpcChanError {
        RpcChanError::SendError(v)
    }
}

impl From<futures::channel::oneshot::Canceled> for RpcChanError {
    fn from(e: futures::channel::oneshot::Canceled) -> (r: RpcChanError)
        ensures
            r == RpcChanError::ResponseError(e),
    {
        RpcChanError::ResponseError(e)
    }
}

impl vstd::std_specs::convert::FromSpecImpl<futures::channel::oneshot::Canceled> for RpcChanError {
    open spec fn obeys_from_spec() -> bool {
        true
    }

    open spec fn from_spec(v: futures::channel::oneshot::Canceled) -> RpcChanError {
        RpcChanError::ResponseError(v)
    }
}

impl<'a> From<&'a str> for RpcChanError {
    fn from(s: &'a str) -> (r: RpcChanError)
        ensures
            is_chan_other_with(r, s@),
    {
        RpcChanError::Other(s.to_owned())
    }
}

impl<'a> vstd::std_specs::convert::FromSpecImpl<&'a str> for RpcChanError {
    open spec fn obeys_from_spec() -> bool {
        false
    }

    // No spec value of `String` is built from a `&str`; the conversion is
    // stated on `from` itself, over the message's characters.
    open spec fn from_spec(v: &'a str) -> RpcChanError {
        arbitrary()
    }
}

impl From<RpcChanError> for () {
    fn from(_e: RpcChanError) -> (u: ()) {
    }
}

impl vstd::std_specs::convert::FromSpecImpl<RpcChanError> for () {
    open spec fn obeys_from_spec() -> bool {
        true
    }

    open spec fn from_spec(v: RpcChanError) -> () {
        ()
    }
}

/// Error of an rpc enum channel.
#[derive(Debug)]
pub enum RpcEnumError {
    /// Failed to send on the channel.
    SendError(futures::channel::mpsc::SendError),
    /// Failed to receive the response.
    ResponseError(futures::channel::oneshot::Canceled),
    /// Unspecified rpc enum error.
    Other(String),
}

/// Result type of rpc enum code.
pub type RpcEnumResult<T> = Result<T, RpcEnumError>;

/// Whether `e` is the `Other` rpc enum error whose message reads `message`.
pub open spec fn is_enum_other_with(e: RpcEnumError, message: Seq<char>) -> bool {
    e matches RpcEnumError::Other(m) && m@ == message
}

impl From<futures::channel::mpsc::SendError> for RpcEnumError {
    fn from(e: futures::channel::mpsc::SendError) -> (r: RpcEnumError)
        ensures
            r == RpcEnumError::SendError(e),
    {
        RpcEnumError::SendError(e)
    }
}

impl vstd::std_specs::convert::FromSpecImpl<futures::channel::mpsc::SendError> for RpcEnumError {
    open spec fn obeys_from_spec() -> bool {
        true
    }

    open spec fn from_spec(v: futures::channel::mpsc::SendError) -> RpcEnumError {
        RpcEnumError::SendError(v)
    }
}

impl From<futures::channel::oneshot::Canceled> for RpcEnumError {
    fn from(e: futures::channel::oneshot::Canceled) -> (r: RpcEnumError)
        ensures
            r == RpcEnumError::ResponseError(e),
    {
        RpcEnumError::ResponseError(e)
    }
}

impl vstd::std_specs::convert::FromSpecImpl<futures::channel::oneshot::Canceled> for RpcEnumError {
    open spec fn obeys_from_spec() -> bool {
        true
    }

    open spec fn from_spec(v: futures::channel::oneshot::Canceled) -> RpcEnumError {
        RpcEnumError::ResponseError(v)
    }
}

impl<'a> From<&'a str> for RpcEnumError {
    fn from(s: &'a str) -> (r: RpcEnumError)
        ensures
            is_enum_other_with(r, s@),
    {
        RpcEnumError::Other(s.to_owned())
    }
}

impl<'a> vstd::std_specs::convert::FromSpecImpl<&'a str> for RpcEnumError {
    open spec fn obeys_from_spec() -> bool {
        false
    }

    // No spec value of `String` is built from a `&str`; the conversion is
    // stated on `from` itself, over the message's characters.
    open spec fn from_spec(v: &'a str) -> RpcEnumError {
        arbitrary()
    }
}

impl From<RpcEnumError> for () {
    fn from(_e: RpcEnumError) -> (u: ()) {
    }
}

impl vstd::std_specs::convert::FromSpecImpl<RpcEnumError> for () {
    open spec fn obeys_from_spec() -> bool {
        true
    }

    open spec fn from_spec(v: RpcEnumError) -> () {
        ()
    }
}

} // verus!
