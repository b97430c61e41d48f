use vstd::prelude::*;

verus! {

/// The error type of the actor machinery.
#[derive(Debug, Clone, PartialEq, Eq)]
#[non_exhaustive]
pub enum GhostError {
    /// The actor on the other end of a channel is gone.
    Disconnected,
    /// Sending an event did not complete in time.
    Timeout,
    /// Any other failure, carried by its message.
    Other(String),
}

/// A result whose error is a `GhostError`.
pub type GhostResult<T> = Result<T, GhostError>;

/// The successful unit result.
pub open spec fn ghost_ok() -> GhostResult<()> {
    Ok(())
}

/// What an untimed send on a channel can come to: success, or
/// `Disconnected` when the channel refused the item.
pub open spec fn is_send_result(r: GhostResult<()>) -> bool {
    r == ghost_ok() || r == Err::<(), GhostError>(GhostError::Disconnected)
}

/// The message of an error, as the error's display shows it.
pub open spec fn ghost_error_text(e: GhostError) -> Seq<char> {
    match e {
        GhostError::Disconnected => "GhostActorDisconnected"@,
        GhostError::Timeout => "Timeout"@,
        GhostError::Other(m) => m@,
    }
}

impl GhostError {
    /// The message of this error: `GhostActorDisconnected`, `Timeout`, or
    /// the message an `Other` error carries.
    pub fn to_string(&self) -> (s: String)
        ensures
            s@ == ghost_error_text(*self),
    {
        match self {
            GhostError::Disconnected => "GhostActorDisconnected".to_owned(),
            GhostError::Timeout => "Timeout".to_owned(),
            GhostError::Other(m) => m.clone(),
        }
    }

    /// Builds the `Other` variant from a failure's message.
    pub fn other(message: String) -> (e: GhostError)
        ensures
            e == GhostError::Other(message),
    {
        GhostError::Other(message)
    }
}

/// Whether `e` is the `Other` error whose message reads `message`.
pub open spec fn is_other_with(e: GhostError, message: Seq<char>) -> bool {
    e matches GhostError::Other(m) && m@ == message
}

impl<'a> From<&'a str> for GhostError {
    fn from(s: &'a str) -> (e: GhostError)
        ensures
            is_other_with(e, s@),
    {
        GhostError::Other(s.to_owned())
    }
}

impl<'a> vstd::std_specs::convert::FromSpecImpl<&'a str> for GhostError {
    open spec fn obeys_from_spec() -> bool {
        false
    }

    // No spec value of `String` is built from a `&str`; the conversion is
    // stated on `from` itself, over the message's characters.
    open spec fn from_spec(v: &'a str) -> GhostError {
        arbitrary()
    }
}

impl From<String> for GhostError {
    fn from(s: String) -> (e: GhostError)
        ensures
            e == GhostError::Other(s),
    {
        GhostError::Other(s)
    }
}

impl vstd::std_specs::convert::FromSpecImpl<String> for GhostError {
    open spec fn obeys_from_spec() -> bool {
        true
    }

    open spec fn from_spec(v: String) -> GhostError {
        GhostError::Other(v)
    }
}

} // verus!

verus! {

impl From<futures::channel::mpsc::SendError> for GhostError {
    fn from(_e: futures::channel::mpsc::SendError) -> (e: GhostError) {
        GhostError::Disconnected
    }
}

impl vstd::std_specs::convert::FromSpecImpl<futures::channel::mpsc::SendError> for GhostError {
    open spec fn obeys_from_spec() -> bool {
        true
    }

    open spec fn from_spec(v: futures::channel::mpsc::SendError) -> GhostError {
        GhostError::Disconnected
    }
}

impl From<futures::channel::oneshot::Canceled> for GhostError {
    fn from(_e: futures::channel::oneshot::Canceled) -> (e: GhostError) {
        GhostError::Disconnected
    }
}

impl vstd::std_specs::convert::FromSpecImpl<futures::channel::oneshot::Canceled> for GhostError {
    open spec fn obeys_from_spec() -> bool {
        true
    }

    open spec fn from_spec(v: futures::channel::oneshot::Canceled) -> GhostError {
        GhostError::Disconnected
    }
}

impl From<GhostError> for () {
    fn from(_e: GhostError) -> (u: ()) {
    }
}

impl vstd::std_specs::convert::FromSpecImpl<GhostError> for () {
    open spec fn obeys_from_spec() -> bool {
        true
    }

    open spec fn from_spec(v: GhostError) -> () {
        ()
    }
}

} // verus!
