use vstd::prelude::*;
use crate::outside::oneshot_send;

verus! {

/// Response callback for a request: the one-shot channel back to the caller.
#[must_use]
#[verifier::reject_recursive_types(T)]
pub struct GhostRespond<T: 'static + Send>(futures::channel::oneshot::Sender<(T, ())>, &'static str);

impl<T: 'static + Send> GhostRespond<T> {
    /// The trace label of the request.
    pub closed spec fn trace(&self) -> &'static str {
        self.1
    }

    /// The one-shot channel this callback answers on.
    pub closed spec fn sender(&self) -> futures::channel::oneshot::Sender<(T, ())> {
        self.0
    }

    /// A response callback over `sender`, labelled `trace`.
    pub fn new(sender: futures::channel::oneshot::Sender<(T, ())>, trace: &'static str) -> (r:
        GhostRespond<T>)
        ensures
            r.sender() == sender,
            r.trace() == trace,
    {
        GhostRespond(sender, trace)
    }

    /// Respond to the request with `t`. A caller that went away is no
    /// concern of the responder, so a refused send is dropped.
    pub fn respond(self, t: T) {
        let _ = oneshot_send(self.0, (t, ()));
    }

    /// A shortcut for `respond`.
    pub fn r(self, t: T) {
        self.respond(t);
    }
}

} // verus!
