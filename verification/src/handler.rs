use crate::command::ServiceHandle;
use crate::output::ResponseOutput;
use vstd::prelude::*;

verus! {

/// What the user of the service implements to take the client's messages.
/// `Q` is the payload of a request, `N` that of a notification, and `S` the
/// sending end of a reply channel. Both methods are called from the reader
/// and have to return without waiting; a request may be answered later, or
/// never, by dropping `output`.
pub trait MessageHandler<Q, N, S> {
    /// Called with each request and the right to answer it.
    fn handle_request(&self, service: ServiceHandle, request: Q, output: ResponseOutput<S>);

    /// Called with each notification.
    fn handle_notification(&self, service: ServiceHandle, notification: N);
}

} // verus!
