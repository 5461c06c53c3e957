use vstd::prelude::*;

verus! {

/// Outcome of asking a source for a value without waiting.
pub enum Async<T> {
    Ready(T),
    NotReady,
}

/// Outcome of offering a value to a bounded queue without waiting: taken, or
/// handed back because the queue is full.
pub enum AsyncSink<T> {
    Ready,
    NotReady(T),
}

/// A queue end reported that its other end is gone.
#[derive(Clone, Copy)]
pub struct Disconnected;

/// The producer of a one-shot reply was dropped before it sent a value.
#[derive(Clone, Copy)]
pub struct Canceled;

/// A message received from the client. `Q` is the payload of a request and
/// `N` that of a notification.
pub enum IncomingMessage<Q, N> {
    Request(RequestMessage<Q>),
    Notification(NotificationMessage<N>),
    /// An answer to a request of the server, which the service never issues.
    Response,
}

pub struct RequestMessage<Q> {
    pub id: i64,
    pub method: Q,
}

pub struct NotificationMessage<N> {
    pub method: N,
}

/// The answer to one request: `result` on success, `error` on failure.
pub struct ResponseMessage<R, E> {
    pub id: i64,
    pub result: Option<R>,
    pub error: Option<E>,
}

impl<R, E> ResponseMessage<R, E> {
    /// An answer holds a result or an error, and not both.
    pub open spec fn is_answer(self) -> bool {
        self.result.is_some() != self.error.is_some()
    }
}

/// A message for the client: the answer to a request, or a notification
/// with payload `C`.
pub enum OutgoingMessage<R, E, C> {
    Response(ResponseMessage<R, E>),
    Notification(NotificationMessage<C>),
}

/// A frame as the codec takes it: header lines and the message.
pub struct MessageEnvelope<M> {
    pub headers: Vec<(String, String)>,
    pub message: M,
}

} // verus!
