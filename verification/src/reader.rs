use crate::error::ServiceError;
use crate::message::{Async, AsyncSink, Disconnected, IncomingMessage, MessageEnvelope};
use vstd::prelude::*;

verus! {

/// The task that reads the client's messages. `H` is the reading end of a
/// request's one-shot reply channel. After a request has been handed to the
/// handler, the reading end of its reply waits in `current_request` until
/// the response queue has taken it; nothing is read before that.
pub struct MessageReader<H> {
    pub current_request: Option<H>,
}

/// The outside work that the reader asks for next.
pub enum ReaderAction<H> {
    /// Offer this reading end to the response queue.
    Enqueue(H),
    /// Poll the transport for the next message.
    Read,
}

/// What the handler is called with for a message.
pub enum Dispatch<Q, N> {
    /// `handle_request`, with a fresh reply channel made for `id`.
    Request(i64, Q),
    /// `handle_notification`.
    Notification(N),
}

impl<H> MessageReader<H> {
    pub fn new() -> (reader: Self)
        ensures
            reader.current_request.is_none(),
    {
        MessageReader { current_request: None }
    }

    /// A reading end that waits is offered to the response queue before
    /// anything else is read.
    pub fn next_action(&mut self) -> (action: ReaderAction<H>)
        ensures
            final(self).current_request.is_none(),
            action == (match old(self).current_request {
                Some(waiting) => ReaderAction::Enqueue(waiting),
                None => ReaderAction::Read,
            }),
    {
        match self.current_request.take() {
            Some(waiting) => ReaderAction::Enqueue(waiting),
            None => ReaderAction::Read,
        }
    }

    /// Takes the response queue's answer to an offer. A full queue hands
    /// the reading end back: it waits again and the task suspends. A queue
    /// whose consumer is gone is fatal.
    pub fn push_response_future(&mut self, sent: Result<AsyncSink<H>, Disconnected>) -> (polled:
        Result<Async<()>, ServiceError>)
        ensures
            match sent {
                Ok(AsyncSink::Ready) => polled == Ok::<Async<()>, ServiceError>(Async::Ready(()))
                    && final(self).current_request == old(self).current_request,
                Ok(AsyncSink::NotReady(returned)) => polled == Ok::<Async<()>, ServiceError>(
                    Async::NotReady,
                ) && final(self).current_request == Some(returned),
                Err(_) => polled == Err::<Async<()>, ServiceError>(ServiceError::Unknown)
                    && final(self).current_request == old(self).current_request,
            },
    {
        match sent {
            Ok(AsyncSink::Ready) => Ok(Async::Ready(())),
            Ok(AsyncSink::NotReady(returned)) => {
                self.current_request = Some(returned);
                Ok(Async::NotReady)
            },
            Err(_) => Err(ServiceError::Unknown),
        }
    }

    /// Takes what the transport yielded: a frame gives its message, the end
    /// of the stream is the loss of the peer, a failed read is a read error.
    pub fn next_message<Q, N>(
        polled: Result<Async<Option<MessageEnvelope<IncomingMessage<Q, N>>>>, std::io::Error>,
    ) -> (message: Result<Async<IncomingMessage<Q, N>>, ServiceError>)
        ensures
            message == (match polled {
                Ok(Async::Ready(Some(frame))) => Ok(Async::Ready(frame.message)),
                Ok(Async::Ready(None)) => Err(ServiceError::Unknown),
                Ok(Async::NotReady) => Ok(Async::NotReady),
                Err(error) => Err(ServiceError::ReadError(std::rc::Rc::new(error))),
            }),
    {
        match polled {
            Ok(Async::Ready(Some(frame))) => Ok(Async::Ready(frame.message)),
            Ok(Async::Ready(None)) => Err(ServiceError::Unknown),
            Ok(Async::NotReady) => Ok(Async::NotReady),
            Err(error) => Err(ServiceError::read_failure(error)),
        }
    }

    /// Which call of the handler a message leads to. The service issues no
    /// requests of its own, so an answer from the client is fatal.
    pub fn dispatch<Q, N>(message: IncomingMessage<Q, N>) -> (call: Result<
        Dispatch<Q, N>,
        ServiceError,
    >)
        ensures
            call == (match message {
                IncomingMessage::Request(request) => Ok(
                    Dispatch::Request(request.id, request.method),
                ),
                IncomingMessage::Notification(notification) => Ok(
                    Dispatch::Notification(notification.method),
                ),
                IncomingMessage::Response => Err(ServiceError::Unknown),
            }),
    {
        match message {
            IncomingMessage::Request(request) => Ok(
                Dispatch::Request(request.id, request.method),
            ),
            IncomingMessage::Notification(notification) => Ok(
                Dispatch::Notification(notification.method),
            ),
            IncomingMessage::Response => Err(ServiceError::Unknown),
        }
    }

    /// After the handler was called with a request: the reading end of its
    /// reply waits for the response queue.
    pub fn request_dispatched(&mut self, response_read: H)
        ensures
            final(self).current_request == Some(response_read),
    {
        self.current_request = Some(response_read);
    }
}

} // verus!
