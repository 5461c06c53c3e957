use crate::error::ServiceError;
use crate::message::{Async, AsyncSink, Canceled, Disconnected, OutgoingMessage, ResponseMessage};
use vstd::prelude::*;

verus! {

/// The task that puts the replies in the order of their requests. It waits
/// for one reply at a time: `response_future` is the reading end it waits
/// on, `response` the message that waits for room in the write queue.
pub struct ResponseWriter<H, R, E, C> {
    pub response_future: Option<H>,
    pub response: Option<OutgoingMessage<R, E, C>>,
}

/// The outside work that the response writer asks for next.
pub enum ResponseAction<H, R, E, C> {
    /// Poll this reading end for its reply.
    PollReply(H),
    /// Offer this message to the write queue.
    Send(OutgoingMessage<R, E, C>),
    /// Poll the response queue for the next reading end.
    PollQueue,
}

impl<H, R, E, C> ResponseWriter<H, R, E, C> {
    pub fn new() -> (writer: Self)
        ensures
            writer.response_future.is_none(),
            writer.response.is_none(),
    {
        ResponseWriter { response_future: None, response: None }
    }

    /// The reply that is waited on comes first, then the message that waits
    /// for room; only with neither is the next reading end fetched.
    pub fn next_action(&mut self) -> (action: ResponseAction<H, R, E, C>)
        ensures
            match old(self).response_future {
                Some(waiting) => action == ResponseAction::<H, R, E, C>::PollReply(waiting)
                    && final(self).response_future.is_none() && final(self).response == old(self).response,
                None => match old(self).response {
                    Some(message) => action == ResponseAction::<H, R, E, C>::Send(message)
                        && final(self).response_future.is_none() && final(self).response.is_none(),
                    None => action == ResponseAction::<H, R, E, C>::PollQueue && *final(self)
                        == *old(self),
                },
            },
    {
        match self.response_future.take() {
            Some(waiting) => ResponseAction::PollReply(waiting),
            None => match self.response.take() {
                Some(message) => ResponseAction::Send(message),
                None => ResponseAction::PollQueue,
            },
        }
    }

    /// Takes what the response queue yielded. A queue that ended or failed
    /// is fatal.
    pub fn poll_for_response_future(polled: Result<Async<Option<H>>, Disconnected>) -> (next:
        Result<Async<H>, ServiceError>)
        ensures
            next == (match polled {
                Ok(Async::Ready(Some(response_future))) => Ok(Async::Ready(response_future)),
                Ok(Async::Ready(None)) => Err(ServiceError::Unknown),
                Ok(Async::NotReady) => Ok(Async::NotReady),
                Err(_) => Err(ServiceError::Unknown),
            }),
    {
        match polled {
            Ok(Async::Ready(Some(response_future))) => Ok(Async::Ready(response_future)),
            Ok(Async::Ready(None)) => Err(ServiceError::Unknown),
            Ok(Async::NotReady) => Ok(Async::NotReady),
            Err(_) => Err(ServiceError::Unknown),
        }
    }

    /// The reading end fetched from the response queue is waited on next.
    pub fn await_reply(&mut self, response_future: H)
        ensures
            final(self).response_future == Some(response_future),
            final(self).response == old(self).response,
    {
        self.response_future = Some(response_future);
    }

    /// Takes what `response_future` yielded when polled. A reply becomes the
    /// message to write. A reply that is not there yet is waited on again. A
    /// producer that was dropped has cancelled its request: nothing is
    /// written for it and the task goes on.
    pub fn poll_for_response(
        &mut self,
        response_future: H,
        polled: Result<Async<ResponseMessage<R, E>>, Canceled>,
    ) -> (done: Result<Async<()>, ServiceError>)
        ensures
            match polled {
                Ok(Async::Ready(response)) => done == Ok::<Async<()>, ServiceError>(
                    Async::Ready(()),
                ) && final(self).response == Some(OutgoingMessage::<R, E, C>::Response(response))
                    && final(self).response_future == old(self).response_future,
                Ok(Async::NotReady) => done == Ok::<Async<()>, ServiceError>(Async::NotReady)
                    && final(self).response == old(self).response && final(self).response_future
                    == Some(response_future),
                Err(_) => done == Ok::<Async<()>, ServiceError>(Async::Ready(())) && *final(self)
                    == *old(self),
            },
    {
        match polled {
            Ok(Async::Ready(response)) => {
                self.response = Some(OutgoingMessage::Response(response));
                Ok(Async::Ready(()))
            },
            Ok(Async::NotReady) => {
                self.response_future = Some(response_future);
                Ok(Async::NotReady)
            },
            Err(_) => Ok(Async::Ready(())),
        }
    }

    /// Takes the write queue's answer to an offer. A full queue hands the
    /// message back: it waits again and the task suspends. A queue whose
    /// consumer is gone is fatal.
    pub fn write_response(
        &mut self,
        sent: Result<AsyncSink<OutgoingMessage<R, E, C>>, Disconnected>,
    ) -> (done: Result<Async<()>, ServiceError>)
        ensures
            final(self).response_future == old(self).response_future,
            match sent {
                Ok(AsyncSink::Ready) => done == Ok::<Async<()>, ServiceError>(Async::Ready(()))
                    && final(self).response == old(self).response,
                Ok(AsyncSink::NotReady(returned)) => done == Ok::<Async<()>, ServiceError>(
                    Async::NotReady,
                ) && final(self).response == Some(returned),
                Err(_) => done == Err::<Async<()>, ServiceError>(ServiceError::Unknown) && final(self).response == old(self).response,
            },
    {
        match sent {
            Ok(AsyncSink::Ready) => Ok(Async::Ready(())),
            Ok(AsyncSink::NotReady(returned)) => {
                self.response = Some(returned);
                Ok(Async::NotReady)
            },
            Err(_) => Err(ServiceError::Unknown),
        }
    }
}

} // verus!
