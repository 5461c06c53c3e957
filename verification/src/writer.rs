use crate::error::ServiceError;
use crate::message::{Async, Disconnected, MessageEnvelope};
use vstd::prelude::*;

verus! {

/// Calls `std::io::Error::new` with the kind `Other` and the text given.
/// Nothing is claimed of the value.
#[verifier::external_body]
fn other_io_error(text: &str) -> std::io::Error {
    std::io::Error::new(std::io::ErrorKind::Other, text)
}

/// A frame carries a message bare: no header lines, and the message itself.
pub open spec fn carries<M>(frame: MessageEnvelope<M>, message: M) -> bool {
    frame.headers@.len() == 0 && frame.message == message
}

/// The frame that carries `message`.
pub fn envelope<M>(message: M) -> (frame: MessageEnvelope<M>)
    ensures
        carries(frame, message),
{
    MessageEnvelope { headers: Vec::new(), message }
}

/// Takes what the write queue yielded and says what the writer hands to
/// the transport: each message in its frame, the end of the queue as the
/// end of the frames, and a failed queue as an error of the transport's
/// kind.
pub fn next_frame<M>(polled: Result<Async<Option<M>>, Disconnected>) -> (frame: Result<
    Async<Option<MessageEnvelope<M>>>,
    std::io::Error,
>)
    ensures
        match polled {
            Ok(Async::Ready(Some(message))) => match frame {
                Ok(Async::Ready(Some(made))) => carries(made, message),
                _ => false,
            },
            Ok(Async::Ready(None)) => frame == Ok::<
                Async<Option<MessageEnvelope<M>>>,
                std::io::Error,
            >(Async::Ready(None)),
            Ok(Async::NotReady) => frame == Ok::<
                Async<Option<MessageEnvelope<M>>>,
                std::io::Error,
            >(Async::NotReady),
            Err(_) => frame.is_err(),
        },
{
    match polled {
        Ok(Async::Ready(Some(message))) => Ok(Async::Ready(Some(envelope(message)))),
        Ok(Async::Ready(None)) => Ok(Async::Ready(None)),
        Ok(Async::NotReady) => Ok(Async::NotReady),
        Err(_) => Err(other_io_error("Error reading from write queue.")),
    }
}

/// Takes what writing the frames to the transport came to: any failure is
/// a write error that holds it.
pub fn written(sent: Result<Async<()>, std::io::Error>) -> (done: Result<Async<()>, ServiceError>)
    ensures
        done == (match sent {
            Ok(progress) => Ok(progress),
            Err(error) => Err(ServiceError::WriteError(std::rc::Rc::new(error))),
        }),
{
    match sent {
        Ok(progress) => Ok(progress),
        Err(error) => Err(ServiceError::write_failure(error)),
    }
}

} // verus!
