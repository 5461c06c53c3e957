use crate::message::ResponseMessage;
use crate::output::ResponseOutput;
use futures::sync::oneshot::{Receiver, Sender};
use vstd::prelude::*;

verus! {

/// The sending end of a one-shot channel of the futures crate, carried
/// through unread.
#[verifier::external_type_specification]
#[verifier::external_body]
#[verifier::reject_recursive_types(T)]
pub struct ExSender<T>(Sender<T>);

/// The receiving end of a one-shot channel of the futures crate, carried
/// through unread.
#[verifier::external_type_specification]
#[verifier::external_body]
#[verifier::reject_recursive_types(T)]
pub struct ExReceiver<T>(Receiver<T>);

/// Calls `futures::sync::oneshot::channel`, which makes the two ends of a
/// fresh channel. Nothing is claimed of them.
#[verifier::external_body]
fn one_shot<T>() -> (ends: (Sender<T>, Receiver<T>)) {
    futures::sync::oneshot::channel()
}

/// Calls `futures::sync::oneshot::Sender::send`, which gives the sending end
/// up. Where the receiving end is gone the value comes back as it was;
/// whether it is gone is not for this side to know.
#[verifier::external_body]
fn send_once<T>(sender: Sender<T>, value: T) -> (sent: Result<(), T>)
    ensures
        match sent {
            Ok(_) => true,
            Err(returned) => returned == value,
        },
{
    sender.send(value)
}

/// Opens the reply channel of the request `id`: the right to answer it,
/// which goes to the handler, and the receiving end, which goes to the
/// response queue.
pub fn open_reply<R, E>(id: i64) -> (opened: (
    ResponseOutput<Sender<ResponseMessage<R, E>>>,
    Receiver<ResponseMessage<R, E>>,
))
    ensures
        opened.0.request_id == id,
{
    let (sender, receiver) = one_shot();
    (ResponseOutput::new(id, sender), receiver)
}

/// Answers a request over its reply channel with a result. Where the
/// receiving end is gone, the answer that nobody took comes back.
pub fn reply_result<R, E>(output: ResponseOutput<Sender<ResponseMessage<R, E>>>, result: R) -> (lost:
    Option<ResponseMessage<R, E>>)
    ensures
        lost.is_some() ==> lost == Some(
            ResponseMessage::<R, E> { id: output.request_id, result: Some(result), error: None },
        ),
{
    let (sender, message) = output.send_result(result);
    let sent = send_once(sender, message);
    unsent(sent)
}

/// Answers a request over its reply channel with an error. Where the
/// receiving end is gone, the answer that nobody took comes back. Whether
/// that end is gone is decided outside; `unsent` says what is returned
/// either way.
pub fn reply_error<R, E>(output: ResponseOutput<Sender<ResponseMessage<R, E>>>, error: E) -> (lost:
    Option<ResponseMessage<R, E>>)
    ensures
        lost.is_some() ==> lost == Some(
            ResponseMessage::<R, E> { id: output.request_id, result: None, error: Some(error) },
        ),
{
    let (sender, message) = output.send_error(error);
    let sent = send_once(sender, message);
    unsent(sent)
}

/// What is left of an answer once its reply channel has spoken: nothing
/// where the channel took it, the answer itself where the channel handed it
/// back.
pub fn unsent<R, E>(sent: Result<(), ResponseMessage<R, E>>) -> (lost: Option<
    ResponseMessage<R, E>,
>)
    ensures
        lost == (match sent {
            Ok(_) => None::<ResponseMessage<R, E>>,
            Err(returned) => Some(returned),
        }),
{
    match sent {
        Ok(_) => None,
        Err(returned) => Some(returned),
    }
}

} // verus!
