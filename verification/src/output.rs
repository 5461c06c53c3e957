use crate::message::ResponseMessage;
use vstd::prelude::*;

verus! {

/// The right to answer one request, once. `S` is the sending end of that
/// request's one-shot reply channel. To answer is to give this value up
/// together with the message that completes the channel; a value that is
/// dropped unanswered cancels the request.
pub struct ResponseOutput<S> {
    pub request_id: i64,
    pub result_channel: S,
}

impl<S> ResponseOutput<S> {
    pub fn new(request_id: i64, result_channel: S) -> (output: Self)
        ensures
            output.request_id == request_id,
            output.result_channel == result_channel,
    {
        ResponseOutput { request_id, result_channel }
    }

    /// The successful answer, and the channel that it completes.
    pub fn send_result<R, E>(self, result: R) -> (sent: (S, ResponseMessage<R, E>))
        ensures
            sent.0 == self.result_channel,
            sent.1 == (ResponseMessage::<R, E> {
                id: self.request_id,
                result: Some(result),
                error: None,
            }),
            sent.1.is_answer(),
    {
        let ResponseOutput { request_id, result_channel } = self;
        (result_channel, ResponseMessage { id: request_id, result: Some(result), error: None })
    }

    /// The failed answer, and the channel that it completes.
    pub fn send_error<R, E>(self, error: E) -> (sent: (S, ResponseMessage<R, E>))
        ensures
            sent.0 == self.result_channel,
            sent.1 == (ResponseMessage::<R, E> {
                id: self.request_id,
                result: None,
                error: Some(error),
            }),
            sent.1.is_answer(),
    {
        let ResponseOutput { request_id, result_channel } = self;
        (result_channel, ResponseMessage { id: request_id, result: None, error: Some(error) })
    }
}

} // verus!
