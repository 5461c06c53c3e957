use crate::command::ServiceCommand;
use crate::error::ServiceError;
use crate::message::{
    Async, IncomingMessage, MessageEnvelope, NotificationMessage, OutgoingMessage,
    ResponseMessage,
};
use vstd::prelude::*;

verus! {

/// Room in the queue between the reader and the response writer.
pub const RESPONSE_QUEUE_CAPACITY: usize = 1024;

/// Room in the queue before the writer.
pub const WRITE_QUEUE_CAPACITY: usize = 1024;

/// Room in the queue before the command handler.
pub const COMMAND_QUEUE_CAPACITY: usize = 16;

/// The state of a one-shot reply channel.
pub enum Reply<R, E> {
    /// Nothing was sent and the producer is still there.
    Pending,
    /// The producer sent this answer.
    Answered(ResponseMessage<R, E>),
    /// The producer was dropped without an answer.
    Canceled,
}

/// The service as a whole: the shutdown signal, every reply channel made so
/// far (numbered in the order of their requests), what each task holds,
/// what waits in each queue, and the messages of the frames that the
/// transport has taken.
pub struct State<R, E, C> {
    pub signal: Option<Result<(), ServiceError>>,
    /// The ids of the requests read, in the order read.
    pub requests: Seq<i64>,
    /// The reply channel of each request.
    pub replies: Seq<Reply<R, E>>,
    /// How many reply channels the response writer is done with.
    pub consumed: nat,
    /// The reader's reply channel that waits for the response queue.
    pub waiting: Option<usize>,
    pub response_queue: Seq<usize>,
    /// The reply channel that the response writer waits on.
    pub awaited: Option<usize>,
    /// The response writer's message that waits for the write queue.
    pub response: Option<OutgoingMessage<R, E, C>>,
    /// The command handler's message that waits for the write queue.
    pub notification: Option<OutgoingMessage<R, E, C>>,
    pub write_queue: Seq<OutgoingMessage<R, E, C>>,
    pub command_queue: Seq<ServiceCommand<C>>,
    pub frames: Seq<OutgoingMessage<R, E, C>>,
}

/// The answers among `replies`, in their order.
pub open spec fn answers<R, E>(replies: Seq<Reply<R, E>>) -> Seq<ResponseMessage<R, E>>
    decreases replies.len(),
{
    if replies.len() == 0 {
        Seq::empty()
    } else {
        let before = answers(replies.drop_last());
        match replies.last() {
            Reply::Answered(message) => before.push(message),
            _ => before,
        }
    }
}

/// The ids among `requests` of those whose reply channel holds an answer,
/// in their order.
pub open spec fn answered<R, E>(requests: Seq<i64>, replies: Seq<Reply<R, E>>) -> Seq<i64>
    decreases replies.len(),
{
    if replies.len() == 0 || requests.len() != replies.len() {
        Seq::empty()
    } else {
        let before = answered(requests.drop_last(), replies.drop_last());
        match replies.last() {
            Reply::Answered(_) => before.push(requests.last()),
            _ => before,
        }
    }
}

/// The ids of a run of responses.
pub open spec fn ids<R, E>(messages: Seq<ResponseMessage<R, E>>) -> Seq<i64> {
    Seq::new(messages.len(), |i: int| messages[i].id)
}

/// The responses among `messages`, in their order.
pub open spec fn responses<R, E, C>(messages: Seq<OutgoingMessage<R, E, C>>) -> Seq<
    ResponseMessage<R, E>,
>
    decreases messages.len(),
{
    if messages.len() == 0 {
        Seq::empty()
    } else {
        let before = responses(messages.drop_last());
        match messages.last() {
            OutgoingMessage::Response(message) => before.push(message),
            _ => before,
        }
    }
}

/// The response in a slot, as a sequence of at most one.
pub open spec fn held_response<R, E, C>(slot: Option<OutgoingMessage<R, E, C>>) -> Seq<
    ResponseMessage<R, E>,
> {
    match slot {
        Some(OutgoingMessage::Response(message)) => seq![message],
        _ => Seq::empty(),
    }
}

impl<R, E, C> State<R, E, C> {
    pub open spec fn initial() -> Self {
        State {
            signal: None,
            requests: Seq::empty(),
            replies: Seq::empty(),
            consumed: 0,
            waiting: None,
            response_queue: Seq::empty(),
            awaited: None,
            response: None,
            notification: None,
            write_queue: Seq::empty(),
            command_queue: Seq::empty(),
            frames: Seq::empty(),
        }
    }

    /// The number of the first reply channel in the response queue.
    pub open spec fn queued_from(self) -> nat {
        if self.awaited.is_some() {
            self.consumed + 1
        } else {
            self.consumed
        }
    }

    /// What holds of the service at all times. The reply channels that are
    /// still under way are held in the order of their requests: first the
    /// one that the response writer waits on, then the response queue,
    /// then the one that the reader holds. The responses that have left the
    /// response writer are the answers of the channels it is done with, in
    /// the order of their requests. An answer bears the id of its request.
    pub open spec fn inv(self) -> bool {
        &&& self.consumed <= self.replies.len()
        &&& self.requests.len() == self.replies.len()
        &&& forall|i: int|
            0 <= i < self.replies.len() && (#[trigger] self.replies[i]) is Answered
                ==> self.replies[i]->Answered_0.id == self.requests[i]
        &&& forall|i: int| 0 <= i < self.consumed ==> !(#[trigger] self.replies[i] is Pending)
        &&& self.awaited.is_some() ==> self.awaited == Some(self.consumed as usize)
            && self.response.is_none()
        &&& forall|i: int|
            0 <= i < self.response_queue.len() ==> #[trigger] self.response_queue[i]
                == self.queued_from() + i
        &&& self.waiting.is_some() ==> self.waiting == Some(
            (self.queued_from() + self.response_queue.len()) as usize,
        )
        &&& self.replies.len() == self.queued_from() + self.response_queue.len() + (if self.waiting.is_some() {
            1nat
        } else {
            0nat
        })
        &&& self.replies.len() <= usize::MAX
        &&& self.notification.is_some() ==> self.notification->Some_0 is Notification
        &&& self.response_queue.len() <= RESPONSE_QUEUE_CAPACITY
        &&& self.write_queue.len() <= WRITE_QUEUE_CAPACITY
        &&& self.command_queue.len() <= COMMAND_QUEUE_CAPACITY
        &&& responses(self.frames) + responses(self.write_queue) + held_response(self.response)
            == answers(self.replies.take(self.consumed as int))
    }

    /// The reader holds a reply channel that the response queue has no room
    /// for.
    pub open spec fn reader_blocked(self) -> bool {
        self.waiting.is_some() && self.response_queue.len() >= RESPONSE_QUEUE_CAPACITY
    }

    /// The reader's reply channel moved into the response queue.
    pub open spec fn flushed(self) -> Self {
        match self.waiting {
            Some(channel) => State {
                waiting: None,
                response_queue: self.response_queue.push(channel),
                ..self
            },
            None => self,
        }
    }

    pub open spec fn failed(self, error: ServiceError) -> Self {
        State { signal: Some(Err(error)), ..self }
    }

    /// One turn of the reader, given what the transport yields. After a
    /// shutdown, and while it is blocked, the reader takes nothing.
    pub open spec fn read<Q, N>(
        self,
        polled: Result<Async<Option<MessageEnvelope<IncomingMessage<Q, N>>>>, std::io::Error>,
    ) -> Self {
        if self.signal.is_some() || self.reader_blocked() {
            self
        } else {
            let ready = self.flushed();
            match polled {
                Ok(Async::Ready(Some(frame))) => match frame.message {
                    IncomingMessage::Request(request) => State {
                        requests: ready.requests.push(request.id),
                        replies: ready.replies.push(Reply::Pending),
                        waiting: Some(ready.replies.len() as usize),
                        ..ready
                    },
                    IncomingMessage::Notification(_) => ready,
                    IncomingMessage::Response => ready.failed(ServiceError::Unknown),
                },
                Ok(Async::Ready(None)) => ready.failed(ServiceError::Unknown),
                Ok(Async::NotReady) => ready,
                Err(error) => ready.failed(ServiceError::ReadError(std::rc::Rc::new(error))),
            }
        }
    }

    /// One turn of the response writer: it looks at the reply it waits on,
    /// else offers its message to the write queue, else fetches the next
    /// reply channel.
    pub open spec fn forward(self) -> Self {
        if self.signal.is_some() {
            self
        } else {
            match self.awaited {
                Some(channel) => match self.replies[channel as int] {
                    Reply::Pending => self,
                    Reply::Answered(message) => State {
                        awaited: None,
                        response: Some(OutgoingMessage::Response(message)),
                        consumed: self.consumed + 1,
                        ..self
                    },
                    Reply::Canceled => State {
                        awaited: None,
                        consumed: self.consumed + 1,
                        ..self
                    },
                },
                None => match self.response {
                    Some(message) => if self.write_queue.len() < WRITE_QUEUE_CAPACITY {
                        State {
                            response: None,
                            write_queue: self.write_queue.push(message),
                            ..self
                        }
                    } else {
                        self
                    },
                    None => if self.response_queue.len() > 0 {
                        State {
                            awaited: Some(self.response_queue[0]),
                            response_queue: self.response_queue.subrange(
                                1,
                                self.response_queue.len() as int,
                            ),
                            ..self
                        }
                    } else {
                        self
                    },
                },
            }
        }
    }

    /// As many turns of the response writer, one after the other.
    pub open spec fn forward_times(self, turns: nat) -> Self
        decreases turns,
    {
        if turns == 0 {
            self
        } else {
            self.forward_times((turns - 1) as nat).forward()
        }
    }

    /// A bound on the turns that the response writer can take before it
    /// has to wait.
    pub open spec fn forward_bound(self) -> int {
        3 * (self.replies.len() - self.consumed) + (if self.awaited.is_some() {
            2int
        } else {
            3int
        }) + (if self.response.is_some() {
            1int
        } else {
            0int
        })
    }

    /// One turn of the command handler: it offers its notification to the
    /// write queue, else takes the next command.
    pub open spec fn command(self) -> Self {
        if self.signal.is_some() {
            self
        } else {
            match self.notification {
                Some(message) => if self.write_queue.len() < WRITE_QUEUE_CAPACITY {
                    State {
                        notification: None,
                        write_queue: self.write_queue.push(message),
                        ..self
                    }
                } else {
                    self
                },
                None => if self.command_queue.len() > 0 {
                    let rest = self.command_queue.subrange(1, self.command_queue.len() as int);
                    match self.command_queue[0] {
                        ServiceCommand::SendNotification(notification) => State {
                            notification: Some(
                                OutgoingMessage::Notification(
                                    NotificationMessage { method: notification },
                                ),
                            ),
                            command_queue: rest,
                            ..self
                        },
                        ServiceCommand::Shutdown => State {
                            signal: Some(Ok(())),
                            command_queue: rest,
                            ..self
                        },
                    }
                } else {
                    self
                },
            }
        }
    }

    /// As many turns of the command handler, one after the other.
    pub open spec fn command_times(self, turns: nat) -> Self
        decreases turns,
    {
        if turns == 0 {
            self
        } else {
            self.command_times((turns - 1) as nat).command()
        }
    }

    /// A bound on the turns that the command handler can take before it
    /// has to wait.
    pub open spec fn command_bound(self) -> int {
        2 * self.command_queue.len() + (if self.notification.is_some() {
            1int
        } else {
            0int
        })
    }

    /// The writer has written all that was in the write queue.
    pub open spec fn flushed_out(self) -> Self {
        if self.signal.is_some() {
            self
        } else {
            State { frames: self.frames + self.write_queue, write_queue: Seq::empty(), ..self }
        }
    }

    /// One turn of the writer, given what the transport says to the frame
    /// it is offered: the first message of the write queue is written, or
    /// the service ends with a write error.
    pub open spec fn write(self, transport: Result<(), std::io::Error>) -> Self {
        if self.signal.is_some() || self.write_queue.len() == 0 {
            self
        } else {
            let rest = self.write_queue.subrange(1, self.write_queue.len() as int);
            match transport {
                Ok(_) => State {
                    frames: self.frames.push(self.write_queue[0]),
                    write_queue: rest,
                    ..self
                },
                Err(error) => self.failed(ServiceError::WriteError(std::rc::Rc::new(error))),
            }
        }
    }

    /// A reply channel can still be completed or dropped.
    pub open spec fn open_channel(self, channel: usize) -> bool {
        channel < self.replies.len() && self.replies[channel as int] is Pending
    }

    /// A reply channel takes one outcome only, and no answer but one that
    /// bears the id of its request.
    pub open spec fn accepts(self, channel: usize, reply: Reply<R, E>) -> bool {
        self.open_channel(channel) && (reply is Answered ==> reply->Answered_0.id
            == self.requests[channel as int])
    }

    /// The producer of a reply channel sends an answer or is dropped.
    pub open spec fn resolve(self, channel: usize, reply: Reply<R, E>) -> Self {
        if self.accepts(channel, reply) {
            State { replies: self.replies.update(channel as int, reply), ..self }
        } else {
            self
        }
    }

    /// A command is put into the command queue, where there is room.
    pub open spec fn request(self, command: ServiceCommand<C>) -> Self {
        if self.command_queue.len() < COMMAND_QUEUE_CAPACITY {
            State { command_queue: self.command_queue.push(command), ..self }
        } else {
            self
        }
    }
}

} // verus!
