use crate::command::{CommandAction, CommandHandler, ServiceCommand, ServiceHandle};
use crate::error::ServiceError;
use crate::message::{
    Async, AsyncSink, Canceled, Disconnected, IncomingMessage, MessageEnvelope, OutgoingMessage,
    ResponseMessage,
};
use crate::order::{
    lemma_command_keeps_inv, lemma_command_progress, lemma_forward_keeps_inv,
    lemma_forward_progress, lemma_initial_inv, lemma_read_keeps_inv, lemma_request_keeps_inv,
    lemma_resolve_keeps_inv, lemma_write_keeps_inv,
};
use crate::handler::MessageHandler;
use crate::output::ResponseOutput;
use crate::reader::{Dispatch, MessageReader, ReaderAction};
use crate::response_writer::{ResponseAction, ResponseWriter};
use crate::shutdown::{Service, ShutdownFuture};
use crate::state::{
    Reply, State, COMMAND_QUEUE_CAPACITY, RESPONSE_QUEUE_CAPACITY, WRITE_QUEUE_CAPACITY,
};
use crate::writer::{next_frame, written};
use std::collections::VecDeque;
use vstd::prelude::*;

verus! {

/// Offers an item to a bounded queue: taken where there is room, handed
/// back where there is none.
fn offer<T>(queue: &mut VecDeque<T>, capacity: usize, item: T) -> (sent: Result<
    AsyncSink<T>,
    Disconnected,
>)
    ensures
        old(queue)@.len() < capacity ==> sent == Ok::<AsyncSink<T>, Disconnected>(
            AsyncSink::Ready,
        ) && final(queue)@ == old(queue)@.push(item),
        old(queue)@.len() >= capacity ==> sent == Ok::<AsyncSink<T>, Disconnected>(
            AsyncSink::NotReady(item),
        ) && final(queue)@ == old(queue)@,
{
    if queue.len() < capacity {
        queue.push_back(item);
        Ok(AsyncSink::Ready)
    } else {
        Ok(AsyncSink::NotReady(item))
    }
}

/// Asks a queue for its first item.
fn fetch<T>(queue: &mut VecDeque<T>) -> (polled: Result<Async<Option<T>>, Disconnected>)
    ensures
        old(queue)@.len() > 0 ==> polled == Ok::<Async<Option<T>>, Disconnected>(
            Async::Ready(Some(old(queue)@[0])),
        ) && final(queue)@ == old(queue)@.subrange(1, old(queue)@.len() as int),
        old(queue)@.len() == 0 ==> polled == Ok::<Async<Option<T>>, Disconnected>(
            Async::NotReady,
        ) && final(queue)@ == old(queue)@,
{
    match queue.pop_front() {
        Some(item) => Ok(Async::Ready(Some(item))),
        None => Ok(Async::NotReady),
    }
}

/// What a turn of the reader came to.
pub enum ReaderOutcome<Q, N> {
    /// The service is shut down: nothing was taken, and what the transport
    /// yielded comes back.
    Stopped(Result<Async<Option<MessageEnvelope<IncomingMessage<Q, N>>>>, std::io::Error>),
    /// The response queue is full: nothing was taken, and what the
    /// transport yielded comes back.
    Blocked(Result<Async<Option<MessageEnvelope<IncomingMessage<Q, N>>>>, std::io::Error>),
    /// The transport had no message.
    Idle,
    /// A request for the handler, with the right to answer it.
    Request(Q, ResponseOutput<usize>),
    /// A notification for the handler.
    Notification(N),
    /// The reader failed and the service is shut down.
    Failed,
}

/// The four tasks with their queues in memory, run one turn at a time. A
/// reply channel is a number: the position of its request among the
/// requests read.
pub struct Pipeline<R, E, C> {
    service: Service,
    reader: MessageReader<usize>,
    response_writer: ResponseWriter<usize, R, E, C>,
    command_handler: CommandHandler<R, E, C>,
    request_ids: Vec<i64>,
    replies: Vec<Reply<R, E>>,
    outcomes: Ghost<Seq<Reply<R, E>>>,
    consumed: Ghost<nat>,
    response_queue: VecDeque<usize>,
    write_queue: VecDeque<OutgoingMessage<R, E, C>>,
    command_queue: VecDeque<ServiceCommand<C>>,
    transport: Vec<MessageEnvelope<OutgoingMessage<R, E, C>>>,
}

impl<R, E, C> View for Pipeline<R, E, C> {
    type V = State<R, E, C>;

    closed spec fn view(&self) -> State<R, E, C> {
        State {
            signal: self.service.signal,
            requests: self.request_ids@,
            replies: self.outcomes@,
            consumed: self.consumed@,
            waiting: self.reader.current_request,
            response_queue: self.response_queue@,
            awaited: self.response_writer.response_future,
            response: self.response_writer.response,
            notification: self.command_handler.current_notification,
            write_queue: self.write_queue@,
            command_queue: self.command_queue@,
            frames: Seq::new(self.transport@.len(), |i: int| self.transport@[i].message),
        }
    }
}

impl<R, E, C> Pipeline<R, E, C> {
    /// The invariant of the service holds, every reply channel that the
    /// response writer is not done with is in the state recorded for it, and
    /// every frame written is bare of header lines.
    pub closed spec fn wf(&self) -> bool {
        &&& self@.inv()
        &&& self.replies@.len() == self.outcomes@.len()
        &&& forall|i: int|
            self.consumed@ <= i < self.replies@.len() ==> #[trigger] self.replies@[i]
                == self.outcomes@[i]
        &&& forall|i: int| 0 <= i < self.consumed@ ==> #[trigger] self.replies@[i] is Canceled
        &&& forall|i: int|
            0 <= i < self.transport@.len() ==> (#[trigger] self.transport@[i]).headers@.len()
                == 0
    }

    pub fn new() -> (pipeline: Self)
        ensures
            pipeline.wf(),
            pipeline@ == State::<R, E, C>::initial(),
    {
        let pipeline = Pipeline {
            service: Service::new(),
            reader: MessageReader::new(),
            response_writer: ResponseWriter::new(),
            command_handler: CommandHandler::new(),
            request_ids: Vec::new(),
            replies: Vec::new(),
            outcomes: Ghost(Seq::empty()),
            consumed: Ghost(0),
            response_queue: VecDeque::new(),
            write_queue: VecDeque::new(),
            command_queue: VecDeque::new(),
            transport: Vec::new(),
        };
        proof {
            lemma_initial_inv::<R, E, C>();
            assert(pipeline@.frames =~= Seq::empty());
        }
        pipeline
    }

    /// What the reader's turn on `polled` comes to in state `s`.
    pub open spec fn read_outcome<Q, N>(
        s: State<R, E, C>,
        polled: Result<Async<Option<MessageEnvelope<IncomingMessage<Q, N>>>>, std::io::Error>,
    ) -> ReaderOutcome<Q, N> {
        if s.signal.is_some() {
            ReaderOutcome::Stopped(polled)
        } else if s.reader_blocked() {
            ReaderOutcome::Blocked(polled)
        } else {
            match polled {
                Ok(Async::Ready(Some(frame))) => match frame.message {
                    IncomingMessage::Request(request) => ReaderOutcome::Request(
                        request.method,
                        ResponseOutput {
                            request_id: request.id,
                            result_channel: s.replies.len() as usize,
                        },
                    ),
                    IncomingMessage::Notification(notification) => ReaderOutcome::Notification(
                        notification.method,
                    ),
                    IncomingMessage::Response => ReaderOutcome::Failed,
                },
                Ok(Async::Ready(None)) => ReaderOutcome::Failed,
                Ok(Async::NotReady) => ReaderOutcome::Idle,
                Err(_) => ReaderOutcome::Failed,
            }
        }
    }

    /// One turn of the reader on what the transport yields. A request opens
    /// a reply channel, numbered after those before it, and comes back with
    /// the right to answer on it.
    pub fn poll_reader<Q, N>(
        &mut self,
        polled: Result<Async<Option<MessageEnvelope<IncomingMessage<Q, N>>>>, std::io::Error>,
    ) -> (outcome: ReaderOutcome<Q, N>)
        requires
            old(self).wf(),
        ensures
            final(self).wf(),
            final(self)@ == old(self)@.read(polled),
            outcome == Self::read_outcome(old(self)@, polled),
    {
        let ghost s = self@;
        if self.service.is_shut_down() {
            return ReaderOutcome::Stopped(polled);
        }
        match self.reader.next_action() {
            ReaderAction::Enqueue(channel) => {
                let sent = offer(&mut self.response_queue, RESPONSE_QUEUE_CAPACITY, channel);
                match self.reader.push_response_future(sent) {
                    Ok(Async::Ready(_)) => {},
                    _ => {
                        return ReaderOutcome::Blocked(polled);
                    },
                }
            },
            ReaderAction::Read => {},
        }
        let outcome = match MessageReader::<usize>::next_message(polled) {
            Ok(Async::Ready(message)) => match MessageReader::<usize>::dispatch(message) {
                Ok(Dispatch::Request(id, method)) => {
                    let channel = self.replies.len();
                    self.request_ids.push(id);
                    self.replies.push(Reply::Pending);
                    self.outcomes = Ghost(self.outcomes@.push(Reply::Pending));
                    // Learns that the channels opened so far still number within `usize`.
                    let _opened: usize = self.replies.len();
                    self.reader.request_dispatched(channel);
                    ReaderOutcome::Request(method, ResponseOutput::new(id, channel))
                },
                Ok(Dispatch::Notification(method)) => ReaderOutcome::Notification(method),
                Err(error) => {
                    self.service.task_polled(Err(error));
                    ReaderOutcome::Failed
                },
            },
            Ok(Async::NotReady) => ReaderOutcome::Idle,
            Err(error) => {
                self.service.task_polled(Err(error));
                ReaderOutcome::Failed
            },
        };
        proof {
            lemma_read_keeps_inv(s, polled);
        }
        outcome
    }

    /// One turn of the reader with the handler behind it: what the reader
    /// takes is handed to the handler before anything else is read. Says
    /// whether the handler was called.
    pub fn serve<Q, N, H: MessageHandler<Q, N, usize>>(
        &mut self,
        handler: &H,
        polled: Result<Async<Option<MessageEnvelope<IncomingMessage<Q, N>>>>, std::io::Error>,
    ) -> (called: bool)
        requires
            old(self).wf(),
        ensures
            final(self).wf(),
            final(self)@ == old(self)@.read(polled),
            called == (Self::read_outcome(old(self)@, polled) is Request || Self::read_outcome(
                old(self)@,
                polled,
            ) is Notification),
    {
        match self.poll_reader(polled) {
            ReaderOutcome::Request(method, output) => {
                handler.handle_request(self.handle(), method, output);
                true
            },
            ReaderOutcome::Notification(method) => {
                handler.handle_notification(self.handle(), method);
                true
            },
            _ => false,
        }
    }

    /// One turn of the response writer. Says whether it did anything.
    pub fn poll_response_writer(&mut self) -> (progress: bool)
        requires
            old(self).wf(),
        ensures
            final(self).wf(),
            final(self)@ == old(self)@.forward(),
            progress == (final(self)@ != old(self)@),
    {
        let ghost s = self@;
        if self.service.is_shut_down() {
            return false;
        }
        let done = match self.response_writer.next_action() {
            ResponseAction::PollReply(channel) => {
                let pending = match &self.replies[channel] {
                    Reply::Pending => true,
                    _ => false,
                };
                let polled = if pending {
                    Ok(Async::NotReady)
                } else {
                    let reply = self.replies.remove(channel);
                    self.replies.insert(channel, Reply::Canceled);
                    self.consumed = Ghost(self.consumed@ + 1);
                    match reply {
                        Reply::Answered(message) => Ok(Async::Ready(message)),
                        _ => Err(Canceled),
                    }
                };
                self.response_writer.poll_for_response(channel, polled)
            },
            ResponseAction::Send(message) => {
                let sent = offer(&mut self.write_queue, WRITE_QUEUE_CAPACITY, message);
                self.response_writer.write_response(sent)
            },
            ResponseAction::PollQueue => {
                let polled = fetch(&mut self.response_queue);
                match ResponseWriter::<usize, R, E, C>::poll_for_response_future(polled) {
                    Ok(Async::Ready(channel)) => {
                        self.response_writer.await_reply(channel);
                        Ok(Async::Ready(()))
                    },
                    Ok(Async::NotReady) => Ok(Async::NotReady),
                    Err(error) => Err(error),
                }
            },
        };
        let progress = match &done {
            Ok(Async::Ready(_)) => true,
            _ => false,
        };
        self.service.task_polled(done);
        proof {
            lemma_forward_keeps_inv(s);
        }
        progress
    }

    /// The response writer takes turns until it has to wait: for a reply,
    /// for room in the write queue, or for the next reply channel.
    pub fn run_response_writer(&mut self)
        requires
            old(self).wf(),
        ensures
            final(self).wf(),
            final(self)@.forward() == final(self)@,
            exists|turns: nat| final(self)@ == old(self)@.forward_times(turns),
    {
        let ghost s = self@;
        let ghost mut turns: nat = 0;
        let mut progress = true;
        while progress
            invariant
                self.wf(),
                self@ == s.forward_times(turns),
                !progress ==> self@.forward() == self@,
            decreases
                    (if progress {
                        self@.forward_bound() + 1
                    } else {
                        0
                    }),
        {
            proof {
                lemma_forward_progress(self@);
                turns = turns + 1;
            }
            progress = self.poll_response_writer();
        }
    }

    /// One turn of the command handler. Says whether it did anything.
    pub fn poll_command_handler(&mut self) -> (progress: bool)
        requires
            old(self).wf(),
        ensures
            final(self).wf(),
            final(self)@ == old(self)@.command(),
            progress == (final(self)@ != old(self)@),
    {
        let ghost s = self@;
        if self.service.is_shut_down() {
            return false;
        }
        let done = match self.command_handler.next_action() {
            CommandAction::Send(message) => {
                let sent = offer(&mut self.write_queue, WRITE_QUEUE_CAPACITY, message);
                self.command_handler.notification_sent(sent)
            },
            CommandAction::PollQueue => {
                let polled = fetch(&mut self.command_queue);
                self.command_handler.command_polled(&mut self.service, polled)
            },
        };
        let went_on = match &done {
            Ok(Async::Ready(_)) => true,
            _ => false,
        };
        self.service.task_polled(done);
        proof {
            lemma_command_keeps_inv(s);
        }
        went_on || self.service.is_shut_down()
    }

    /// The command handler takes turns until it has to wait: for room in
    /// the write queue, for the next command, or, after a shutdown, for
    /// good.
    pub fn run_command_handler(&mut self)
        requires
            old(self).wf(),
        ensures
            final(self).wf(),
            final(self)@.command() == final(self)@,
            exists|turns: nat| final(self)@ == old(self)@.command_times(turns),
    {
        let ghost s = self@;
        let ghost mut turns: nat = 0;
        let mut progress = true;
        while progress
            invariant
                self.wf(),
                self@ == s.command_times(turns),
                !progress ==> self@.command() == self@,
            decreases
                    (if progress {
                        self@.command_bound() + 1
                    } else {
                        0
                    }),
        {
            proof {
                lemma_command_progress(self@);
                turns = turns + 1;
            }
            progress = self.poll_command_handler();
        }
    }

    /// One turn of the writer, given what the transport says to the frame
    /// it is offered.
    pub fn poll_writer(&mut self, transport: Result<(), std::io::Error>)
        requires
            old(self).wf(),
        ensures
            final(self).wf(),
            final(self)@ == old(self)@.write(transport),
    {
        let ghost s = self@;
        if self.service.is_shut_down() || self.write_queue.len() == 0 {
            return ;
        }
        match transport {
            Ok(_) => {
                match next_frame(fetch(&mut self.write_queue)) {
                    Ok(Async::Ready(Some(frame))) => {
                        self.transport.push(frame);
                    },
                    _ => {},
                }
                assert(self@.frames =~= s.frames.push(s.write_queue[0]));
            },
            Err(error) => {
                self.service.task_polled(written(Err(error)));
            },
        }
        proof {
            lemma_write_keeps_inv(s, transport);
        }
    }

    /// The writer writes all that is in the write queue to a transport that
    /// takes every frame.
    pub fn run_writer(&mut self)
        requires
            old(self).wf(),
        ensures
            final(self).wf(),
            final(self)@ == old(self)@.flushed_out(),
    {
        let ghost s = self@;
        if self.service.is_shut_down() {
            return ;
        }
        while self.write_queue.len() > 0
            invariant
                self.wf(),
                self@.signal.is_none(),
                self@ == (State { frames: self@.frames, write_queue: self@.write_queue, ..s }),
                self@.frames + self@.write_queue =~= s.frames + s.write_queue,
            decreases self.write_queue@.len(),
        {
            self.poll_writer(Ok(()));
        }
        assert(self@.write_queue =~= Seq::empty());
        assert(self@.frames =~= s.frames + s.write_queue);
    }

    /// Completes a reply channel with an answer. Says whether the channel
    /// took it: a channel takes one outcome only, and no answer but one that
    /// bears the id of its request.
    pub fn complete(&mut self, channel: usize, message: ResponseMessage<R, E>) -> (taken: bool)
        requires
            old(self).wf(),
        ensures
            final(self).wf(),
            taken == old(self)@.accepts(channel, Reply::Answered(message)),
            final(self)@ == old(self)@.resolve(channel, Reply::Answered(message)),
    {
        self.settle(channel, Reply::Answered(message))
    }

    /// Drops the right to answer a request: its reply channel is cancelled.
    pub fn cancel(&mut self, output: ResponseOutput<usize>) -> (taken: bool)
        requires
            old(self).wf(),
        ensures
            final(self).wf(),
            taken == old(self)@.open_channel(output.result_channel),
            final(self)@ == old(self)@.resolve(output.result_channel, Reply::Canceled),
    {
        self.settle(output.result_channel, Reply::Canceled)
    }

    fn settle(&mut self, channel: usize, reply: Reply<R, E>) -> (taken: bool)
        requires
            old(self).wf(),
            !(reply is Pending),
        ensures
            final(self).wf(),
            taken == old(self)@.accepts(channel, reply),
            final(self)@ == old(self)@.resolve(channel, reply),
    {
        let ghost s = self@;
        if channel >= self.replies.len() {
            return false;
        }
        let bears_id = match &reply {
            Reply::Answered(message) => message.id == self.request_ids[channel],
            _ => true,
        };
        if !bears_id {
            return false;
        }
        let pending = match &self.replies[channel] {
            Reply::Pending => true,
            _ => false,
        };
        proof {
            if channel < s.consumed {
                assert(!(s.replies[channel as int] is Pending));
            }
        }
        if !pending {
            return false;
        }
        self.replies.remove(channel);
        self.replies.insert(channel, reply);
        self.outcomes = Ghost(self.outcomes@.update(channel as int, reply));
        proof {
            lemma_resolve_keeps_inv(s, channel, reply);
        }
        true
    }

    /// Puts a command into the command queue, or hands it back where the
    /// queue is full.
    pub fn push_command(&mut self, command: ServiceCommand<C>) -> (sent: AsyncSink<
        ServiceCommand<C>,
    >)
        requires
            old(self).wf(),
        ensures
            final(self).wf(),
            final(self)@ == old(self)@.request(command),
            sent == (if old(self)@.command_queue.len() < COMMAND_QUEUE_CAPACITY {
                AsyncSink::Ready
            } else {
                AsyncSink::NotReady(command)
            }),
    {
        let ghost s = self@;
        let sent = offer(&mut self.command_queue, COMMAND_QUEUE_CAPACITY, command);
        proof {
            lemma_request_keeps_inv(s, command);
        }
        match sent {
            Ok(sent) => sent,
            Err(_) => AsyncSink::Ready,
        }
    }

    /// The frames that the transport has taken, in the order written.
    pub fn frames(&self) -> (frames: &Vec<MessageEnvelope<OutgoingMessage<R, E, C>>>)
        requires
            self.wf(),
        ensures
            frames@.len() == self@.frames.len(),
            forall|i: int|
                0 <= i < frames@.len() ==> (#[trigger] frames@[i]).message == self@.frames[i]
                    && frames@[i].headers@.len() == 0,
    {
        &self.transport
    }

    /// What observers of the shutdown signal see now.
    pub fn shutdown_future(&self) -> (future: ShutdownFuture)
        ensures
            future == (Service { signal: self@.signal }).observed(),
    {
        self.service.shutdown_future()
    }

    /// A handle for user code.
    pub fn handle(&self) -> (handle: ServiceHandle)
        ensures
            handle.shutdown_future == (Service { signal: self@.signal }).observed(),
    {
        ServiceHandle::new(self.service.shutdown_future())
    }

    /// Whether the reader holds a reply channel that the response queue has
    /// no room for.
    pub fn reader_blocked(&self) -> (blocked: bool)
        requires
            self.wf(),
        ensures
            blocked == self@.reader_blocked(),
    {
        self.reader.current_request.is_some() && self.response_queue.len()
            >= RESPONSE_QUEUE_CAPACITY
    }
}

/// Starts a service in memory: the four tasks at rest, the queues empty and
/// the shutdown signal unresolved, with a handle for user code.
pub fn start_service<R, E, C>() -> (started: (Pipeline<R, E, C>, ServiceHandle))
    ensures
        started.0.wf(),
        started.0@ == State::<R, E, C>::initial(),
        !started.1.shutdown_future.is_resolved(),
{
    let pipeline = Pipeline::new();
    let handle = pipeline.handle();
    (pipeline, handle)
}

} // verus!
