use crate::command::ServiceCommand;
use crate::message::{
    Async, IncomingMessage, MessageEnvelope, NotificationMessage, OutgoingMessage,
};
use crate::state::{
    answered, answers, held_response, ids, responses, Reply, State, RESPONSE_QUEUE_CAPACITY,
    WRITE_QUEUE_CAPACITY,
};
use vstd::prelude::*;

verus! {

/// The responses of two runs of messages, one after the other, are the
/// responses of the first followed by those of the second.
pub proof fn lemma_responses_concat<R, E, C>(
    a: Seq<OutgoingMessage<R, E, C>>,
    b: Seq<OutgoingMessage<R, E, C>>,
)
    ensures
        responses(a + b) == responses(a) + responses(b),
    decreases b.len(),
{
    if b.len() == 0 {
        assert(a + b =~= a);
        assert(responses(a) + responses(b) =~= responses(a));
    } else {
        assert((a + b).drop_last() =~= a + b.drop_last());
        assert((a + b).last() == b.last());
        lemma_responses_concat(a, b.drop_last());
        assert(responses(a + b) =~= responses(a) + responses(b));
    }
}

/// A run of one message holds the response that a slot with it holds.
pub proof fn lemma_responses_single<R, E, C>(message: OutgoingMessage<R, E, C>)
    ensures
        responses(seq![message]) == held_response(Some(message)),
{
    let one = seq![message];
    assert(one.drop_last().len() == 0);
    assert(responses(one.drop_last()) =~= Seq::empty());
    assert(one.last() == message);
    assert(responses(seq![message]) =~= held_response(Some(message)));
}

/// There are no more responses among messages than messages.
pub proof fn lemma_responses_len<R, E, C>(messages: Seq<OutgoingMessage<R, E, C>>)
    ensures
        responses(messages).len() <= messages.len(),
    decreases messages.len(),
{
    if messages.len() > 0 {
        lemma_responses_len(messages.drop_last());
    }
}

/// Where each answer bears the id of its request, the ids of the answers
/// are the ids of the requests that were answered.
pub proof fn lemma_answers_bear_request_ids<R, E>(requests: Seq<i64>, replies: Seq<Reply<R, E>>)
    requires
        requests.len() == replies.len(),
        forall|i: int|
            0 <= i < replies.len() && (#[trigger] replies[i]) is Answered
                ==> replies[i]->Answered_0.id == requests[i],
    ensures
        ids(answers(replies)) == answered(requests, replies),
    decreases replies.len(),
{
    if replies.len() == 0 {
        assert(ids(answers(replies)) =~= answered(requests, replies));
    } else {
        let q = requests.drop_last();
        let r = replies.drop_last();
        assert forall|i: int| 0 <= i < r.len() && (#[trigger] r[i]) is Answered implies r[i]->Answered_0.id
            == q[i] by {
            assert(r[i] == replies[i]);
        }
        lemma_answers_bear_request_ids(q, r);
        assert(replies.last() == replies[replies.len() - 1]);
        assert(ids(answers(replies)) =~= answered(requests, replies));
    }
}

/// The service starts in a state of which the invariant holds.
pub proof fn lemma_initial_inv<R, E, C>()
    ensures
        State::<R, E, C>::initial().inv(),
{
    let s = State::<R, E, C>::initial();
    assert(s.replies.take(0) =~= Seq::<Reply<R, E>>::empty());
    assert(responses(s.frames) + responses(s.write_queue) + held_response(s.response)
        =~= answers(s.replies.take(0)));
}

/// A turn of the reader keeps the invariant, as long as the reply channels
/// can still be numbered.
pub proof fn lemma_read_keeps_inv<R, E, C, Q, N>(
    s: State<R, E, C>,
    polled: Result<Async<Option<MessageEnvelope<IncomingMessage<Q, N>>>>, std::io::Error>,
)
    requires
        s.inv(),
        s.read(polled).replies.len() <= usize::MAX,
    ensures
        s.read(polled).inv(),
{
    let t = s.read(polled);
    if s.signal.is_some() || s.reader_blocked() {
    } else {
        let ready = s.flushed();
        assert(ready.inv());
        assert(t.replies.take(t.consumed as int) =~= s.replies.take(s.consumed as int));
    }
}

/// A turn of the response writer keeps the invariant.
pub proof fn lemma_forward_keeps_inv<R, E, C>(s: State<R, E, C>)
    requires
        s.inv(),
    ensures
        s.forward().inv(),
{
    let t = s.forward();
    if s.signal.is_some() {
    } else {
        match s.awaited {
            Some(channel) => {
                assert(channel as int == s.consumed);
                if !(s.replies[channel as int] is Pending) {
                    let upto = s.replies.take(t.consumed as int);
                    assert(upto.drop_last() =~= s.replies.take(s.consumed as int));
                    assert(upto.last() == s.replies[channel as int]);
                    assert(held_response(s.response) =~= Seq::empty());
                    assert(responses(t.frames) + responses(t.write_queue) + held_response(
                        t.response,
                    ) =~= answers(upto));
                    assert forall|i: int| 0 <= i < t.consumed implies !(
                    #[trigger] t.replies[i] is Pending) by {
                        if i < s.consumed {
                            assert(!(s.replies[i] is Pending));
                        }
                    }
                }
            },
            None => match s.response {
                Some(message) => {
                    if s.write_queue.len() < WRITE_QUEUE_CAPACITY {
                        assert(s.write_queue.push(message) =~= s.write_queue + seq![message]);
                        lemma_responses_concat(s.write_queue, seq![message]);
                        lemma_responses_single(message);
                        assert(responses(t.frames) + responses(t.write_queue) + held_response(
                            t.response,
                        ) =~= responses(s.frames) + responses(s.write_queue) + held_response(
                            s.response,
                        ));
                    }
                },
                None => {
                    if s.response_queue.len() > 0 {
                        assert(s.response_queue[0] == s.queued_from() + 0);
                        assert forall|i: int| 0 <= i < t.response_queue.len() implies
                        #[trigger] t.response_queue[i] == t.queued_from() + i by {
                            assert(t.response_queue[i] == s.response_queue[i + 1]);
                        }
                    }
                },
            },
        }
    }
}

/// A turn in which the response writer does anything brings it closer to
/// the point where it has to wait.
pub proof fn lemma_forward_progress<R, E, C>(s: State<R, E, C>)
    requires
        s.inv(),
    ensures
        s.forward_bound() >= 0,
        s.forward() != s ==> s.forward().forward_bound() < s.forward_bound(),
{
}

/// A turn in which the command handler does anything brings it closer to
/// the point where it has to wait.
pub proof fn lemma_command_progress<R, E, C>(s: State<R, E, C>)
    requires
        s.inv(),
    ensures
        s.command_bound() >= 0,
        s.command() != s ==> s.command().command_bound() < s.command_bound(),
{
}

/// A turn of the command handler keeps the invariant.
pub proof fn lemma_command_keeps_inv<R, E, C>(s: State<R, E, C>)
    requires
        s.inv(),
    ensures
        s.command().inv(),
{
    let t = s.command();
    if s.signal.is_none() && s.notification.is_some() && s.write_queue.len()
        < WRITE_QUEUE_CAPACITY {
        let message = s.notification->Some_0;
        assert(t.write_queue.drop_last() =~= s.write_queue);
        assert(responses(t.write_queue) == responses(s.write_queue));
    }
}

/// A turn of the writer keeps the invariant.
pub proof fn lemma_write_keeps_inv<R, E, C>(s: State<R, E, C>, transport: Result<(), std::io::Error>)
    requires
        s.inv(),
    ensures
        s.write(transport).inv(),
{
    let t = s.write(transport);
    if s.signal.is_none() && s.write_queue.len() > 0 && transport.is_ok() {
        let first = s.write_queue[0];
        assert(s.write_queue =~= seq![first] + t.write_queue);
        assert(t.frames =~= s.frames + seq![first]);
        lemma_responses_concat(seq![first], t.write_queue);
        lemma_responses_concat(s.frames, seq![first]);
        assert(responses(t.frames) + responses(t.write_queue) + held_response(t.response)
            =~= responses(s.frames) + responses(s.write_queue) + held_response(s.response));
    }
}

/// The outcome of a reply channel keeps the invariant.
pub proof fn lemma_resolve_keeps_inv<R, E, C>(s: State<R, E, C>, channel: usize, reply: Reply<R, E>)
    requires
        s.inv(),
        !(reply is Pending),
    ensures
        s.resolve(channel, reply).inv(),
{
    let t = s.resolve(channel, reply);
    if s.accepts(channel, reply) {
        assert(channel >= s.consumed) by {
            if channel < s.consumed {
                assert(!(s.replies[channel as int] is Pending));
            }
        }
        assert(t.replies.take(t.consumed as int) =~= s.replies.take(s.consumed as int));
        assert forall|i: int| 0 <= i < t.consumed implies !(#[trigger] t.replies[i] is Pending) by {
            assert(!(s.replies[i] is Pending));
        }
    }
}

/// A command put into the command queue keeps the invariant.
pub proof fn lemma_request_keeps_inv<R, E, C>(s: State<R, E, C>, command: ServiceCommand<C>)
    requires
        s.inv(),
    ensures
        s.request(command).inv(),
{
}

/// Responses reach the transport in the order of their requests: the
/// responses among the frames written are the first of the answers given on
/// the reply channels, taken in the order in which the requests were read,
/// with nothing for a channel that was dropped, and their ids are the ids
/// of the requests answered, in the order read. Once the response writer
/// and the write queue hold no message, they are all the answers of the
/// channels that the response writer is done with.
pub proof fn lemma_responses_in_request_order<R, E, C>(s: State<R, E, C>)
    requires
        s.inv(),
    ensures
        responses(s.frames).is_prefix_of(answers(s.replies.take(s.consumed as int))),
        ids(responses(s.frames)).is_prefix_of(
            answered(s.requests.take(s.consumed as int), s.replies.take(s.consumed as int)),
        ),
        s.write_queue.len() == 0 && s.response.is_none() ==> responses(s.frames) == answers(
            s.replies.take(s.consumed as int),
        ),
{
    lemma_answers_bear_request_ids(
        s.requests.take(s.consumed as int),
        s.replies.take(s.consumed as int),
    );
    assert(ids(responses(s.frames)) =~= ids(answers(s.replies.take(s.consumed as int))).subrange(
        0,
        responses(s.frames).len() as int,
    )) by {
        let rest = responses(s.write_queue) + held_response(s.response);
        assert(responses(s.frames) + rest =~= answers(s.replies.take(s.consumed as int)));
    }
    let rest = responses(s.write_queue) + held_response(s.response);
    assert(responses(s.frames) + rest =~= answers(s.replies.take(s.consumed as int)));
    assert(responses(s.frames) =~= (responses(s.frames) + rest).subrange(
        0,
        responses(s.frames).len() as int,
    ));
    if s.write_queue.len() == 0 && s.response.is_none() {
        assert(rest =~= Seq::empty());
        assert(responses(s.frames) + rest =~= responses(s.frames));
    }
}

/// Once no reply channel and no response is under way, the responses
/// written are the answers to all the requests read, in the order read,
/// and their ids those of the requests answered.
pub proof fn lemma_all_answers_written<R, E, C>(s: State<R, E, C>)
    requires
        s.inv(),
        s.waiting.is_none(),
        s.response_queue.len() == 0,
        s.awaited.is_none(),
        s.response.is_none(),
        s.write_queue.len() == 0,
    ensures
        responses(s.frames) == answers(s.replies),
        ids(responses(s.frames)) == answered(s.requests, s.replies),
{
    assert(s.replies.take(s.consumed as int) =~= s.replies);
    assert(s.requests.take(s.consumed as int) =~= s.requests);
    lemma_responses_in_request_order(s);
    lemma_answers_bear_request_ids(s.requests, s.replies);
}

/// The response writer does not go past a reply that is not there yet,
/// whatever has become of the replies to later requests.
pub proof fn lemma_forward_waits_for_reply<R, E, C>(s: State<R, E, C>)
    requires
        s.inv(),
        s.awaited.is_some(),
        s.replies[s.consumed as int] is Pending,
    ensures
        s.forward() == s,
{
}

/// Once the shutdown signal is resolved it stays as it is, no task takes a
/// turn, and no further frame is written.
pub proof fn lemma_nothing_after_shutdown<R, E, C, Q, N>(
    s: State<R, E, C>,
    polled: Result<Async<Option<MessageEnvelope<IncomingMessage<Q, N>>>>, std::io::Error>,
    transport: Result<(), std::io::Error>,
    channel: usize,
    reply: Reply<R, E>,
    command: ServiceCommand<C>,
)
    requires
        s.signal.is_some(),
    ensures
        s.read(polled) == s,
        s.forward() == s,
        s.command() == s,
        s.write(transport) == s,
        s.resolve(channel, reply).signal == s.signal,
        s.resolve(channel, reply).frames == s.frames,
        s.request(command).signal == s.signal,
        s.request(command).frames == s.frames,
{
}

/// Only the writer adds a frame, and only one at a time.
pub proof fn lemma_frames_grow_by_writes<R, E, C, Q, N>(
    s: State<R, E, C>,
    polled: Result<Async<Option<MessageEnvelope<IncomingMessage<Q, N>>>>, std::io::Error>,
    transport: Result<(), std::io::Error>,
)
    ensures
        s.read(polled).frames == s.frames,
        s.forward().frames == s.frames,
        s.command().frames == s.frames,
        s.write(transport).frames == s.frames || (s.write_queue.len() > 0 && s.write(
            transport,
        ).frames == s.frames.push(s.write_queue[0])),
{
}

/// The requests under way are bounded by the queues. Past the reader, a
/// reply channel that the response writer is not done with is the one it
/// waits on or in the response queue, and an answer that is not written is
/// held by the response writer or in the write queue; the response writer
/// holds one of the two at most. So no more requests are under way past
/// the reader than the two queues and the response writer have room for,
/// and the reader, once it holds a reply channel that the response queue
/// has no room for, takes nothing.
pub proof fn lemma_backpressure<R, E, C, Q, N>(
    s: State<R, E, C>,
    polled: Result<Async<Option<MessageEnvelope<IncomingMessage<Q, N>>>>, std::io::Error>,
)
    requires
        s.inv(),
    ensures
        (s.replies.len() - s.consumed - (if s.waiting.is_some() {
            1int
        } else {
            0int
        })) + (answers(s.replies.take(s.consumed as int)).len() - responses(s.frames).len())
            <= RESPONSE_QUEUE_CAPACITY + 1 + WRITE_QUEUE_CAPACITY,
        s.reader_blocked() ==> s.read(polled) == s,
{
    lemma_responses_len(s.write_queue);
    let total = responses(s.frames) + responses(s.write_queue) + held_response(s.response);
    assert(total.len() == responses(s.frames).len() + responses(s.write_queue).len()
        + held_response(s.response).len());
}

/// With an empty write queue and no notification held, a notification
/// asked for is the next frame written: the command handler takes the
/// command and passes the notification on, and the writer writes it.
pub proof fn lemma_notification_is_next_frame<R, E, C>(s: State<R, E, C>, notification: C)
    requires
        s.inv(),
        s.signal.is_none(),
        s.write_queue.len() == 0,
        s.notification.is_none(),
        s.command_queue.len() == 0,
    ensures
        s.request(ServiceCommand::SendNotification(notification)).command().command().write(
            Ok(()),
        ).frames == s.frames.push(
            OutgoingMessage::Notification(NotificationMessage { method: notification }),
        ),
{
    let a = s.request(ServiceCommand::SendNotification(notification));
    assert(a.command_queue[0] == ServiceCommand::SendNotification(notification));
    let b = a.command();
    let c = b.command();
    assert(c.write_queue[0] == OutgoingMessage::<R, E, C>::Notification(
        NotificationMessage { method: notification },
    ));
}

} // verus!
