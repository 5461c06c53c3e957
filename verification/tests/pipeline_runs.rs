use lsp_service::command::ServiceCommand;
use lsp_service::error::ServiceError;
use lsp_service::message::{
    Async, AsyncSink, IncomingMessage, MessageEnvelope, NotificationMessage, OutgoingMessage,
    RequestMessage, ResponseMessage,
};
use lsp_service::output::ResponseOutput;
use lsp_service::pipeline::{start_service, Pipeline, ReaderOutcome};
use std::io;

type Line = Pipeline<String, String, String>;
type Polled = Result<Async<Option<MessageEnvelope<IncomingMessage<String, String>>>>, io::Error>;

fn request(id: i64, method: &str) -> Polled {
    Ok(Async::Ready(Some(MessageEnvelope {
        headers: Vec::new(),
        message: IncomingMessage::Request(RequestMessage { id, method: method.to_string() }),
    })))
}

fn notification(method: &str) -> Polled {
    Ok(Async::Ready(Some(MessageEnvelope {
        headers: Vec::new(),
        message: IncomingMessage::Notification(NotificationMessage {
            method: method.to_string(),
        }),
    })))
}

fn take_request(line: &mut Line, id: i64) -> ResponseOutput<usize> {
    match line.poll_reader(request(id, "ping")) {
        ReaderOutcome::Request(method, output) => {
            assert_eq!(method, "ping");
            assert_eq!(output.request_id, id);
            output
        }
        _ => panic!("the reader did not take the request"),
    }
}

fn answer(line: &mut Line, output: ResponseOutput<usize>, result: &str) -> bool {
    let (channel, message) = output.send_result::<String, String>(result.to_string());
    line.complete(channel, message)
}

fn drain(line: &mut Line) {
    for _ in 0..64 {
        let waiting: Polled = Ok(Async::NotReady);
        line.poll_reader(waiting);
        line.poll_response_writer();
        line.poll_command_handler();
        line.poll_writer(Ok(()));
    }
}

fn response_at(line: &Line, index: usize) -> (i64, Option<String>, Option<String>) {
    let frame = &line.frames()[index];
    assert!(frame.headers.is_empty());
    match &frame.message {
        OutgoingMessage::Response(response) => {
            (response.id, response.result.clone(), response.error.clone())
        }
        OutgoingMessage::Notification(_) => panic!("a notification where a response was due"),
    }
}

#[test]
fn ordered_reply() {
    let mut line = Line::new();
    let first = take_request(&mut line, 1);
    let second = take_request(&mut line, 2);
    assert!(answer(&mut line, second, "{\"ok\":2}"));
    drain(&mut line);
    assert_eq!(line.frames().len(), 0);
    assert!(answer(&mut line, first, "{\"ok\":1}"));
    drain(&mut line);
    assert_eq!(line.frames().len(), 2);
    assert_eq!(response_at(&line, 0), (1, Some("{\"ok\":1}".to_string()), None));
    assert_eq!(response_at(&line, 1), (2, Some("{\"ok\":2}".to_string()), None));
}

#[test]
fn cancellation_gap() {
    let mut line = Line::new();
    let first = take_request(&mut line, 1);
    let second = take_request(&mut line, 2);
    let third = take_request(&mut line, 3);
    assert!(line.cancel(second));
    assert!(answer(&mut line, first, "{\"ok\":1}"));
    assert!(answer(&mut line, third, "{\"ok\":3}"));
    drain(&mut line);
    assert_eq!(line.frames().len(), 2);
    assert_eq!(response_at(&line, 0), (1, Some("{\"ok\":1}".to_string()), None));
    assert_eq!(response_at(&line, 1), (3, Some("{\"ok\":3}".to_string()), None));
}

#[test]
fn notification_interleave() {
    let (mut line, handle) = start_service::<String, String, String>();
    let mut seen: Vec<String> = Vec::new();
    match line.poll_reader(notification("log hello")) {
        ReaderOutcome::Notification(method) => seen.push(method),
        _ => panic!("the reader did not take the notification"),
    }
    let command = handle.send_notification("tick".to_string());
    assert!(matches!(line.push_command(command), AsyncSink::Ready));
    let output = take_request(&mut line, 1);
    seen.push("request".to_string());
    assert!(answer(&mut line, output, "{\"ok\":1}"));
    drain(&mut line);
    assert_eq!(seen, vec!["log hello".to_string(), "request".to_string()]);
    let frames = line.frames();
    assert_eq!(frames.len(), 2);
    let mut ticks = 0;
    let mut answers = 0;
    for frame in frames.iter() {
        match &frame.message {
            OutgoingMessage::Notification(event) => {
                assert_eq!(event.method, "tick");
                ticks += 1;
            }
            OutgoingMessage::Response(response) => {
                assert_eq!(response.id, 1);
                assert_eq!(response.result, Some("{\"ok\":1}".to_string()));
                answers += 1;
            }
        }
    }
    assert_eq!((ticks, answers), (1, 1));
}

#[test]
fn explicit_shutdown() {
    let (mut line, handle) = start_service::<String, String, String>();
    assert!(matches!(handle.get_shutdown_future().poll(), Ok(Async::NotReady)));
    let pending = take_request(&mut line, 1);
    assert!(matches!(line.push_command(handle.shutdown()), AsyncSink::Ready));
    line.poll_command_handler();
    assert!(matches!(line.shutdown_future().poll(), Ok(Async::Ready(()))));
    assert!(matches!(line.poll_reader(request(2, "ping")), ReaderOutcome::Stopped(Ok(Async::Ready(Some(_))))));
    assert!(answer(&mut line, pending, "{\"ok\":1}"));
    drain(&mut line);
    assert_eq!(line.frames().len(), 0);
}

#[test]
fn read_failure() {
    let mut line = Line::new();
    let outcome: ReaderOutcome<String, String> =
        line.poll_reader(Err(io::Error::new(io::ErrorKind::BrokenPipe, "gone")));
    assert!(matches!(outcome, ReaderOutcome::Failed));
    match line.shutdown_future().poll() {
        Err(ServiceError::ReadError(error)) => {
            assert_eq!(error.kind(), io::ErrorKind::BrokenPipe);
            assert_eq!(error.to_string(), "gone");
        }
        _ => panic!("a read error was due"),
    }
    assert!(matches!(line.push_command(ServiceCommand::SendNotification("late".to_string())), AsyncSink::Ready));
    drain(&mut line);
    assert_eq!(line.frames().len(), 0);
}

#[test]
fn write_failure_mid_reply() {
    let mut line = Line::new();
    let first = take_request(&mut line, 1);
    let second = take_request(&mut line, 2);
    assert!(answer(&mut line, first, "{\"ok\":1}"));
    line.poll_response_writer();
    line.poll_response_writer();
    line.poll_response_writer();
    line.poll_writer(Err(io::Error::new(io::ErrorKind::ConnectionReset, "reset")));
    match line.shutdown_future().poll() {
        Err(ServiceError::WriteError(error)) => {
            assert_eq!(error.kind(), io::ErrorKind::ConnectionReset)
        }
        _ => panic!("a write error was due"),
    }
    assert!(answer(&mut line, second, "{\"ok\":2}"));
    drain(&mut line);
    assert_eq!(line.frames().len(), 0);
}

#[test]
fn reverse_order_answers_come_out_in_request_order() {
    let mut line = Line::new();
    let mut outputs = Vec::new();
    for id in 1..=5 {
        outputs.push(take_request(&mut line, id));
    }
    while let Some(output) = outputs.pop() {
        let id = output.request_id;
        if id > 1 {
            assert!(answer(&mut line, output, &format!("r{}", id)));
            drain(&mut line);
            assert_eq!(line.frames().len(), 0);
        } else {
            assert!(answer(&mut line, output, "r1"));
        }
    }
    drain(&mut line);
    assert_eq!(line.frames().len(), 5);
    for index in 0..5 {
        let id = index as i64 + 1;
        assert_eq!(response_at(&line, index), (id, Some(format!("r{}", id)), None));
    }
}

#[test]
fn error_answer_is_written_as_error() {
    let mut line = Line::new();
    let output = take_request(&mut line, 7);
    let (channel, message) = output.send_error::<String, String>("no such method".to_string());
    assert_eq!(channel, 0);
    assert!(line.complete(channel, message));
    drain(&mut line);
    assert_eq!(response_at(&line, 0), (7, None, Some("no such method".to_string())));
}

#[test]
fn notification_is_the_next_frame() {
    let (mut line, handle) = start_service::<String, String, String>();
    assert!(matches!(
        line.push_command(handle.send_notification("tick".to_string())),
        AsyncSink::Ready
    ));
    line.poll_command_handler();
    line.poll_command_handler();
    assert_eq!(line.frames().len(), 0);
    line.poll_writer(Ok(()));
    assert_eq!(line.frames().len(), 1);
    match &line.frames()[0].message {
        OutgoingMessage::Notification(event) => assert_eq!(event.method, "tick"),
        _ => panic!("a notification was due"),
    }
    assert!(line.frames()[0].headers.is_empty());
}

#[test]
fn reader_blocks_when_nothing_is_written() {
    let mut line = Line::new();
    let mut taken = 0usize;
    let mut id = 0i64;
    loop {
        id += 1;
        match line.poll_reader(request(id, "ping")) {
            ReaderOutcome::Request(_, output) => {
                taken += 1;
                assert!(answer(&mut line, output, "done"));
            }
            ReaderOutcome::Blocked(Ok(Async::Ready(Some(returned)))) => {
                match returned.message {
                    IncomingMessage::Request(request) => assert_eq!(request.id, id),
                    _ => panic!("the request was due back"),
                }
                break;
            }
            _ => panic!("the reader neither took the request nor blocked"),
        }
        for _ in 0..4 {
            line.poll_response_writer();
        }
        assert!(taken <= 5000);
    }
    assert_eq!(taken, 1024 + 1024 + 2);
    assert!(line.reader_blocked());
    assert_eq!(line.frames().len(), 0);
    line.poll_writer(Ok(()));
    line.poll_response_writer();
    line.poll_response_writer();
    line.poll_response_writer();
    assert!(!line.reader_blocked());
    assert!(matches!(line.poll_reader(request(id, "ping")), ReaderOutcome::Request(_, _)));
    assert_eq!(response_at(&line, 0).0, 1);
}

#[test]
fn command_queue_holds_sixteen() {
    let mut line = Line::new();
    for index in 0..16 {
        let sent = line.push_command(ServiceCommand::SendNotification(format!("n{}", index)));
        assert!(matches!(sent, AsyncSink::Ready));
    }
    match line.push_command(ServiceCommand::SendNotification("n16".to_string())) {
        AsyncSink::NotReady(ServiceCommand::SendNotification(returned)) => {
            assert_eq!(returned, "n16")
        }
        _ => panic!("the command was due back"),
    }
    drain(&mut line);
    assert_eq!(line.frames().len(), 16);
    for index in 0..16 {
        match &line.frames()[index].message {
            OutgoingMessage::Notification(event) => assert_eq!(event.method, format!("n{}", index)),
            _ => panic!("a notification was due"),
        }
    }
}

#[test]
fn a_channel_takes_one_outcome() {
    let mut line = Line::new();
    let output = take_request(&mut line, 1);
    let again = ResponseOutput::new(1, output.result_channel);
    assert!(answer(&mut line, output, "first"));
    assert!(!answer(&mut line, again, "second"));
    assert!(!line.complete(9, ResponseMessage { id: 9, result: None, error: None }));
    drain(&mut line);
    assert_eq!(line.frames().len(), 1);
    assert_eq!(response_at(&line, 0), (1, Some("first".to_string()), None));
    let late = ResponseOutput::new(1, 0);
    assert!(!line.cancel(late));
}

#[test]
fn answer_with_another_id_is_refused() {
    let mut line = Line::new();
    let output = take_request(&mut line, 4);
    let channel = output.result_channel;
    assert!(!line.complete(channel, ResponseMessage { id: 5, result: Some("x".to_string()), error: None }));
    assert!(answer(&mut line, output, "y"));
    drain(&mut line);
    assert_eq!(line.frames().len(), 1);
    assert_eq!(response_at(&line, 0), (4, Some("y".to_string()), None));
}

#[test]
fn tasks_run_until_they_have_to_wait() {
    let (mut line, handle) = start_service::<String, String, String>();
    let first = take_request(&mut line, 1);
    let second = take_request(&mut line, 2);
    let third = take_request(&mut line, 3);
    let idle: Polled = Ok(Async::NotReady);
    assert!(matches!(line.poll_reader(idle), ReaderOutcome::Idle));
    assert!(answer(&mut line, first, "a"));
    assert!(answer(&mut line, third, "c"));
    line.run_response_writer();
    assert!(!line.poll_response_writer());
    line.run_writer();
    assert_eq!(line.frames().len(), 1);
    assert_eq!(response_at(&line, 0), (1, Some("a".to_string()), None));
    for name in ["x", "y", "z"] {
        assert!(matches!(line.push_command(handle.send_notification(name.to_string())), AsyncSink::Ready));
    }
    line.run_command_handler();
    assert!(!line.poll_command_handler());
    assert!(line.cancel(second));
    line.run_response_writer();
    line.run_writer();
    let frames = line.frames();
    assert_eq!(frames.len(), 5);
    let mut events = Vec::new();
    for frame in frames.iter() {
        match &frame.message {
            OutgoingMessage::Notification(event) => events.push(event.method.clone()),
            OutgoingMessage::Response(response) => events.push(format!("#{}", response.id)),
        }
    }
    assert_eq!(events, vec!["#1", "x", "y", "z", "#3"]);
    assert!(matches!(line.push_command(handle.shutdown()), AsyncSink::Ready));
    assert!(matches!(line.push_command(handle.send_notification("late".to_string())), AsyncSink::Ready));
    line.run_command_handler();
    line.run_writer();
    assert_eq!(line.frames().len(), 5);
    assert!(matches!(line.shutdown_future().poll(), Ok(Async::Ready(()))));
}

#[test]
fn end_of_stream_and_client_response_are_fatal() {
    let mut line = Line::new();
    let outcome: ReaderOutcome<String, String> = line.poll_reader(Ok(Async::Ready(None)));
    assert!(matches!(outcome, ReaderOutcome::Failed));
    assert!(matches!(line.shutdown_future().poll(), Err(ServiceError::Unknown)));

    let mut other = Line::new();
    let outcome: ReaderOutcome<String, String> = other.poll_reader(Ok(Async::Ready(Some(
        MessageEnvelope { headers: Vec::new(), message: IncomingMessage::Response },
    ))));
    assert!(matches!(outcome, ReaderOutcome::Failed));
    assert!(matches!(other.shutdown_future().poll(), Err(ServiceError::Unknown)));

    let mut idle = Line::new();
    let outcome: ReaderOutcome<String, String> = idle.poll_reader(Ok(Async::NotReady));
    assert!(matches!(outcome, ReaderOutcome::Idle));
    assert!(matches!(idle.shutdown_future().poll(), Ok(Async::NotReady)));
}

#[test]
fn first_failure_stays() {
    let mut line = Line::new();
    let outcome: ReaderOutcome<String, String> =
        line.poll_reader(Err(io::Error::new(io::ErrorKind::Other, "first")));
    assert!(matches!(outcome, ReaderOutcome::Failed));
    line.poll_writer(Err(io::Error::new(io::ErrorKind::Other, "second")));
    assert!(matches!(line.push_command(ServiceCommand::Shutdown), AsyncSink::Ready));
    line.poll_command_handler();
    match line.shutdown_future().poll() {
        Err(ServiceError::ReadError(error)) => assert_eq!(error.to_string(), "first"),
        _ => panic!("the first failure was due"),
    }
}
