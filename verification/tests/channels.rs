use futures::Future;
use lsp_service::channel::{open_reply, reply_error, reply_result, unsent};
use lsp_service::message::ResponseMessage;

#[test]
fn reply_reaches_the_receiving_end() {
    let (output, receiver) = open_reply::<String, String>(9);
    assert_eq!(output.request_id, 9);
    assert!(reply_result(output, "done".to_string()).is_none());
    let message = receiver.wait().expect("the answer was due");
    assert_eq!(message.id, 9);
    assert_eq!(message.result, Some("done".to_string()));
    assert_eq!(message.error, None);
}

#[test]
fn error_reply_reaches_the_receiving_end() {
    let (output, receiver) = open_reply::<String, String>(-4);
    assert!(reply_error(output, "failed".to_string()).is_none());
    let message = receiver.wait().expect("the answer was due");
    assert_eq!(message.id, -4);
    assert_eq!(message.result, None);
    assert_eq!(message.error, Some("failed".to_string()));
}

#[test]
fn reply_to_a_receiver_that_is_gone_comes_back() {
    let (output, receiver) = open_reply::<String, String>(3);
    drop(receiver);
    let lost = reply_result(output, "late".to_string()).expect("the answer was due back");
    assert_eq!(lost.id, 3);
    assert_eq!(lost.result, Some("late".to_string()));
}

#[test]
fn dropped_output_cancels_the_channel() {
    let (output, receiver) = open_reply::<String, String>(3);
    drop(output);
    assert!(receiver.wait().is_err());
}

#[test]
fn each_reply_channel_is_its_own() {
    let (first, first_read) = open_reply::<u8, u8>(1);
    let (second, second_read) = open_reply::<u8, u8>(2);
    assert!(reply_result(second, 20).is_none());
    assert!(reply_result(first, 10).is_none());
    assert_eq!(first_read.wait().map(|m| (m.id, m.result)).ok(), Some((1, Some(10))));
    assert_eq!(second_read.wait().map(|m| (m.id, m.result)).ok(), Some((2, Some(20))));
}

#[test]
fn unsent_hands_back_what_the_channel_returned() {
    assert!(unsent::<u8, u8>(Ok(())).is_none());
    let back = unsent(Err(ResponseMessage::<u8, u8> { id: 6, result: None, error: Some(2) }));
    let back = back.expect("the answer was due back");
    assert_eq!((back.id, back.result, back.error), (6, None, Some(2)));
}
