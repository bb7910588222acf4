use client_sample::{MessageCommunicate, MessageOutputTask, MessageStatus};

#[test]
fn status_codes() {
    assert_eq!(MessageStatus::IgnoreMessage.code(), -1);
    assert_eq!(MessageStatus::MessageDone.code(), 200);
    assert_eq!(MessageStatus::MessageDoneWithReply.code(), 201);
    assert_eq!(MessageStatus::from_code(200), Some(MessageStatus::MessageDone));
    assert_eq!(MessageStatus::from_code(-1), Some(MessageStatus::IgnoreMessage));
    assert_eq!(MessageStatus::from_code(201), Some(MessageStatus::MessageDoneWithReply));
    assert_eq!(MessageStatus::from_code(500), None);
}

#[test]
fn signals() {
    assert_eq!(MessageCommunicate::CLOSED_SIGNAL, "__quit__");
    assert_eq!(MessageCommunicate::INTERRUPT_SIGNAL, "__context_swich__");
}

#[test]
fn failure_output_carries_reason() {
    let o = MessageOutputTask::failure("boom".to_string());
    assert_eq!(o.message, "boom");
    assert_eq!(o.status, -1);
    assert!(o.headers.is_none());
    assert!(o.reply_queue_name.is_none());
}
