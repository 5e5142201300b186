use moviebot::error::handle_work_result;
use moviebot::error::feedback_error;
use moviebot::error::feedback_propagate_error;
use moviebot::error::propagate_error;

#[test]
fn success_sends_nothing_and_escalates_nothing() {
    let effect = handle_work_result(Ok(()));
    assert!(effect.user_message.is_none());
    assert!(effect.escalation.is_none());
}

#[test]
fn feedback_sends_one_message_and_escalates_nothing() {
    let effect = handle_work_result(Err(feedback_error("please try again".to_string())));
    assert_eq!(effect.user_message.as_deref(), Some("please try again"));
    assert!(effect.escalation.is_none());
}

#[test]
fn feedback_propagate_sends_one_message_and_escalates_one_cause() {
    let effect = handle_work_result(Err(feedback_propagate_error(
        "something went wrong".to_string(),
        "connection reset by peer".to_string(),
    )));
    assert_eq!(effect.user_message.as_deref(), Some("something went wrong"));
    let cause = effect.escalation.expect("the cause must be escalated");
    assert_eq!(cause.message, "something went wrong");
    assert_eq!(cause.source.as_deref(), Some("connection reset by peer"));
}

#[test]
fn propagate_sends_nothing_and_escalates_one_cause() {
    let effect = handle_work_result(Err(propagate_error("row decode failed".to_string())));
    assert!(effect.user_message.is_none());
    let cause = effect.escalation.expect("the cause must be escalated");
    assert_eq!(cause.message, "row decode failed");
    assert!(cause.source.is_none());
}
