use memebot::bot::callback::{CallbackHandler, CallbackPayload, CallbackPhase, CallbackRequest};
use memebot::bot::dialogue::{cancel_callback, decline_photo, CancelHandler, CancelRequest};
use memebot::bot::markups::{get_cancel_markup, get_document_markup, Button, ButtonLabel};
use memebot::bot::types::{CallbackData, CallbackOperation};
use memebot::bot::{BotAction, BotEvent, GlobalState, Phrase, PhotoRecord, QueueMessage, Reply};

const PHOTO: u128 = 0xabc;

fn press(payload: CallbackPayload) -> CallbackHandler {
    CallbackHandler::new(CallbackRequest {
        callback_id: String::from("cb-1"),
        sender: 42,
        chat_id: Some(100),
        message: Some((100, 55)),
        payload,
    })
}

fn data(operation: CallbackOperation, document: Option<u128>) -> CallbackPayload {
    CallbackPayload::Data(CallbackData { operation, document })
}

fn found() -> PhotoRecord {
    PhotoRecord { uuid: PHOTO, user_id: 9, msg_id: Some(55) }
}

#[test]
fn unreadable_payloads_do_nothing() {
    for payload in [CallbackPayload::Missing, CallbackPayload::Malformed, data(CallbackOperation::Approve, None)] {
        let mut h = press(payload);
        assert!(matches!(h.handle(BotEvent::Begin), BotAction::Finish));
        assert_eq!(h.phase, CallbackPhase::Done);
    }
}

#[test]
fn press_on_a_missing_photo_does_nothing() {
    let mut h = press(data(CallbackOperation::Approve, Some(PHOTO)));
    assert!(matches!(h.handle(BotEvent::Begin), BotAction::FindPhoto { photo_id: PHOTO }));
    assert!(matches!(h.handle(BotEvent::Photo(None)), BotAction::Finish));
}

#[test]
fn approving_queues_the_photo_and_deletes_the_buttons() {
    let mut h = press(data(CallbackOperation::Approve, Some(PHOTO)));
    h.handle(BotEvent::Begin);
    assert!(matches!(
        h.handle(BotEvent::Photo(Some(found()))),
        BotAction::Enqueue(QueueMessage::Approve { photo: PHOTO })
    ));
    match h.handle(BotEvent::Done) {
        BotAction::Answer { callback_id, text: Some(Reply::ApprovalQueued) } => assert_eq!(callback_id, "cb-1"),
        other => panic!("unexpected {:?}", other),
    }
    assert!(matches!(h.handle(BotEvent::Done), BotAction::Delete { chat_id: 100, message_id: 55 }));
    assert!(matches!(h.handle(BotEvent::Done), BotAction::Finish));
}

#[test]
fn declining_asks_for_the_reason() {
    let mut h = press(data(CallbackOperation::Decline, Some(PHOTO)));
    h.handle(BotEvent::Begin);
    match h.handle(BotEvent::Photo(Some(found()))) {
        BotAction::SaveDeclineContext { user: 42, decline } => {
            assert_eq!(decline.photo_id, PHOTO);
            assert!(decline.reason.is_none());
        }
        other => panic!("unexpected {:?}", other),
    }
    assert!(matches!(
        h.handle(BotEvent::Saved(true)),
        BotAction::SetState(GlobalState::DeclinePhoto(decline_photo::State::Reason))
    ));
    assert!(matches!(
        h.handle(BotEvent::Done),
        BotAction::Send { chat_id: 100, reply: Reply::Phrase(Phrase::EnterDeclineReason), cancel_button: true }
    ));
    assert!(matches!(h.handle(BotEvent::Done), BotAction::Answer { text: None, .. }));
    assert!(matches!(h.handle(BotEvent::Done), BotAction::Finish));
}

#[test]
fn decline_not_stored_only_answers() {
    let mut h = press(data(CallbackOperation::Decline, Some(PHOTO)));
    h.handle(BotEvent::Begin);
    h.handle(BotEvent::Photo(Some(found())));
    assert!(matches!(h.handle(BotEvent::Saved(false)), BotAction::Answer { text: None, .. }));
    assert!(matches!(h.handle(BotEvent::Done), BotAction::Finish));
}

#[test]
fn cancel_press_outside_a_dialogue_changes_nothing() {
    let mut h = press(data(CallbackOperation::Cancel, Some(PHOTO)));
    assert!(matches!(h.handle(BotEvent::Begin), BotAction::FindPhoto { photo_id: PHOTO }));
    assert!(matches!(h.handle(BotEvent::Photo(Some(found()))), BotAction::Finish));
}

fn cancel_press(payload: CallbackPayload) -> CancelHandler {
    CancelHandler::new(CancelRequest {
        callback_id: String::from("cb-2"),
        chat_id: Some(100),
        message_id: Some(56),
        payload,
    })
}

#[test]
fn cancel_leaves_the_dialogue() {
    let mut h = cancel_press(data(CallbackOperation::Cancel, None));
    assert!(matches!(cancel_callback(&mut h, BotEvent::Begin), BotAction::SetState(GlobalState::Idle)));
    match cancel_callback(&mut h, BotEvent::Done) {
        BotAction::Answer { callback_id, text: Some(Reply::Phrase(Phrase::OperationCanceled)) } => {
            assert_eq!(callback_id, "cb-2")
        }
        other => panic!("unexpected {:?}", other),
    }
    assert!(matches!(cancel_callback(&mut h, BotEvent::Done), BotAction::Delete { chat_id: 100, message_id: 56 }));
    assert!(matches!(cancel_callback(&mut h, BotEvent::Done), BotAction::Finish));
}

#[test]
fn other_presses_inside_a_dialogue_do_nothing() {
    for payload in [CallbackPayload::Missing, CallbackPayload::Malformed, data(CallbackOperation::Approve, Some(PHOTO))] {
        let mut h = cancel_press(payload);
        assert!(matches!(cancel_callback(&mut h, BotEvent::Begin), BotAction::Finish));
    }
}

#[test]
fn cancel_keyboard() {
    let rows = get_cancel_markup();
    assert_eq!(
        rows,
        vec![vec![Button {
            label: ButtonLabel::Cancel,
            data: CallbackData { operation: CallbackOperation::Cancel, document: None }
        }]]
    );
    assert_eq!(ButtonLabel::Cancel.key(), "buttons.cancel");
}

#[test]
fn document_keyboard_and_its_buttons() {
    let rows = get_document_markup(&found());
    assert_eq!(rows.len(), 1);
    assert_eq!(rows[0].len(), 2);
    assert_eq!(rows[0][0].label, ButtonLabel::Approve);
    assert_eq!(rows[0][0].data, CallbackData { operation: CallbackOperation::Approve, document: Some(PHOTO) });
    assert_eq!(rows[0][1].label, ButtonLabel::Decline);
    assert_eq!(rows[0][1].data, CallbackData { operation: CallbackOperation::Decline, document: Some(PHOTO) });
    assert_eq!(ButtonLabel::Approve.key(), "buttons.approve");
    assert_eq!(ButtonLabel::Decline.key(), "buttons.decline");
    // pressing approve looks that photo up and queues it
    let mut h = press(CallbackPayload::Data(rows[0][0].data));
    assert!(matches!(h.handle(BotEvent::Begin), BotAction::FindPhoto { photo_id: PHOTO }));
    assert!(matches!(
        h.handle(BotEvent::Photo(Some(found()))),
        BotAction::Enqueue(QueueMessage::Approve { photo: PHOTO })
    ));
}
