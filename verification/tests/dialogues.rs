use memebot::bot::dialogue::types::{BanUser, DeclinePhoto};
use memebot::bot::dialogue::{ban_user, decline_photo};
use memebot::bot::{BotAction, BotEvent, GlobalState, Phrase, PhotoRecord, QueueMessage, Reply};
use memebot::db::types::{NewMeme, NewUser, PhotoMessage};
use memebot::types::TelegramUser;

#[test]
fn ban_reason_bans_the_user_in_progress() {
    let mut h = ban_user::SetReason::new(ban_user::ReasonMessage {
        chat_id: 100,
        sender: Some(42),
        text: Some(String::from("spam")),
    });
    assert!(matches!(ban_user::set_reason(&mut h, BotEvent::Begin), BotAction::LoadBanContext { user: 42 }));
    let ctx = BanUser { user_id: 777, reason: None };
    match ban_user::set_reason(&mut h, BotEvent::BanContext(Some(ctx))) {
        BotAction::Ban { user_id: 777, reason } => assert_eq!(reason, "spam"),
        other => panic!("unexpected {:?}", other),
    }
    assert!(matches!(
        ban_user::set_reason(&mut h, BotEvent::Done),
        BotAction::Send { chat_id: 100, reply: Reply::Phrase(Phrase::UserBanned), cancel_button: false }
    ));
    assert!(matches!(ban_user::set_reason(&mut h, BotEvent::Done), BotAction::SetState(GlobalState::Idle)));
    assert!(matches!(ban_user::set_reason(&mut h, BotEvent::Done), BotAction::Finish));
}

#[test]
fn ban_reason_without_sender_or_ban_does_nothing() {
    let mut h = ban_user::SetReason::new(ban_user::ReasonMessage { chat_id: 1, sender: None, text: None });
    assert!(matches!(ban_user::set_reason(&mut h, BotEvent::Begin), BotAction::Finish));
    let mut h = ban_user::SetReason::new(ban_user::ReasonMessage { chat_id: 1, sender: Some(3), text: None });
    ban_user::set_reason(&mut h, BotEvent::Begin);
    assert!(matches!(ban_user::set_reason(&mut h, BotEvent::BanContext(None)), BotAction::Finish));
}

#[test]
fn decline_reason_declines_the_photo_in_progress() {
    let mut h = decline_photo::SetReason::new(decline_photo::ReasonMessage {
        chat_id: 100,
        sender: Some(42),
        text: Some(String::from("blurry")),
    });
    assert!(matches!(
        decline_photo::set_reason(&mut h, BotEvent::Begin),
        BotAction::LoadDeclineContext { user: 42 }
    ));
    let ctx = DeclinePhoto { photo_id: 5, reason: None };
    match decline_photo::set_reason(&mut h, BotEvent::DeclineContext(Some(ctx))) {
        BotAction::Enqueue(QueueMessage::Decline { photo: 5, reason }) => assert_eq!(reason, "blurry"),
        other => panic!("unexpected {:?}", other),
    }
    assert!(matches!(decline_photo::set_reason(&mut h, BotEvent::Done), BotAction::SetState(GlobalState::Idle)));
    assert!(matches!(decline_photo::set_reason(&mut h, BotEvent::Done), BotAction::FindPhoto { photo_id: 5 }));
    let photo = PhotoRecord { uuid: 5, user_id: 9, msg_id: Some(4_294_967_297) };
    // the stored message id is narrowed to 32 bits, as Telegram ids are
    assert!(matches!(
        decline_photo::set_reason(&mut h, BotEvent::Photo(Some(photo))),
        BotAction::Delete { chat_id: 100, message_id: 1 }
    ));
    assert!(matches!(decline_photo::set_reason(&mut h, BotEvent::Done), BotAction::Finish));
}

#[test]
fn decline_reason_without_text_is_empty() {
    let mut h = decline_photo::SetReason::new(decline_photo::ReasonMessage { chat_id: 1, sender: Some(2), text: None });
    decline_photo::set_reason(&mut h, BotEvent::Begin);
    match decline_photo::set_reason(&mut h, BotEvent::DeclineContext(Some(DeclinePhoto::default()))) {
        BotAction::Enqueue(QueueMessage::Decline { photo: 0, reason }) => assert_eq!(reason, ""),
        other => panic!("unexpected {:?}", other),
    }
}

#[test]
fn decline_reason_without_decline_does_nothing() {
    let mut h = decline_photo::SetReason::new(decline_photo::ReasonMessage { chat_id: 1, sender: Some(2), text: None });
    decline_photo::set_reason(&mut h, BotEvent::Begin);
    assert!(matches!(decline_photo::set_reason(&mut h, BotEvent::DeclineContext(None)), BotAction::Finish));
}

#[test]
fn dialogue_defaults() {
    let ban = BanUser::default();
    assert_eq!(ban.user_id, 0);
    assert!(ban.reason.is_none());
    assert_eq!(ban_user::State::default(), ban_user::State::Reason);
    assert_eq!(decline_photo::State::default(), decline_photo::State::Reason);
}

#[test]
fn rows_from_telegram() {
    let user = TelegramUser {
        id: 12,
        first_name: String::from("Ann"),
        last_name: Some(String::from("Lee")),
        username: None,
    };
    let row = NewUser::from(user);
    assert_eq!(row.user_id, 12);
    assert_eq!(row.firstname, "Ann");
    assert_eq!(row.lastname, Some(String::from("Lee")));
    assert!(row.username.is_none());
    let meme = NewMeme::from_message(PhotoMessage {
        sender: Some(12),
        photo_file_ids: vec![String::from("small"), String::from("big")],
    });
    assert_eq!(meme.user_id, 12);
    assert_eq!(meme.photo_id, "small");
}
