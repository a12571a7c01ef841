use memebot::bot::command::{BotCommand, CommandHandler, CommandPhase, CommandRequest};
use memebot::bot::dialogue::ban_user;
use memebot::bot::{BotAction, BotEvent, GlobalState, Phrase, PhotoRecord, Reply};

fn request(command: BotCommand, is_private: bool, sender: Option<u64>, reply_to: Option<i32>) -> CommandRequest {
    CommandRequest {
        chat_id: 100,
        message_id: 7,
        is_private,
        sender,
        reply_to,
        command,
        version: String::from("1.2.3"),
        admin_id: 42,
    }
}

#[test]
fn commands_outside_private_chats_do_nothing() {
    let mut h = CommandHandler::new(request(BotCommand::Help, false, Some(1), None));
    assert!(matches!(h.handle(BotEvent::Begin), BotAction::Finish));
    assert_eq!(h.phase, CommandPhase::Done);
}

#[test]
fn banned_users_get_no_answer() {
    let mut h = CommandHandler::new(request(BotCommand::Start, true, Some(1), None));
    assert!(matches!(h.handle(BotEvent::Begin), BotAction::CheckBanned { chat_id: 100 }));
    assert!(matches!(h.handle(BotEvent::Banned(true)), BotAction::Finish));
    assert_eq!(h.phase, CommandPhase::Done);
}

#[test]
fn help_answers_with_the_version() {
    let mut h = CommandHandler::new(request(BotCommand::Help, true, Some(1), None));
    h.handle(BotEvent::Begin);
    match h.handle(BotEvent::Banned(false)) {
        BotAction::Send { chat_id: 100, reply, cancel_button: false } => {
            assert_eq!(reply.literal(), Some(String::from("Версия бота: 1.2.3")));
        }
        other => panic!("unexpected {:?}", other),
    }
    assert!(matches!(h.handle(BotEvent::Done), BotAction::Finish));
}

#[test]
fn start_answers_with_the_greeting() {
    let mut h = CommandHandler::new(request(BotCommand::Start, true, Some(1), None));
    h.handle(BotEvent::Begin);
    assert!(matches!(
        h.handle(BotEvent::Banned(false)),
        BotAction::Send { chat_id: 100, reply: Reply::Phrase(Phrase::StartGreeting), cancel_button: false }
    ));
    assert!(matches!(h.handle(BotEvent::Done), BotAction::Finish));
}

#[test]
fn ban_from_others_does_nothing() {
    let mut h = CommandHandler::new(request(BotCommand::Ban, true, Some(5), Some(3)));
    h.handle(BotEvent::Begin);
    assert!(matches!(h.handle(BotEvent::Banned(false)), BotAction::Finish));
    assert_eq!(h.phase, CommandPhase::Done);
}

#[test]
fn ban_without_reply_only_deletes_the_command() {
    let mut h = CommandHandler::new(request(BotCommand::Ban, true, Some(42), None));
    h.handle(BotEvent::Begin);
    assert!(matches!(h.handle(BotEvent::Banned(false)), BotAction::Delete { chat_id: 100, message_id: 7 }));
    assert!(matches!(h.handle(BotEvent::Done), BotAction::Finish));
}

#[test]
fn ban_with_reply_asks_for_the_reason() {
    let mut h = CommandHandler::new(request(BotCommand::Ban, true, Some(42), Some(3)));
    h.handle(BotEvent::Begin);
    assert!(matches!(h.handle(BotEvent::Banned(false)), BotAction::FindPhotoByMessage { message_id: 3 }));
    let photo = PhotoRecord { uuid: 9, user_id: 777, msg_id: Some(3) };
    match h.handle(BotEvent::Photo(Some(photo))) {
        BotAction::SaveBanContext { user: 42, ban } => {
            assert_eq!(ban.user_id, 777);
            assert!(ban.reason.is_none());
        }
        other => panic!("unexpected {:?}", other),
    }
    assert!(matches!(
        h.handle(BotEvent::Saved(true)),
        BotAction::SetState(GlobalState::BanUser(ban_user::State::Reason))
    ));
    assert!(matches!(
        h.handle(BotEvent::Done),
        BotAction::Send { chat_id: 100, reply: Reply::Phrase(Phrase::EnterBanReason), cancel_button: true }
    ));
    assert!(matches!(h.handle(BotEvent::Done), BotAction::Delete { chat_id: 100, message_id: 7 }));
    assert!(matches!(h.handle(BotEvent::Done), BotAction::Finish));
}

#[test]
fn ban_not_stored_only_deletes_the_command() {
    let mut h = CommandHandler::new(request(BotCommand::Ban, true, Some(42), Some(3)));
    h.handle(BotEvent::Begin);
    h.handle(BotEvent::Banned(false));
    h.handle(BotEvent::Photo(Some(PhotoRecord { uuid: 9, user_id: 777, msg_id: None })));
    assert!(matches!(h.handle(BotEvent::Saved(false)), BotAction::Delete { chat_id: 100, message_id: 7 }));
}

#[test]
fn phrase_keys() {
    assert_eq!(Phrase::StartGreeting.key(), "messages.start_greeting");
    assert_eq!(Phrase::EnterBanReason.key(), "messages.enter_ban_reason");
    assert_eq!(Phrase::UserBanned.key(), "messages.user_banned");
    assert_eq!(Phrase::EnterDeclineReason.key(), "messages.enter_decline_reason");
    assert_eq!(Phrase::OperationCanceled.key(), "messages.operation_canceled");
}

#[test]
fn literal_replies() {
    assert_eq!(Reply::ApprovalQueued.literal(), Some(String::from("Отправил в очередь на постинг")));
    assert_eq!(Reply::Version(String::from("unknown")).literal(), Some(String::from("Версия бота: unknown")));
    assert_eq!(Reply::Phrase(Phrase::UserBanned).literal(), None);
}
