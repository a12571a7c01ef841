//! The bot: its dialogue states and the decisions of its handlers.
//!
//! Each handler is a step function: given what came of the last piece of
//! outside work (`BotEvent`), it names the next piece of work (`BotAction`)
//! and moves to its next phase. The caller performs the work with Telegram,
//! the database and the queue, and reports back.
pub mod callback;
pub mod command;
pub mod dialogue;
pub mod markups;
pub mod types;

use vstd::prelude::*;
use crate::bot::dialogue::types::{BanUser, DeclinePhoto};

verus! {

/// The dialogue state a chat with the bot is in.
#[derive(Clone, Copy, Debug, PartialEq, Eq, Structural)]
pub enum GlobalState {
    Idle,
    BanUser(dialogue::ban_user::State),
    DeclinePhoto(dialogue::decline_photo::State),
}

/// A message text that is looked up in the translations.
#[derive(Clone, Copy, Debug, PartialEq, Eq, Structural)]
pub enum Phrase {
    StartGreeting,
    EnterBanReason,
    UserBanned,
    EnterDeclineReason,
    OperationCanceled,
}

impl Phrase {
    /// The translation key of the phrase.
    pub open spec fn key_text(self) -> Seq<char> {
        match self {
            Phrase::StartGreeting => "messages.start_greeting"@,
            Phrase::EnterBanReason => "messages.enter_ban_reason"@,
            Phrase::UserBanned => "messages.user_banned"@,
            Phrase::EnterDeclineReason => "messages.enter_decline_reason"@,
            Phrase::OperationCanceled => "messages.operation_canceled"@,
        }
    }

    /// Returns the translation key of the phrase.
    pub fn key(self) -> (key: &'static str)
        ensures
            key@ == self.key_text(),
    {
        match self {
            Phrase::StartGreeting => "messages.start_greeting",
            Phrase::EnterBanReason => "messages.enter_ban_reason",
            Phrase::UserBanned => "messages.user_banned",
            Phrase::EnterDeclineReason => "messages.enter_decline_reason",
            Phrase::OperationCanceled => "messages.operation_canceled",
        }
    }
}

/// What the bot says.
#[derive(Debug)]
pub enum Reply {
    /// A translated phrase.
    Phrase(Phrase),
    /// The bot's version, given the version text.
    Version(String),
    /// That the photo was put in the posting queue.
    ApprovalQueued,
}

/// A `Reply` with its text as a character sequence.
pub enum ReplyView {
    Phrase(Phrase),
    Version(Seq<char>),
    ApprovalQueued,
}

impl View for Reply {
    type V = ReplyView;

    open spec fn view(&self) -> ReplyView {
        match self {
            Reply::Phrase(p) => ReplyView::Phrase(*p),
            Reply::Version(v) => ReplyView::Version(v@),
            Reply::ApprovalQueued => ReplyView::ApprovalQueued,
        }
    }
}

impl ReplyView {
    /// The fixed text of a reply that is not translated.
    pub open spec fn literal_text(self) -> Option<Seq<char>> {
        match self {
            ReplyView::Phrase(_) => None,
            ReplyView::Version(v) => Some("Версия бота: "@ + v),
            ReplyView::ApprovalQueued => Some("Отправил в очередь на постинг"@),
        }
    }
}

impl Reply {
    /// The text of a reply that is not translated: `Версия бота: <version>`
    /// for the version, the queue notice for an approval; `None` for a
    /// phrase, whose text is its translation.
    pub fn literal(&self) -> (text: Option<String>)
        ensures
            text_of_option(text) == self@.literal_text(),
    {
        match self {
            Reply::Phrase(_) => None,
            Reply::Version(v) => {
                let mut text = String::from_str("Версия бота: ");
                text.append(v.as_str());
                Some(text)
            },
            Reply::ApprovalQueued => Some(String::from_str("Отправил в очередь на постинг")),
        }
    }
}

/// The text of an optional string.
pub open spec fn text_of_option(o: Option<String>) -> Option<Seq<char>> {
    match o {
        Some(s) => Some(s@),
        None => None,
    }
}

/// A message put in the posting queue.
#[derive(Debug)]
pub enum QueueMessage {
    /// Publish the photo.
    Approve { photo: u128 },
    /// Reject the photo, telling the sender why.
    Decline { photo: u128, reason: String },
}

/// A `QueueMessage` with its text as a character sequence.
pub enum QueueMessageView {
    Approve { photo: u128 },
    Decline { photo: u128, reason: Seq<char> },
}

impl View for QueueMessage {
    type V = QueueMessageView;

    open spec fn view(&self) -> QueueMessageView {
        match self {
            QueueMessage::Approve { photo } => QueueMessageView::Approve { photo: *photo },
            QueueMessage::Decline { photo, reason } => QueueMessageView::Decline {
                photo: *photo,
                reason: reason@,
            },
        }
    }
}

/// A photo as stored in the database.
#[derive(Clone, Copy, Debug, PartialEq, Eq, Structural)]
pub struct PhotoRecord {
    /// The photo's id (a UUID, by its 128-bit big-endian value).
    pub uuid: u128,
    /// The user who sent it.
    pub user_id: i64,
    /// The message that shows it to the moderator, where there is one.
    pub msg_id: Option<i64>,
}

/// A piece of outside work a handler asks for.
#[derive(Debug)]
pub enum BotAction {
    /// Tell whether the chat's user is banned.
    CheckBanned { chat_id: i64 },
    /// Look up the photo shown by a message.
    FindPhotoByMessage { message_id: i32 },
    /// Look up a photo by its id.
    FindPhoto { photo_id: u128 },
    /// Remember a ban in progress for the moderator; tell whether it was stored.
    SaveBanContext { user: i64, ban: BanUser },
    /// Remember a decline in progress for the moderator; tell whether it was stored.
    SaveDeclineContext { user: i64, decline: DeclinePhoto },
    /// Fetch the moderator's ban in progress.
    LoadBanContext { user: i64 },
    /// Fetch the moderator's decline in progress.
    LoadDeclineContext { user: i64 },
    /// Move the chat to a dialogue state.
    SetState(GlobalState),
    /// Send a message to a chat, with a cancel button or without.
    Send { chat_id: i64, reply: Reply, cancel_button: bool },
    /// Answer a callback query, with a notice or without.
    Answer { callback_id: String, text: Option<Reply> },
    /// Delete a message.
    Delete { chat_id: i64, message_id: i32 },
    /// Put a message in the posting queue.
    Enqueue(QueueMessage),
    /// Ban a user for a reason.
    Ban { user_id: i64, reason: String },
    /// The handler is done.
    Finish,
}

/// A `BotAction` with its texts as character sequences.
pub enum BotActionView {
    CheckBanned { chat_id: i64 },
    FindPhotoByMessage { message_id: i32 },
    FindPhoto { photo_id: u128 },
    SaveBanContext { user: i64, user_id: i64, ban_reason: Option<Seq<char>> },
    SaveDeclineContext { user: i64, photo_id: u128, decline_reason: Option<Seq<char>> },
    LoadBanContext { user: i64 },
    LoadDeclineContext { user: i64 },
    SetState(GlobalState),
    Send { chat_id: i64, reply: ReplyView, cancel_button: bool },
    Answer { callback_id: Seq<char>, text: Option<ReplyView> },
    Delete { chat_id: i64, message_id: i32 },
    Enqueue(QueueMessageView),
    Ban { user_id: i64, reason: Seq<char> },
    Finish,
}

impl View for BotAction {
    type V = BotActionView;

    open spec fn view(&self) -> BotActionView {
        match self {
            BotAction::CheckBanned { chat_id } => BotActionView::CheckBanned { chat_id: *chat_id },
            BotAction::FindPhotoByMessage { message_id } => BotActionView::FindPhotoByMessage {
                message_id: *message_id,
            },
            BotAction::FindPhoto { photo_id } => BotActionView::FindPhoto { photo_id: *photo_id },
            BotAction::SaveBanContext { user, ban } => BotActionView::SaveBanContext {
                user: *user,
                user_id: ban.user_id,
                ban_reason: text_of_option(ban.reason),
            },
            BotAction::SaveDeclineContext { user, decline } => BotActionView::SaveDeclineContext {
                user: *user,
                photo_id: decline.photo_id,
                decline_reason: text_of_option(decline.reason),
            },
            BotAction::LoadBanContext { user } => BotActionView::LoadBanContext { user: *user },
            BotAction::LoadDeclineContext { user } => BotActionView::LoadDeclineContext {
                user: *user,
            },
            BotAction::SetState(s) => BotActionView::SetState(*s),
            BotAction::Send { chat_id, reply, cancel_button } => BotActionView::Send {
                chat_id: *chat_id,
                reply: reply@,
                cancel_button: *cancel_button,
            },
            BotAction::Answer { callback_id, text } => BotActionView::Answer {
                callback_id: callback_id@,
                text: match text {
                    Some(r) => Some(r@),
                    None => None,
                },
            },
            BotAction::Delete { chat_id, message_id } => BotActionView::Delete {
                chat_id: *chat_id,
                message_id: *message_id,
            },
            BotAction::Enqueue(m) => BotActionView::Enqueue(m@),
            BotAction::Ban { user_id, reason } => BotActionView::Ban {
                user_id: *user_id,
                reason: reason@,
            },
            BotAction::Finish => BotActionView::Finish,
        }
    }
}

/// What came of the last piece of outside work.
#[derive(Debug)]
pub enum BotEvent {
    /// The handler begins; nothing has been done yet.
    Begin,
    /// The work is done and tells nothing back.
    Done,
    /// Whether the user is banned.
    Banned(bool),
    /// The photo found, if any.
    Photo(Option<PhotoRecord>),
    /// Whether the dialogue context was stored.
    Saved(bool),
    /// The ban in progress found, if any.
    BanContext(Option<BanUser>),
    /// The decline in progress found, if any.
    DeclineContext(Option<DeclinePhoto>),
}

} // verus!
