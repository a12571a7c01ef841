//! Dialogues: the steps of the conversations the moderator goes through.
pub mod ban_user;
pub mod decline_photo;
pub mod types;

use vstd::prelude::*;
use crate::bot::{
    text_of_option, BotAction, BotActionView, BotEvent, GlobalState, Phrase, PhotoRecord,
    QueueMessageView, Reply, ReplyView,
};
use crate::bot::callback::{CallbackHandler, CallbackPhase, CallbackRequest};
use crate::bot::command::{BotCommand, CommandHandler, CommandPhase, CommandRequest};
use crate::bot::dialogue::types::{BanUser, DeclinePhoto};
use crate::bot::callback::CallbackPayload;
use crate::bot::types::CallbackOperation;

verus! {

/// What the handler of a press of the cancel button knows of the callback query.
pub struct CancelRequest {
    /// The query's id.
    pub callback_id: String,
    /// The chat the query comes from, where known.
    pub chat_id: Option<i64>,
    /// The message that holds the button, where known.
    pub message_id: Option<i32>,
    /// The query's payload.
    pub payload: CallbackPayload,
}

/// Where the handling of a cancel stands.
#[derive(Clone, Copy, Debug, PartialEq, Eq, Structural)]
pub enum CancelPhase {
    Start,
    Resetting,
    Answering,
    Deleting,
    Done,
}

/// The handling of one press of a button while a dialogue is open.
pub struct CancelHandler {
    pub request: CancelRequest,
    pub phase: CancelPhase,
}

impl CancelHandler {
    /// Begins handling the press.
    pub fn new(request: CancelRequest) -> (handler: CancelHandler)
        ensures
            handler.request == request,
            handler.phase == CancelPhase::Start,
    {
        CancelHandler { request, phase: CancelPhase::Start }
    }
}

impl CancelHandler {
    /// Whether the handler can take `event` now (see `cancel_accepts`).
    pub fn can_take(&self, event: &BotEvent) -> (ok: bool)
        ensures
            ok == cancel_accepts(self.request, self.phase, *event),
    {
        match (self.phase, event) {
            (CancelPhase::Start, BotEvent::Begin) => true,
            (CancelPhase::Resetting, BotEvent::Done) => true,
            (CancelPhase::Answering, BotEvent::Done) => {
                self.request.chat_id.is_some() && self.request.message_id.is_some()
            },
            (CancelPhase::Deleting, BotEvent::Done) => true,
            (CancelPhase::Done, _) => true,
            _ => false,
        }
    }
}

/// Whether the handler can take `event` in `phase`: the event must be the
/// outcome of the work last asked for, and deleting the button's message
/// needs its chat and id.
pub open spec fn cancel_accepts(request: CancelRequest, phase: CancelPhase, event: BotEvent) -> bool {
    match (phase, event) {
        (CancelPhase::Start, BotEvent::Begin) => true,
        (CancelPhase::Resetting, BotEvent::Done) => true,
        (CancelPhase::Answering, BotEvent::Done) => request.chat_id is Some
            && request.message_id is Some,
        (CancelPhase::Deleting, BotEvent::Done) => true,
        (CancelPhase::Done, _) => true,
        _ => false,
    }
}

/// The handling of a press while a dialogue is open: unless the payload was
/// read and asks to cancel, nothing is done. Else the chat goes back to idle,
/// the query is answered with the cancel notice, and the message with the
/// button is deleted.
pub open spec fn cancel_next(request: CancelRequest, phase: CancelPhase, event: BotEvent) -> (
    CancelPhase,
    BotActionView,
) {
    match (phase, event) {
        (CancelPhase::Start, BotEvent::Begin) => match request.payload {
            CallbackPayload::Data(data) => if data.operation == CallbackOperation::Cancel {
                (CancelPhase::Resetting, BotActionView::SetState(GlobalState::Idle))
            } else {
                (CancelPhase::Done, BotActionView::Finish)
            },
            _ => (CancelPhase::Done, BotActionView::Finish),
        },
        (CancelPhase::Resetting, BotEvent::Done) => (
            CancelPhase::Answering,
            BotActionView::Answer {
                callback_id: request.callback_id@,
                text: Some(ReplyView::Phrase(Phrase::OperationCanceled)),
            },
        ),
        (CancelPhase::Answering, BotEvent::Done) => (
            CancelPhase::Deleting,
            BotActionView::Delete {
                chat_id: request.chat_id.unwrap(),
                message_id: request.message_id.unwrap(),
            },
        ),
        _ => (CancelPhase::Done, BotActionView::Finish),
    }
}

/// Takes the next step of handling a press while a dialogue is open (see
/// `cancel_next`).
pub fn cancel_callback(handler: &mut CancelHandler, event: BotEvent) -> (action: BotAction)
    requires
        cancel_accepts(old(handler).request, old(handler).phase, event),
    ensures
        final(handler).request == old(handler).request,
        final(handler).phase == cancel_next(old(handler).request, old(handler).phase, event).0,
        action@ == cancel_next(old(handler).request, old(handler).phase, event).1,
{
    match event {
        BotEvent::Begin => {
            if handler.phase == CancelPhase::Start {
                match handler.request.payload {
                    CallbackPayload::Data(data) => {
                        if data.operation == CallbackOperation::Cancel {
                            handler.phase = CancelPhase::Resetting;
                            return BotAction::SetState(GlobalState::Idle);
                        }
                    },
                    _ => {},
                }
            }
            handler.phase = CancelPhase::Done;
            BotAction::Finish
        },
        BotEvent::Done => {
            if handler.phase == CancelPhase::Resetting {
                handler.phase = CancelPhase::Answering;
                BotAction::Answer {
                    callback_id: handler.request.callback_id.clone(),
                    text: Some(Reply::Phrase(Phrase::OperationCanceled)),
                }
            } else if handler.phase == CancelPhase::Answering {
                handler.phase = CancelPhase::Deleting;
                BotAction::Delete {
                    chat_id: handler.request.chat_id.unwrap(),
                    message_id: handler.request.message_id.unwrap(),
                }
            } else {
                handler.phase = CancelPhase::Done;
                BotAction::Finish
            }
        },
        _ => {
            handler.phase = CancelPhase::Done;
            BotAction::Finish
        },
    }
}

/// How many more steps handling a press while a dialogue is open can take from a phase.
pub open spec fn cancel_rank(phase: CancelPhase) -> nat {
    match phase {
        CancelPhase::Start => 4,
        CancelPhase::Resetting => 3,
        CancelPhase::Answering => 2,
        CancelPhase::Deleting => 1,
        CancelPhase::Done => 0,
    }
}

/// Every step of handling a press while a dialogue is open that does not
/// finish it brings it closer to the end; a press that does not ask to
/// cancel leaves the dialogue as it is.
pub proof fn cancel_handling_ends(request: CancelRequest, phase: CancelPhase, event: BotEvent)
    requires
        cancel_accepts(request, phase, event),
    ensures
        cancel_next(request, phase, event).0 == CancelPhase::Done || cancel_rank(
            cancel_next(request, phase, event).0,
        ) < cancel_rank(phase),
        phase == CancelPhase::Start && !(request.payload matches CallbackPayload::Data(d)
            && d.operation == CallbackOperation::Cancel) ==> cancel_next(request, phase, event) == (
            CancelPhase::Done,
            BotActionView::Finish,
        ),
{
}

/// Whether `stored` is the ban in progress that `/ban` stores once it has
/// found `photo`.
pub open spec fn stores_ban(request: CommandRequest, photo: PhotoRecord, stored: BanUser) -> bool {
    CommandHandler::next(request, CommandPhase::FindingPhoto, BotEvent::Photo(Some(photo))).1
        == (BotActionView::SaveBanContext {
        user: request.admin_id,
        user_id: stored.user_id,
        ban_reason: text_of_option(stored.reason),
    })
}

/// Whether `stored` is the decline in progress that a press of a decline
/// button stores once it has found `photo`.
pub open spec fn stores_decline(request: CallbackRequest, photo: PhotoRecord, stored: DeclinePhoto) -> bool {
    CallbackHandler::next(request, CallbackPhase::FindingPhoto, BotEvent::Photo(Some(photo))).1
        == (BotActionView::SaveDeclineContext {
        user: request.sender as i64,
        photo_id: stored.photo_id,
        decline_reason: text_of_option(stored.reason),
    })
}

/// The ban the administrator's `/ban` sets up is the ban the reason is given
/// for: where the store gives back the ban in progress that `/ban` stored,
/// the reason message of the administrator loads it and bans the sender of
/// the photo the command replied to, for the message's text.
pub proof fn reason_bans_the_sender_of_the_replied_photo(
    request: CommandRequest,
    photo: PhotoRecord,
    stored: BanUser,
    message: ban_user::ReasonMessage,
)
    requires
        request.command == BotCommand::Ban,
        request.sender is Some,
        request.sender.unwrap() as i64 == request.admin_id,
        stores_ban(request, photo, stored),
        message.sender == request.sender,
        message.text is Some,
    ensures
        ban_user::next(message, ban_user::ReasonPhase::Start, BotEvent::Begin) == (
            ban_user::ReasonPhase::Loading,
            (BotActionView::LoadBanContext { user: request.admin_id }),
        ),
        ban_user::next(message, ban_user::ReasonPhase::Loading, BotEvent::BanContext(Some(stored)))
            == (
            ban_user::ReasonPhase::Banning,
            (BotActionView::Ban { user_id: photo.user_id, reason: message.text.unwrap()@ }),
        ),
{
}

/// The queue message that declines `photo` for the reason `text`.
pub open spec fn decline_of(photo: PhotoRecord, text: Option<String>) -> BotActionView {
    BotActionView::Enqueue(
        QueueMessageView::Decline { photo: photo.uuid, reason: decline_photo::reason_text(text) },
    )
}

/// The photo a moderator declines is the photo whose decline button was
/// pressed: where the store gives back the decline in progress that the
/// press stored, the moderator's reason message loads it, queues that photo
/// as declined with the message's text, resets the dialogue and then looks
/// the photo up to delete the message that showed it.
pub proof fn reason_declines_the_pressed_photo(
    request: CallbackRequest,
    photo: PhotoRecord,
    stored: DeclinePhoto,
    message: decline_photo::ReasonMessage,
)
    requires
        stores_decline(request, photo, stored),
        message.sender == Some(request.sender),
    ensures
        decline_photo::next(message, decline_photo::ReasonPhase::Start, BotEvent::Begin) == (
            decline_photo::ReasonPhase::Loading,
            (BotActionView::LoadDeclineContext { user: request.sender as i64 }),
        ),
        decline_photo::next(
            message,
            decline_photo::ReasonPhase::Loading,
            BotEvent::DeclineContext(Some(stored)),
        ) == (decline_photo::ReasonPhase::Enqueueing(photo.uuid), decline_of(photo, message.text)),
        decline_photo::next(message, decline_photo::ReasonPhase::Enqueueing(photo.uuid), BotEvent::Done)
            == (decline_photo::ReasonPhase::Resetting(photo.uuid), BotActionView::SetState(GlobalState::Idle)),
        decline_photo::next(message, decline_photo::ReasonPhase::Resetting(photo.uuid), BotEvent::Done)
            == (
            decline_photo::ReasonPhase::FindingPhoto,
            (BotActionView::FindPhoto { photo_id: photo.uuid }),
        ),
{
}

/// Everything the handling of a press while a dialogue is open does stays
/// with that press: the answer goes to the press's own query, with the
/// cancel notice, and the message deleted is the one that holds the button.
pub proof fn cancel_actions_stay_with_the_press(request: CancelRequest, phase: CancelPhase, event: BotEvent)
    requires
        cancel_accepts(request, phase, event),
    ensures
        cancel_next(request, phase, event).1 matches BotActionView::Answer { callback_id, text }
            ==> callback_id == request.callback_id@ && text == Some(
            ReplyView::Phrase(Phrase::OperationCanceled),
        ),
        cancel_next(request, phase, event).1 matches BotActionView::Delete { chat_id, message_id }
            ==> request.chat_id == Some(chat_id) && request.message_id == Some(message_id),
        cancel_next(request, phase, event).1 matches BotActionView::SetState(s) ==> s == GlobalState::Idle,
{
}

} // verus!
