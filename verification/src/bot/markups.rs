//! The inline keyboards the bot attaches to its messages.
use vstd::prelude::*;
use crate::bot::{BotActionView, BotEvent, GlobalState, PhotoRecord, QueueMessageView};
use crate::bot::callback::{CallbackHandler, CallbackPayload, CallbackPhase, CallbackRequest};
use crate::bot::dialogue::{cancel_next, CancelPhase, CancelRequest};
use crate::bot::types::{CallbackData, CallbackOperation};

verus! {

/// The caption of a button, looked up in the translations.
#[derive(Clone, Copy, Debug, PartialEq, Eq, Structural)]
pub enum ButtonLabel {
    Cancel,
    Approve,
    Decline,
}

impl ButtonLabel {
    /// The translation key of the caption.
    pub open spec fn key_text(self) -> Seq<char> {
        match self {
            ButtonLabel::Cancel => "buttons.cancel"@,
            ButtonLabel::Approve => "buttons.approve"@,
            ButtonLabel::Decline => "buttons.decline"@,
        }
    }

    /// Returns the translation key of the caption.
    pub fn key(self) -> (key: &'static str)
        ensures
            key@ == self.key_text(),
    {
        match self {
            ButtonLabel::Cancel => "buttons.cancel",
            ButtonLabel::Approve => "buttons.approve",
            ButtonLabel::Decline => "buttons.decline",
        }
    }
}

/// An inline button: its caption and the payload it sends when pressed.
#[derive(Clone, Copy, Debug, PartialEq, Eq, Structural)]
pub struct Button {
    pub label: ButtonLabel,
    pub data: CallbackData,
}

/// The rows of buttons of a keyboard.
pub open spec fn rows_of(rows: Seq<Vec<Button>>) -> Seq<Seq<Button>> {
    rows.map_values(|row: Vec<Button>| row@)
}

/// The keyboard with a single cancel button.
pub open spec fn cancel_keyboard() -> Seq<Seq<Button>> {
    seq![
        seq![
            Button {
                label: ButtonLabel::Cancel,
                data: CallbackData { operation: CallbackOperation::Cancel, document: None },
            },
        ],
    ]
}

/// The moderation keyboard of a photo: approve and decline, side by side,
/// each naming the photo.
pub open spec fn document_keyboard(photo_id: u128) -> Seq<Seq<Button>> {
    seq![
        seq![
            Button {
                label: ButtonLabel::Approve,
                data: CallbackData { operation: CallbackOperation::Approve, document: Some(photo_id) },
            },
            Button {
                label: ButtonLabel::Decline,
                data: CallbackData { operation: CallbackOperation::Decline, document: Some(photo_id) },
            },
        ],
    ]
}

/// The keyboard that lets the moderator leave a dialogue.
pub fn get_cancel_markup() -> (rows: Vec<Vec<Button>>)
    ensures
        rows_of(rows@) == cancel_keyboard(),
{
    let mut row: Vec<Button> = Vec::new();
    row.push(
        Button { label: ButtonLabel::Cancel, data: CallbackData::new(CallbackOperation::Cancel) },
    );
    assert(row@ =~= cancel_keyboard()[0]);
    let mut rows: Vec<Vec<Button>> = Vec::new();
    rows.push(row);
    assert(rows_of(rows@) =~= cancel_keyboard());
    rows
}

/// The keyboard under a photo shown to the moderator.
pub fn get_document_markup(model: &PhotoRecord) -> (rows: Vec<Vec<Button>>)
    ensures
        rows_of(rows@) == document_keyboard(model.uuid),
{
    let mut row: Vec<Button> = Vec::new();
    row.push(
        Button {
            label: ButtonLabel::Approve,
            data: CallbackData { operation: CallbackOperation::Approve, document: Some(model.uuid) },
        },
    );
    row.push(
        Button {
            label: ButtonLabel::Decline,
            data: CallbackData { operation: CallbackOperation::Decline, document: Some(model.uuid) },
        },
    );
    assert(row@ =~= document_keyboard(model.uuid)[0]);
    let mut rows: Vec<Vec<Button>> = Vec::new();
    rows.push(row);
    assert(rows_of(rows@) =~= document_keyboard(model.uuid));
    rows
}

/// Pressing approve under a photo looks that photo up and, once it is
/// found, puts the found photo in the posting queue.
pub proof fn approve_button_queues_its_photo(photo_id: u128, request: CallbackRequest, found: PhotoRecord)
    requires
        request.payload == CallbackPayload::Data(document_keyboard(photo_id)[0][0].data),
    ensures
        CallbackHandler::next(request, CallbackPhase::Start, BotEvent::Begin) == (
            CallbackPhase::FindingPhoto,
            BotActionView::FindPhoto { photo_id },
        ),
        CallbackHandler::next(request, CallbackPhase::FindingPhoto, BotEvent::Photo(Some(found))) == (
            CallbackPhase::Enqueueing,
            BotActionView::Enqueue(QueueMessageView::Approve { photo: found.uuid }),
        ),
{
}

/// Pressing decline under a photo looks that photo up and, once it is
/// found, remembers it as the photo the presser is declining.
pub proof fn decline_button_starts_declining_its_photo(
    photo_id: u128,
    request: CallbackRequest,
    found: PhotoRecord,
)
    requires
        request.payload == CallbackPayload::Data(document_keyboard(photo_id)[0][1].data),
    ensures
        CallbackHandler::next(request, CallbackPhase::Start, BotEvent::Begin) == (
            CallbackPhase::FindingPhoto,
            BotActionView::FindPhoto { photo_id },
        ),
        CallbackHandler::next(request, CallbackPhase::FindingPhoto, BotEvent::Photo(Some(found))) == (
            CallbackPhase::SavingContext,
            BotActionView::SaveDeclineContext {
                user: request.sender as i64,
                photo_id: found.uuid,
                decline_reason: None,
            },
        ),
{
}

/// Pressing the cancel button while a dialogue is open takes the chat back
/// to idle; pressed outside a dialogue, it does nothing.
pub proof fn cancel_button_leaves_the_dialogue(cancel: CancelRequest, press: CallbackRequest)
    requires
        cancel.payload == CallbackPayload::Data(cancel_keyboard()[0][0].data),
        press.payload == CallbackPayload::Data(cancel_keyboard()[0][0].data),
    ensures
        cancel_next(cancel, CancelPhase::Start, BotEvent::Begin) == (
            CancelPhase::Resetting,
            BotActionView::SetState(GlobalState::Idle),
        ),
        CallbackHandler::next(press, CallbackPhase::Start, BotEvent::Begin) == (
            CallbackPhase::Done,
            BotActionView::Finish,
        ),
{
}

} // verus!
