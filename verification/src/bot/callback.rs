//! Presses of the moderation buttons under a photo.
use vstd::prelude::*;
use crate::bot::{
    BotAction, BotActionView, BotEvent, GlobalState, Phrase, PhotoRecord, QueueMessage, QueueMessageView, Reply,
    ReplyView,
};
use crate::bot::dialogue::decline_photo;
use crate::bot::dialogue::types::DeclinePhoto;
use crate::bot::types::{CallbackData, CallbackOperation};

verus! {

/// The payload of a callback query, as far as it could be read.
#[derive(Clone, Copy, Debug, PartialEq, Eq, Structural)]
pub enum CallbackPayload {
    /// The query carries no data.
    Missing,
    /// The data is not a `CallbackData`.
    Malformed,
    /// The data.
    Data(CallbackData),
}

/// What the handler of a button press knows of the callback query.
pub struct CallbackRequest {
    /// The query's id.
    pub callback_id: String,
    /// The user who pressed the button.
    pub sender: u64,
    /// The chat the query comes from, where known.
    pub chat_id: Option<i64>,
    /// The message that holds the button: its chat and its id, where known.
    pub message: Option<(i64, i32)>,
    /// The query's payload.
    pub payload: CallbackPayload,
}

/// Where the handling of a button press stands.
#[derive(Clone, Copy, Debug, PartialEq, Eq, Structural)]
pub enum CallbackPhase {
    Start,
    FindingPhoto,
    Enqueueing,
    AnsweringApproval,
    DeletingMessage,
    SavingContext,
    SettingState,
    Prompting,
    Answering,
    Done,
}

/// The handling of one press of a moderation button.
pub struct CallbackHandler {
    pub request: CallbackRequest,
    pub phase: CallbackPhase,
}

impl CallbackHandler {
    /// The operation the payload asks for, where it was read.
    pub open spec fn operation(request: CallbackRequest) -> Option<CallbackOperation> {
        match request.payload {
            CallbackPayload::Data(d) => Some(d.operation),
            _ => None,
        }
    }

    /// Whether the handler can take `event` in `phase`: the event must be the
    /// outcome of the work last asked for; deleting the approved photo's
    /// message needs that message, and prompting for a decline reason needs
    /// the chat.
    pub open spec fn accepts(request: CallbackRequest, phase: CallbackPhase, event: BotEvent) -> bool {
        match (phase, event) {
            (CallbackPhase::Start, BotEvent::Begin) => true,
            (CallbackPhase::FindingPhoto, BotEvent::Photo(_)) => true,
            (CallbackPhase::Enqueueing, BotEvent::Done) => true,
            (CallbackPhase::AnsweringApproval, BotEvent::Done) => request.message is Some,
            (CallbackPhase::DeletingMessage, BotEvent::Done) => true,
            (CallbackPhase::SavingContext, BotEvent::Saved(_)) => true,
            (CallbackPhase::SettingState, BotEvent::Done) => request.chat_id is Some,
            (CallbackPhase::Prompting, BotEvent::Done) => true,
            (CallbackPhase::Answering, BotEvent::Done) => true,
            (CallbackPhase::Done, _) => true,
            _ => false,
        }
    }

    /// The handling of a button press: nothing is done unless the payload
    /// was read and names a photo, and that photo is found. Approving puts
    /// the photo in the posting queue, answers with the queue notice and
    /// deletes the message with the buttons. Declining remembers the photo as
    /// the one to decline; where that is stored, the chat moves to asking for
    /// the reason, with a cancel button; the query is then answered. A cancel
    /// payload does nothing here.
    pub open spec fn next(request: CallbackRequest, phase: CallbackPhase, event: BotEvent) -> (
        CallbackPhase,
        BotActionView,
    ) {
        let answer = BotActionView::Answer { callback_id: request.callback_id@, text: None };
        match (phase, event) {
            (CallbackPhase::Start, BotEvent::Begin) => match request.payload {
                CallbackPayload::Data(data) => match data.document {
                    Some(photo_id) => (
                        CallbackPhase::FindingPhoto,
                        BotActionView::FindPhoto { photo_id },
                    ),
                    None => (CallbackPhase::Done, BotActionView::Finish),
                },
                _ => (CallbackPhase::Done, BotActionView::Finish),
            },
            (CallbackPhase::FindingPhoto, BotEvent::Photo(photo)) => match photo {
                None => (CallbackPhase::Done, BotActionView::Finish),
                Some(p) => match Self::operation(request) {
                    Some(CallbackOperation::Approve) => (
                        CallbackPhase::Enqueueing,
                        BotActionView::Enqueue(QueueMessageView::Approve { photo: p.uuid }),
                    ),
                    Some(CallbackOperation::Decline) => (
                        CallbackPhase::SavingContext,
                        BotActionView::SaveDeclineContext {
                            user: request.sender as i64,
                            photo_id: p.uuid,
                            decline_reason: None,
                        },
                    ),
                    _ => (CallbackPhase::Done, BotActionView::Finish),
                },
            },
            (CallbackPhase::Enqueueing, BotEvent::Done) => (
                CallbackPhase::AnsweringApproval,
                BotActionView::Answer {
                    callback_id: request.callback_id@,
                    text: Some(ReplyView::ApprovalQueued),
                },
            ),
            (CallbackPhase::AnsweringApproval, BotEvent::Done) => (
                CallbackPhase::DeletingMessage,
                BotActionView::Delete {
                    chat_id: request.message.unwrap().0,
                    message_id: request.message.unwrap().1,
                },
            ),
            (CallbackPhase::SavingContext, BotEvent::Saved(saved)) => if saved {
                (
                    CallbackPhase::SettingState,
                    BotActionView::SetState(GlobalState::DeclinePhoto(decline_photo::State::Reason)),
                )
            } else {
                (CallbackPhase::Answering, answer)
            },
            (CallbackPhase::SettingState, BotEvent::Done) => (
                CallbackPhase::Prompting,
                BotActionView::Send {
                    chat_id: request.chat_id.unwrap(),
                    reply: ReplyView::Phrase(Phrase::EnterDeclineReason),
                    cancel_button: true,
                },
            ),
            (CallbackPhase::Prompting, BotEvent::Done) => (CallbackPhase::Answering, answer),
            _ => (CallbackPhase::Done, BotActionView::Finish),
        }
    }

    /// Begins handling a button press.
    pub fn new(request: CallbackRequest) -> (handler: CallbackHandler)
        ensures
            handler.request == request,
            handler.phase == CallbackPhase::Start,
    {
        CallbackHandler { request, phase: CallbackPhase::Start }
    }

    /// Whether the handler can take `event` now (see `accepts`).
    pub fn can_take(&self, event: &BotEvent) -> (ok: bool)
        ensures
            ok == Self::accepts(self.request, self.phase, *event),
    {
        match (self.phase, event) {
            (CallbackPhase::Start, BotEvent::Begin) => true,
            (CallbackPhase::FindingPhoto, BotEvent::Photo(_)) => true,
            (CallbackPhase::Enqueueing, BotEvent::Done) => true,
            (CallbackPhase::AnsweringApproval, BotEvent::Done) => self.request.message.is_some(),
            (CallbackPhase::DeletingMessage, BotEvent::Done) => true,
            (CallbackPhase::SavingContext, BotEvent::Saved(_)) => true,
            (CallbackPhase::SettingState, BotEvent::Done) => self.request.chat_id.is_some(),
            (CallbackPhase::Prompting, BotEvent::Done) => true,
            (CallbackPhase::Answering, BotEvent::Done) => true,
            (CallbackPhase::Done, _) => true,
            _ => false,
        }
    }

    /// Takes the next step of handling the button press (see `next`).
    pub fn handle(&mut self, event: BotEvent) -> (action: BotAction)
        requires
            Self::accepts(old(self).request, old(self).phase, event),
        ensures
            final(self).request == old(self).request,
            final(self).phase == Self::next(old(self).request, old(self).phase, event).0,
            action@ == Self::next(old(self).request, old(self).phase, event).1,
    {
        match event {
            BotEvent::Begin => {
                if self.phase == CallbackPhase::Start {
                    match self.request.payload {
                        CallbackPayload::Data(data) => match data.document {
                            Some(photo_id) => {
                                self.phase = CallbackPhase::FindingPhoto;
                                return BotAction::FindPhoto { photo_id };
                            },
                            None => {},
                        },
                        _ => {},
                    }
                }
                self.phase = CallbackPhase::Done;
                BotAction::Finish
            },
            BotEvent::Photo(photo) => {
                if self.phase == CallbackPhase::FindingPhoto {
                    match (photo, self.request.payload) {
                        (Some(p), CallbackPayload::Data(data)) => match data.operation {
                            CallbackOperation::Approve => {
                                self.phase = CallbackPhase::Enqueueing;
                                return BotAction::Enqueue(QueueMessage::Approve { photo: p.uuid });
                            },
                            CallbackOperation::Decline => {
                                self.phase = CallbackPhase::SavingContext;
                                return BotAction::SaveDeclineContext {
                                    user: self.request.sender as i64,
                                    decline: DeclinePhoto { photo_id: p.uuid, reason: None },
                                };
                            },
                            CallbackOperation::Cancel => {},
                        },
                        _ => {},
                    }
                }
                self.phase = CallbackPhase::Done;
                BotAction::Finish
            },
            BotEvent::Saved(saved) => {
                if self.phase == CallbackPhase::SavingContext {
                    if saved {
                        self.phase = CallbackPhase::SettingState;
                        BotAction::SetState(GlobalState::DeclinePhoto(decline_photo::State::Reason))
                    } else {
                        self.phase = CallbackPhase::Answering;
                        BotAction::Answer { callback_id: self.request.callback_id.clone(), text: None }
                    }
                } else {
                    self.phase = CallbackPhase::Done;
                    BotAction::Finish
                }
            },
            BotEvent::Done => {
                if self.phase == CallbackPhase::Enqueueing {
                    self.phase = CallbackPhase::AnsweringApproval;
                    BotAction::Answer {
                        callback_id: self.request.callback_id.clone(),
                        text: Some(Reply::ApprovalQueued),
                    }
                } else if self.phase == CallbackPhase::AnsweringApproval {
                    let (chat_id, message_id) = self.request.message.unwrap();
                    self.phase = CallbackPhase::DeletingMessage;
                    BotAction::Delete { chat_id, message_id }
                } else if self.phase == CallbackPhase::SettingState {
                    self.phase = CallbackPhase::Prompting;
                    BotAction::Send {
                        chat_id: self.request.chat_id.unwrap(),
                        reply: Reply::Phrase(Phrase::EnterDeclineReason),
                        cancel_button: true,
                    }
                } else if self.phase == CallbackPhase::Prompting {
                    self.phase = CallbackPhase::Answering;
                    BotAction::Answer { callback_id: self.request.callback_id.clone(), text: None }
                } else {
                    self.phase = CallbackPhase::Done;
                    BotAction::Finish
                }
            },
            _ => {
                self.phase = CallbackPhase::Done;
                BotAction::Finish
            },
        }
    }
}

/// The actions a button press's handling takes from `phase` on, event by
/// event, while each event is one the handler accepts.
pub open spec fn callback_run(request: CallbackRequest, phase: CallbackPhase, events: Seq<BotEvent>) -> Seq<
    BotActionView,
>
    decreases events.len(),
{
    if events.len() == 0 || !CallbackHandler::accepts(request, phase, events[0]) {
        Seq::empty()
    } else {
        let (after, action) = CallbackHandler::next(request, phase, events[0]);
        seq![action] + callback_run(request, after, events.drop_first())
    }
}

/// A run has at most one action per event, and its first action is the
/// first step's.
proof fn callback_run_unfold(request: CallbackRequest, phase: CallbackPhase, events: Seq<BotEvent>)
    ensures
        callback_run(request, phase, events).len() <= events.len(),
        events.len() > 0 && CallbackHandler::accepts(request, phase, events[0]) ==> callback_run(
            request,
            phase,
            events,
        ) == seq![CallbackHandler::next(request, phase, events[0]).1] + callback_run(
            request,
            CallbackHandler::next(request, phase, events[0]).0,
            events.drop_first(),
        ),
    decreases events.len(),
{
    if events.len() > 0 && CallbackHandler::accepts(request, phase, events[0]) {
        let (after, action) = CallbackHandler::next(request, phase, events[0]);
        callback_run_unfold(request, after, events.drop_first());
    }
}

/// How many more steps the handling of a button press can take from a phase.
pub open spec fn callback_rank(phase: CallbackPhase) -> nat {
    match phase {
        CallbackPhase::Start => 9,
        CallbackPhase::FindingPhoto => 8,
        CallbackPhase::SavingContext => 7,
        CallbackPhase::SettingState => 6,
        CallbackPhase::Prompting => 5,
        CallbackPhase::Enqueueing => 4,
        CallbackPhase::AnsweringApproval => 3,
        CallbackPhase::Answering => 2,
        CallbackPhase::DeletingMessage => 1,
        CallbackPhase::Done => 0,
    }
}

/// Every step of a button press's handling that does not finish it brings
/// it closer to the end, so the handling always ends; once it has finished
/// it only finishes again.
pub proof fn callback_handling_ends(request: CallbackRequest, phase: CallbackPhase, event: BotEvent)
    requires
        CallbackHandler::accepts(request, phase, event),
    ensures
        CallbackHandler::next(request, phase, event).0 == CallbackPhase::Done
            || callback_rank(CallbackHandler::next(request, phase, event).0) < callback_rank(phase),
        phase == CallbackPhase::Done ==> CallbackHandler::next(request, phase, event) == (
            CallbackPhase::Done,
            BotActionView::Finish,
        ),
{
}

/// What a step's action is: queueing happens only for an approve payload,
/// right after the photo was found, and queues exactly that photo; the
/// dialogue moves to asking for a decline's reason only right after the
/// decline in progress was stored.
pub open spec fn callback_step_is_sound(request: CallbackRequest, event: BotEvent, action: BotActionView) -> bool {
    &&& action is Enqueue ==> CallbackHandler::operation(request) == Some(CallbackOperation::Approve)
        && exists|p: PhotoRecord|
        event == BotEvent::Photo(Some(p)) && action == BotActionView::Enqueue(
            QueueMessageView::Approve { photo: p.uuid },
        )
    &&& action is SetState ==> event == BotEvent::Saved(true) && action == BotActionView::SetState(
        GlobalState::DeclinePhoto(decline_photo::State::Reason),
    )
}

/// Over a whole button press: a photo is queued for posting only when the
/// moderator pressed approve and the photo was found, and it is the found
/// photo that is queued; the chat moves to asking for a decline's reason only
/// once the decline in progress was stored.
pub proof fn callback_queues_only_approved_photos(
    request: CallbackRequest,
    phase: CallbackPhase,
    events: Seq<BotEvent>,
)
    ensures
        forall|i: int|
            0 <= i < callback_run(request, phase, events).len() ==> callback_step_is_sound(
                request,
                events[i],
                #[trigger] callback_run(request, phase, events)[i],
            ),
    decreases events.len(),
{
    callback_run_unfold(request, phase, events);
    if events.len() > 0 && CallbackHandler::accepts(request, phase, events[0]) {
        let (after, action) = CallbackHandler::next(request, phase, events[0]);
        callback_queues_only_approved_photos(request, after, events.drop_first());
        assert forall|i: int|
            0 <= i < callback_run(request, phase, events).len() implies callback_step_is_sound(
            request,
            events[i],
            #[trigger] callback_run(request, phase, events)[i],
        ) by {
            let run = callback_run(request, phase, events);
            if i > 0 {
                assert(run[i] == callback_run(request, after, events.drop_first())[i - 1]);
                assert(events[i] == events.drop_first()[i - 1]);
            } else {
                assert(run[0] == action);
                if action is Enqueue {
                    let p = events[0]->Photo_0.unwrap();
                    assert(events[0] == BotEvent::Photo(Some(p)));
                }
            }
        }
    }
}

/// A press of a cancel button outside a dialogue changes nothing: at most
/// the photo it names is looked up, and the handling finishes.
pub proof fn cancel_press_changes_nothing(request: CallbackRequest, phase: CallbackPhase, events: Seq<BotEvent>)
    requires
        CallbackHandler::operation(request) == Some(CallbackOperation::Cancel),
        phase == CallbackPhase::Start || phase == CallbackPhase::FindingPhoto || phase
            == CallbackPhase::Done,
    ensures
        forall|i: int|
            0 <= i < callback_run(request, phase, events).len() ==> (#[trigger] callback_run(
                request,
                phase,
                events,
            )[i] is FindPhoto || callback_run(request, phase, events)[i] is Finish),
    decreases events.len(),
{
    callback_run_unfold(request, phase, events);
    if events.len() > 0 && CallbackHandler::accepts(request, phase, events[0]) {
        let (after, action) = CallbackHandler::next(request, phase, events[0]);
        cancel_press_changes_nothing(request, after, events.drop_first());
        assert forall|i: int| 0 <= i < callback_run(request, phase, events).len() implies (
        #[trigger] callback_run(request, phase, events)[i] is FindPhoto || callback_run(
            request,
            phase,
            events,
        )[i] is Finish) by {
            let run = callback_run(request, phase, events);
            if i > 0 {
                assert(run[i] == callback_run(request, after, events.drop_first())[i - 1]);
            }
        }
    }
}

/// Every answer the handling of a button press gives goes to the press's own
/// query: an approval is answered with the queue notice once the photo is
/// queued, and a decline is answered without text once the reason was asked
/// for, or at once where the decline in progress could not be stored.
pub proof fn answers_go_to_the_pressed_query(request: CallbackRequest, phase: CallbackPhase, event: BotEvent)
    ensures
        CallbackHandler::next(request, phase, event).1 matches BotActionView::Answer { callback_id, .. }
            ==> callback_id == request.callback_id@,
        CallbackHandler::next(request, CallbackPhase::Enqueueing, BotEvent::Done) == (
            CallbackPhase::AnsweringApproval,
            BotActionView::Answer { callback_id: request.callback_id@, text: Some(ReplyView::ApprovalQueued) },
        ),
        CallbackHandler::next(request, CallbackPhase::Prompting, BotEvent::Done) == (
            CallbackPhase::Answering,
            BotActionView::Answer { callback_id: request.callback_id@, text: None },
        ),
        CallbackHandler::next(request, CallbackPhase::SavingContext, BotEvent::Saved(false)) == (
            CallbackPhase::Answering,
            BotActionView::Answer { callback_id: request.callback_id@, text: None },
        ),
{
}

/// Everything the handling of a button press does stays with that press:
/// the photo looked up is the one its payload names; the decline in
/// progress is stored for the presser, for the found photo; the reason is
/// asked for in the press's chat; and the message deleted is the one that
/// holds the button.
pub proof fn callback_actions_stay_with_the_press(
    request: CallbackRequest,
    phase: CallbackPhase,
    event: BotEvent,
)
    requires
        CallbackHandler::accepts(request, phase, event),
    ensures
        CallbackHandler::next(request, phase, event).1 matches BotActionView::FindPhoto { photo_id }
            ==> request.payload is Data && request.payload->Data_0.document == Some(photo_id),
        CallbackHandler::next(request, phase, event).1 matches BotActionView::SaveDeclineContext {
            user,
            photo_id,
            decline_reason,
        } ==> user == request.sender as i64 && decline_reason is None && event is Photo && photo_id
            == event->Photo_0.unwrap().uuid,
        (CallbackHandler::next(request, phase, event).1 matches BotActionView::Enqueue(q) ==> event is Photo
            && q == (QueueMessageView::Approve { photo: event->Photo_0.unwrap().uuid })),
        (CallbackHandler::next(request, phase, event).1 matches BotActionView::Send { chat_id, .. }
            ==> request.chat_id == Some(chat_id)),
        (CallbackHandler::next(request, phase, event).1 matches BotActionView::Delete { chat_id, message_id }
            ==> request.message == Some((chat_id, message_id))),
{
}

} // verus!
