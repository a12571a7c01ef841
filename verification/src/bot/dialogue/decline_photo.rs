//! The dialogue in which the moderator gives the reason a photo is declined.
use vstd::prelude::*;
use crate::bot::{BotAction, BotActionView, BotEvent, GlobalState, QueueMessage, QueueMessageView};

verus! {

/// The step of the dialogue.
#[derive(Clone, Copy, Debug, PartialEq, Eq, Structural)]
pub enum State {
    /// Waiting for the moderator to give the reason.
    Reason,
}

impl Default for State {
    fn default() -> (s: State)
        ensures
            s == State::Reason,
    {
        State::Reason
    }
}

/// What the handler knows of the message that gives the reason.
pub struct ReasonMessage {
    /// The chat the message came from.
    pub chat_id: i64,
    /// The user who sent it, where known.
    pub sender: Option<u64>,
    /// Its text, where it has one.
    pub text: Option<String>,
}

/// Where the handling of the reason stands; the phases after loading carry
/// the photo being declined.
#[derive(Clone, Copy, Debug, PartialEq, Eq, Structural)]
pub enum ReasonPhase {
    Start,
    Loading,
    Enqueueing(u128),
    Resetting(u128),
    FindingPhoto,
    Deleting,
    Done,
}

/// The handling of the message that gives a decline's reason.
pub struct SetReason {
    pub message: ReasonMessage,
    pub phase: ReasonPhase,
}

impl SetReason {
    /// Begins handling the message.
    pub fn new(message: ReasonMessage) -> (handler: SetReason)
        ensures
            handler.message == message,
            handler.phase == ReasonPhase::Start,
    {
        SetReason { message, phase: ReasonPhase::Start }
    }
}

impl SetReason {
    /// Whether the handler can take `event` now (see `accepts`).
    pub fn can_take(&self, event: &BotEvent) -> (ok: bool)
        ensures
            ok == accepts(self.message, self.phase, *event),
    {
        match (self.phase, event) {
            (ReasonPhase::Start, BotEvent::Begin) => true,
            (ReasonPhase::Loading, BotEvent::DeclineContext(_)) => true,
            (ReasonPhase::Enqueueing(_), BotEvent::Done) => true,
            (ReasonPhase::Resetting(_), BotEvent::Done) => true,
            (ReasonPhase::FindingPhoto, BotEvent::Photo(photo)) => match photo {
                Some(p) => p.msg_id.is_some(),
                None => false,
            },
            (ReasonPhase::Deleting, BotEvent::Done) => true,
            (ReasonPhase::Done, _) => true,
            _ => false,
        }
    }
}

/// Whether the handler can take `event` in `phase`: the event must be the
/// outcome of the work last asked for, and the declined photo must still be
/// stored with the message that shows it.
pub open spec fn accepts(message: ReasonMessage, phase: ReasonPhase, event: BotEvent) -> bool {
    match (phase, event) {
        (ReasonPhase::Start, BotEvent::Begin) => true,
        (ReasonPhase::Loading, BotEvent::DeclineContext(_)) => true,
        (ReasonPhase::Enqueueing(_), BotEvent::Done) => true,
        (ReasonPhase::Resetting(_), BotEvent::Done) => true,
        (ReasonPhase::FindingPhoto, BotEvent::Photo(photo)) => photo is Some
            && photo.unwrap().msg_id is Some,
        (ReasonPhase::Deleting, BotEvent::Done) => true,
        (ReasonPhase::Done, _) => true,
        _ => false,
    }
}

/// The text of an optional reason, empty where there is none.
pub open spec fn reason_text(text: Option<String>) -> Seq<char> {
    match text {
        Some(t) => t@,
        None => Seq::empty(),
    }
}

/// The handling of the reason: nothing is done for a message of no known
/// sender or where the sender has no decline in progress. Else the photo of
/// the decline in progress is put in the queue as declined, with the
/// message's text as the reason (empty where it has none), the chat goes back
/// to idle, and the message that showed the photo to the moderator is deleted.
pub open spec fn next(message: ReasonMessage, phase: ReasonPhase, event: BotEvent) -> (
    ReasonPhase,
    BotActionView,
) {
    match (phase, event) {
        (ReasonPhase::Start, BotEvent::Begin) => match message.sender {
            Some(user) => (
                ReasonPhase::Loading,
                BotActionView::LoadDeclineContext { user: user as i64 },
            ),
            None => (ReasonPhase::Done, BotActionView::Finish),
        },
        (ReasonPhase::Loading, BotEvent::DeclineContext(context)) => match context {
            Some(c) => (
                ReasonPhase::Enqueueing(c.photo_id),
                BotActionView::Enqueue(
                    QueueMessageView::Decline { photo: c.photo_id, reason: reason_text(message.text) },
                ),
            ),
            None => (ReasonPhase::Done, BotActionView::Finish),
        },
        (ReasonPhase::Enqueueing(photo), BotEvent::Done) => (
            ReasonPhase::Resetting(photo),
            BotActionView::SetState(GlobalState::Idle),
        ),
        (ReasonPhase::Resetting(photo), BotEvent::Done) => (
            ReasonPhase::FindingPhoto,
            BotActionView::FindPhoto { photo_id: photo },
        ),
        (ReasonPhase::FindingPhoto, BotEvent::Photo(photo)) => (
            ReasonPhase::Deleting,
            BotActionView::Delete {
                chat_id: message.chat_id,
                message_id: photo.unwrap().msg_id.unwrap() as i32,
            },
        ),
        _ => (ReasonPhase::Done, BotActionView::Finish),
    }
}

/// Takes the next step of handling the message that gives a decline's
/// reason (see `next`).
pub fn set_reason(handler: &mut SetReason, event: BotEvent) -> (action: BotAction)
    requires
        accepts(old(handler).message, old(handler).phase, event),
    ensures
        final(handler).message == old(handler).message,
        final(handler).phase == next(old(handler).message, old(handler).phase, event).0,
        action@ == next(old(handler).message, old(handler).phase, event).1,
{
    match event {
        BotEvent::Begin => {
            if handler.phase == ReasonPhase::Start {
                match handler.message.sender {
                    Some(user) => {
                        handler.phase = ReasonPhase::Loading;
                        return BotAction::LoadDeclineContext { user: user as i64 };
                    },
                    None => {},
                }
            }
            handler.phase = ReasonPhase::Done;
            BotAction::Finish
        },
        BotEvent::DeclineContext(context) => {
            if handler.phase == ReasonPhase::Loading {
                match context {
                    Some(c) => {
                        let reason = match &handler.message.text {
                            Some(t) => t.clone(),
                            None => String::new(),
                        };
                        handler.phase = ReasonPhase::Enqueueing(c.photo_id);
                        return BotAction::Enqueue(
                            QueueMessage::Decline { photo: c.photo_id, reason },
                        );
                    },
                    None => {},
                }
            }
            handler.phase = ReasonPhase::Done;
            BotAction::Finish
        },
        BotEvent::Done => match handler.phase {
            ReasonPhase::Enqueueing(photo) => {
                handler.phase = ReasonPhase::Resetting(photo);
                BotAction::SetState(GlobalState::Idle)
            },
            ReasonPhase::Resetting(photo) => {
                handler.phase = ReasonPhase::FindingPhoto;
                BotAction::FindPhoto { photo_id: photo }
            },
            _ => {
                handler.phase = ReasonPhase::Done;
                BotAction::Finish
            },
        },
        BotEvent::Photo(photo) => {
            if handler.phase == ReasonPhase::FindingPhoto {
                let message_id = photo.unwrap().msg_id.unwrap() as i32;
                handler.phase = ReasonPhase::Deleting;
                BotAction::Delete { chat_id: handler.message.chat_id, message_id }
            } else {
                handler.phase = ReasonPhase::Done;
                BotAction::Finish
            }
        },
        _ => {
            handler.phase = ReasonPhase::Done;
            BotAction::Finish
        },
    }
}

/// How many more steps handling the reason can take from a phase.
pub open spec fn rank(phase: ReasonPhase) -> nat {
    match phase {
        ReasonPhase::Start => 6,
        ReasonPhase::Loading => 5,
        ReasonPhase::Enqueueing(_) => 4,
        ReasonPhase::Resetting(_) => 3,
        ReasonPhase::FindingPhoto => 2,
        ReasonPhase::Deleting => 1,
        ReasonPhase::Done => 0,
    }
}

/// Every step of handling a decline's reason that does not finish it brings
/// it closer to the end; once finished it only finishes again.
pub proof fn decline_reason_handling_ends(message: ReasonMessage, phase: ReasonPhase, event: BotEvent)
    requires
        accepts(message, phase, event),
    ensures
        next(message, phase, event).0 == ReasonPhase::Done || rank(next(message, phase, event).0)
            < rank(phase),
        phase == ReasonPhase::Done ==> next(message, phase, event) == (
            ReasonPhase::Done,
            BotActionView::Finish,
        ),
{
}

/// No photo is declined for a message from a user with no decline in progress.
pub proof fn no_decline_without_a_decline_in_progress(message: ReasonMessage)
    ensures
        next(message, ReasonPhase::Loading, BotEvent::DeclineContext(None)) == (
            ReasonPhase::Done,
            BotActionView::Finish,
        ),
{
}

/// Everything the handling of a decline's reason does stays with that
/// message: the decline in progress is loaded for the message's sender, the
/// photo queued as declined is the one of the loaded decline, with the
/// message's text (empty where it has none) as the reason, and the message
/// deleted is in the message's chat.
pub proof fn decline_reason_actions_stay_with_the_message(
    message: ReasonMessage,
    phase: ReasonPhase,
    event: BotEvent,
)
    requires
        accepts(message, phase, event),
    ensures
        next(message, phase, event).1 matches BotActionView::LoadDeclineContext { user }
            ==> message.sender is Some && user == message.sender.unwrap() as i64,
        (next(message, phase, event).1 matches BotActionView::Enqueue(q) ==> event is DeclineContext
            && event->DeclineContext_0 is Some && q == (QueueMessageView::Decline {
            photo: event->DeclineContext_0.unwrap().photo_id,
            reason: reason_text(message.text),
        })),
        (next(message, phase, event).1 matches BotActionView::Delete { chat_id, .. } ==> chat_id
            == message.chat_id),
{
}

} // verus!
