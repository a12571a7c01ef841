//! The dialogue in which the administrator gives the reason of a ban.
use vstd::prelude::*;
use crate::bot::{BotAction, BotActionView, BotEvent, GlobalState, Phrase, Reply, ReplyView};

verus! {

/// The step of the dialogue.
#[derive(Clone, Copy, Debug, PartialEq, Eq, Structural)]
pub enum State {
    /// Waiting for the administrator to give the reason.
    Reason,
}

impl Default for State {
    fn default() -> (s: State)
        ensures
            s == State::Reason,
    {
        State::Reason
    }
}

/// What the handler knows of the message that gives the reason.
pub struct ReasonMessage {
    /// The chat the message came from.
    pub chat_id: i64,
    /// The user who sent it, where known.
    pub sender: Option<u64>,
    /// Its text, where it has one.
    pub text: Option<String>,
}

/// Where the handling of the reason stands.
#[derive(Clone, Copy, Debug, PartialEq, Eq, Structural)]
pub enum ReasonPhase {
    Start,
    Loading,
    Banning,
    Notifying,
    Resetting,
    Done,
}

/// The handling of the message that gives a ban's reason.
pub struct SetReason {
    pub message: ReasonMessage,
    pub phase: ReasonPhase,
}

impl SetReason {
    /// Begins handling the message.
    pub fn new(message: ReasonMessage) -> (handler: SetReason)
        ensures
            handler.message == message,
            handler.phase == ReasonPhase::Start,
    {
        SetReason { message, phase: ReasonPhase::Start }
    }
}

impl SetReason {
    /// Whether the handler can take `event` now (see `accepts`).
    pub fn can_take(&self, event: &BotEvent) -> (ok: bool)
        ensures
            ok == accepts(self.message, self.phase, *event),
    {
        match (self.phase, event) {
            (ReasonPhase::Start, BotEvent::Begin) => true,
            (ReasonPhase::Loading, BotEvent::BanContext(context)) => {
                context.is_none() || self.message.text.is_some()
            },
            (ReasonPhase::Banning, BotEvent::Done) => true,
            (ReasonPhase::Notifying, BotEvent::Done) => true,
            (ReasonPhase::Resetting, BotEvent::Done) => true,
            (ReasonPhase::Done, _) => true,
            _ => false,
        }
    }
}

/// Whether the handler can take `event` in `phase`: the event must be the
/// outcome of the work last asked for, and where a ban is in progress the
/// message must have a text.
pub open spec fn accepts(message: ReasonMessage, phase: ReasonPhase, event: BotEvent) -> bool {
    match (phase, event) {
        (ReasonPhase::Start, BotEvent::Begin) => true,
        (ReasonPhase::Loading, BotEvent::BanContext(context)) => context is Some
            ==> message.text is Some,
        (ReasonPhase::Banning, BotEvent::Done) => true,
        (ReasonPhase::Notifying, BotEvent::Done) => true,
        (ReasonPhase::Resetting, BotEvent::Done) => true,
        (ReasonPhase::Done, _) => true,
        _ => false,
    }
}

/// The handling of the reason: nothing is done for a message of no known
/// sender or where the sender has no ban in progress. Else the user of the
/// ban in progress is banned with the message's text as the reason, the
/// administrator is told, and the chat goes back to idle.
pub open spec fn next(message: ReasonMessage, phase: ReasonPhase, event: BotEvent) -> (
    ReasonPhase,
    BotActionView,
) {
    match (phase, event) {
        (ReasonPhase::Start, BotEvent::Begin) => match message.sender {
            Some(user) => (ReasonPhase::Loading, BotActionView::LoadBanContext { user: user as i64 }),
            None => (ReasonPhase::Done, BotActionView::Finish),
        },
        (ReasonPhase::Loading, BotEvent::BanContext(context)) => match context {
            Some(c) => (
                ReasonPhase::Banning,
                BotActionView::Ban { user_id: c.user_id, reason: message.text.unwrap()@ },
            ),
            None => (ReasonPhase::Done, BotActionView::Finish),
        },
        (ReasonPhase::Banning, BotEvent::Done) => (
            ReasonPhase::Notifying,
            BotActionView::Send {
                chat_id: message.chat_id,
                reply: ReplyView::Phrase(Phrase::UserBanned),
                cancel_button: false,
            },
        ),
        (ReasonPhase::Notifying, BotEvent::Done) => (
            ReasonPhase::Resetting,
            BotActionView::SetState(GlobalState::Idle),
        ),
        _ => (ReasonPhase::Done, BotActionView::Finish),
    }
}

/// Takes the next step of handling the message that gives a ban's reason
/// (see `next`).
pub fn set_reason(handler: &mut SetReason, event: BotEvent) -> (action: BotAction)
    requires
        accepts(old(handler).message, old(handler).phase, event),
    ensures
        final(handler).message == old(handler).message,
        final(handler).phase == next(old(handler).message, old(handler).phase, event).0,
        action@ == next(old(handler).message, old(handler).phase, event).1,
{
    match event {
        BotEvent::Begin => {
            if handler.phase == ReasonPhase::Start {
                match handler.message.sender {
                    Some(user) => {
                        handler.phase = ReasonPhase::Loading;
                        return BotAction::LoadBanContext { user: user as i64 };
                    },
                    None => {},
                }
            }
            handler.phase = ReasonPhase::Done;
            BotAction::Finish
        },
        BotEvent::BanContext(context) => {
            if handler.phase == ReasonPhase::Loading {
                match context {
                    Some(c) => {
                        let reason = match &handler.message.text {
                            Some(t) => t.clone(),
                            None => String::new(),
                        };
                        handler.phase = ReasonPhase::Banning;
                        return BotAction::Ban { user_id: c.user_id, reason };
                    },
                    None => {},
                }
            }
            handler.phase = ReasonPhase::Done;
            BotAction::Finish
        },
        BotEvent::Done => {
            if handler.phase == ReasonPhase::Banning {
                handler.phase = ReasonPhase::Notifying;
                BotAction::Send {
                    chat_id: handler.message.chat_id,
                    reply: Reply::Phrase(Phrase::UserBanned),
                    cancel_button: false,
                }
            } else if handler.phase == ReasonPhase::Notifying {
                handler.phase = ReasonPhase::Resetting;
                BotAction::SetState(GlobalState::Idle)
            } else {
                handler.phase = ReasonPhase::Done;
                BotAction::Finish
            }
        },
        _ => {
            handler.phase = ReasonPhase::Done;
            BotAction::Finish
        },
    }
}

/// How many more steps handling the reason can take from a phase.
pub open spec fn rank(phase: ReasonPhase) -> nat {
    match phase {
        ReasonPhase::Start => 5,
        ReasonPhase::Loading => 4,
        ReasonPhase::Banning => 3,
        ReasonPhase::Notifying => 2,
        ReasonPhase::Resetting => 1,
        ReasonPhase::Done => 0,
    }
}

/// Every step of handling a ban's reason that does not finish it brings it
/// closer to the end; once finished it only finishes again.
pub proof fn ban_reason_handling_ends(message: ReasonMessage, phase: ReasonPhase, event: BotEvent)
    requires
        accepts(message, phase, event),
    ensures
        next(message, phase, event).0 == ReasonPhase::Done || rank(next(message, phase, event).0)
            < rank(phase),
        phase == ReasonPhase::Done ==> next(message, phase, event) == (
            ReasonPhase::Done,
            BotActionView::Finish,
        ),
{
}

/// Nobody is banned for a message from a user with no ban in progress.
pub proof fn no_ban_without_a_ban_in_progress(message: ReasonMessage)
    ensures
        next(message, ReasonPhase::Loading, BotEvent::BanContext(None)) == (
            ReasonPhase::Done,
            BotActionView::Finish,
        ),
{
}

/// Everything the handling of a ban's reason does stays with that message:
/// the ban in progress is loaded for the message's sender, the user banned
/// is the one of the loaded ban, for the message's text, and the notice goes
/// to the message's chat.
pub proof fn ban_reason_actions_stay_with_the_message(
    message: ReasonMessage,
    phase: ReasonPhase,
    event: BotEvent,
)
    requires
        accepts(message, phase, event),
    ensures
        next(message, phase, event).1 matches BotActionView::LoadBanContext { user } ==> message.sender
            is Some && user == message.sender.unwrap() as i64,
        next(message, phase, event).1 matches BotActionView::Ban { user_id, reason } ==> event is BanContext
            && event->BanContext_0 is Some && user_id == event->BanContext_0.unwrap().user_id
            && message.text is Some && reason == message.text.unwrap()@,
        next(message, phase, event).1 matches BotActionView::Send { chat_id, reply, .. } ==> chat_id
            == message.chat_id && reply == ReplyView::Phrase(Phrase::UserBanned),
{
}

} // verus!
