//! Commands sent to the bot in a private chat.
use vstd::prelude::*;
use crate::bot::{BotAction, BotActionView, BotEvent, GlobalState, Phrase, Reply, ReplyView};
use crate::bot::dialogue::ban_user;
use crate::bot::dialogue::types::BanUser;

verus! {

/// The commands the bot understands.
#[derive(Clone, Copy, Debug, PartialEq, Eq, Structural)]
pub enum BotCommand {
    /// Information about the bot.
    Help,
    /// Start.
    Start,
    /// Ban the sender of a photo (for the administrator; not listed).
    Ban,
}

/// What the handler of a command knows of the message that carries it.
pub struct CommandRequest {
    /// The chat the command came from.
    pub chat_id: i64,
    /// The message that carries the command.
    pub message_id: i32,
    /// Whether the chat is private.
    pub is_private: bool,
    /// The user who sent the command, where known.
    pub sender: Option<u64>,
    /// The message the command replies to, where it replies to one.
    pub reply_to: Option<i32>,
    /// The command.
    pub command: BotCommand,
    /// The bot's version text.
    pub version: String,
    /// The administrator's user id.
    pub admin_id: i64,
}

/// Where the handling of a command stands.
#[derive(Clone, Copy, Debug, PartialEq, Eq, Structural)]
pub enum CommandPhase {
    Start,
    CheckingBan,
    Replying,
    FindingPhoto,
    SavingContext,
    SettingState,
    Prompting,
    DeletingCommand,
    Done,
}

/// The handling of one command.
pub struct CommandHandler {
    pub request: CommandRequest,
    pub phase: CommandPhase,
}

impl CommandHandler {
    /// Whether the handler can take `event` in `phase`: the event must be the
    /// outcome of the work last asked for, and the ban command must come from
    /// a known user and reply to a message that shows a stored photo.
    pub open spec fn accepts(request: CommandRequest, phase: CommandPhase, event: BotEvent) -> bool {
        match (phase, event) {
            (CommandPhase::Start, BotEvent::Begin) => true,
            (CommandPhase::CheckingBan, BotEvent::Banned(banned)) => !banned && request.command
                == BotCommand::Ban ==> request.sender is Some,
            (CommandPhase::FindingPhoto, BotEvent::Photo(photo)) => photo is Some,
            (CommandPhase::SavingContext, BotEvent::Saved(_)) => true,
            (CommandPhase::Replying, BotEvent::Done) => true,
            (CommandPhase::SettingState, BotEvent::Done) => true,
            (CommandPhase::Prompting, BotEvent::Done) => true,
            (CommandPhase::DeletingCommand, BotEvent::Done) => true,
            (CommandPhase::Done, _) => true,
            _ => false,
        }
    }

    /// The handling of a command: nothing is done in a chat that is not
    /// private or for a banned user. `/help` answers with the bot's version,
    /// `/start` with the greeting. `/ban` does nothing unless the
    /// administrator sends it; where it replies to a message that shows a
    /// photo, the photo's sender is remembered as the user to ban, and where
    /// that is stored the chat moves to asking for the ban's reason, with a
    /// cancel button; in any case the command's message is then deleted.
    pub open spec fn next(request: CommandRequest, phase: CommandPhase, event: BotEvent) -> (
        CommandPhase,
        BotActionView,
    ) {
        let chat_id = request.chat_id;
        let delete_command = BotActionView::Delete {
            chat_id,
            message_id: request.message_id,
        };
        match (phase, event) {
            (CommandPhase::Start, BotEvent::Begin) => if !request.is_private {
                (CommandPhase::Done, BotActionView::Finish)
            } else {
                (CommandPhase::CheckingBan, BotActionView::CheckBanned { chat_id })
            },
            (CommandPhase::CheckingBan, BotEvent::Banned(banned)) => if banned {
                (CommandPhase::Done, BotActionView::Finish)
            } else {
                match request.command {
                    BotCommand::Help => (
                        CommandPhase::Replying,
                        BotActionView::Send {
                            chat_id,
                            reply: ReplyView::Version(request.version@),
                            cancel_button: false,
                        },
                    ),
                    BotCommand::Start => (
                        CommandPhase::Replying,
                        BotActionView::Send {
                            chat_id,
                            reply: ReplyView::Phrase(Phrase::StartGreeting),
                            cancel_button: false,
                        },
                    ),
                    BotCommand::Ban => if request.sender.unwrap() as i64 != request.admin_id {
                        (CommandPhase::Done, BotActionView::Finish)
                    } else {
                        match request.reply_to {
                            Some(reply) => (
                                CommandPhase::FindingPhoto,
                                BotActionView::FindPhotoByMessage { message_id: reply },
                            ),
                            None => (CommandPhase::DeletingCommand, delete_command),
                        }
                    },
                }
            },
            (CommandPhase::FindingPhoto, BotEvent::Photo(photo)) => (
                CommandPhase::SavingContext,
                BotActionView::SaveBanContext {
                    user: request.admin_id,
                    user_id: photo.unwrap().user_id,
                    ban_reason: None,
                },
            ),
            (CommandPhase::SavingContext, BotEvent::Saved(saved)) => if saved {
                (
                    CommandPhase::SettingState,
                    BotActionView::SetState(GlobalState::BanUser(ban_user::State::Reason)),
                )
            } else {
                (CommandPhase::DeletingCommand, delete_command)
            },
            (CommandPhase::SettingState, BotEvent::Done) => (
                CommandPhase::Prompting,
                BotActionView::Send {
                    chat_id,
                    reply: ReplyView::Phrase(Phrase::EnterBanReason),
                    cancel_button: true,
                },
            ),
            (CommandPhase::Prompting, BotEvent::Done) => (CommandPhase::DeletingCommand, delete_command),
            _ => (CommandPhase::Done, BotActionView::Finish),
        }
    }

    /// Begins handling a command.
    pub fn new(request: CommandRequest) -> (handler: CommandHandler)
        ensures
            handler.request == request,
            handler.phase == CommandPhase::Start,
    {
        CommandHandler { request, phase: CommandPhase::Start }
    }

    /// Whether the handler can take `event` now (see `accepts`).
    pub fn can_take(&self, event: &BotEvent) -> (ok: bool)
        ensures
            ok == Self::accepts(self.request, self.phase, *event),
    {
        match (self.phase, event) {
            (CommandPhase::Start, BotEvent::Begin) => true,
            (CommandPhase::CheckingBan, BotEvent::Banned(banned)) => {
                *banned || self.request.command != BotCommand::Ban || self.request.sender.is_some()
            },
            (CommandPhase::FindingPhoto, BotEvent::Photo(photo)) => photo.is_some(),
            (CommandPhase::SavingContext, BotEvent::Saved(_)) => true,
            (CommandPhase::Replying, BotEvent::Done) => true,
            (CommandPhase::SettingState, BotEvent::Done) => true,
            (CommandPhase::Prompting, BotEvent::Done) => true,
            (CommandPhase::DeletingCommand, BotEvent::Done) => true,
            (CommandPhase::Done, _) => true,
            _ => false,
        }
    }

    /// Takes the next step of handling the command (see `next`): given what
    /// came of the last piece of work, moves on and returns the next piece.
    pub fn handle(&mut self, event: BotEvent) -> (action: BotAction)
        requires
            Self::accepts(old(self).request, old(self).phase, event),
        ensures
            final(self).request == old(self).request,
            final(self).phase == Self::next(old(self).request, old(self).phase, event).0,
            action@ == Self::next(old(self).request, old(self).phase, event).1,
    {
        let chat_id = self.request.chat_id;
        let message_id = self.request.message_id;
        match event {
            BotEvent::Begin => {
                if self.phase != CommandPhase::Start {
                    self.phase = CommandPhase::Done;
                    BotAction::Finish
                } else if !self.request.is_private {
                    self.phase = CommandPhase::Done;
                    BotAction::Finish
                } else {
                    self.phase = CommandPhase::CheckingBan;
                    BotAction::CheckBanned { chat_id }
                }
            },
            BotEvent::Banned(banned) => {
                if self.phase != CommandPhase::CheckingBan || banned {
                    self.phase = CommandPhase::Done;
                    BotAction::Finish
                } else {
                    match self.request.command {
                        BotCommand::Help => {
                            self.phase = CommandPhase::Replying;
                            BotAction::Send {
                                chat_id,
                                reply: Reply::Version(self.request.version.clone()),
                                cancel_button: false,
                            }
                        },
                        BotCommand::Start => {
                            self.phase = CommandPhase::Replying;
                            BotAction::Send {
                                chat_id,
                                reply: Reply::Phrase(Phrase::StartGreeting),
                                cancel_button: false,
                            }
                        },
                        BotCommand::Ban => {
                            let is_admin = self.request.sender.unwrap() as i64 == self.request.admin_id;
                            if !is_admin {
                                self.phase = CommandPhase::Done;
                                BotAction::Finish
                            } else {
                                match self.request.reply_to {
                                    Some(reply) => {
                                        self.phase = CommandPhase::FindingPhoto;
                                        BotAction::FindPhotoByMessage { message_id: reply }
                                    },
                                    None => {
                                        self.phase = CommandPhase::DeletingCommand;
                                        BotAction::Delete { chat_id, message_id }
                                    },
                                }
                            }
                        },
                    }
                }
            },
            BotEvent::Photo(photo) => {
                if self.phase != CommandPhase::FindingPhoto {
                    self.phase = CommandPhase::Done;
                    BotAction::Finish
                } else {
                    let found = photo.unwrap();
                    self.phase = CommandPhase::SavingContext;
                    BotAction::SaveBanContext {
                        user: self.request.admin_id,
                        ban: BanUser { user_id: found.user_id, reason: None },
                    }
                }
            },
            BotEvent::Saved(saved) => {
                if self.phase != CommandPhase::SavingContext {
                    self.phase = CommandPhase::Done;
                    BotAction::Finish
                } else if saved {
                    self.phase = CommandPhase::SettingState;
                    BotAction::SetState(GlobalState::BanUser(ban_user::State::Reason))
                } else {
                    self.phase = CommandPhase::DeletingCommand;
                    BotAction::Delete { chat_id, message_id }
                }
            },
            BotEvent::Done => {
                if self.phase == CommandPhase::SettingState {
                    self.phase = CommandPhase::Prompting;
                    BotAction::Send {
                        chat_id,
                        reply: Reply::Phrase(Phrase::EnterBanReason),
                        cancel_button: true,
                    }
                } else if self.phase == CommandPhase::Prompting {
                    self.phase = CommandPhase::DeletingCommand;
                    BotAction::Delete { chat_id, message_id }
                } else {
                    self.phase = CommandPhase::Done;
                    BotAction::Finish
                }
            },
            _ => {
                self.phase = CommandPhase::Done;
                BotAction::Finish
            },
        }
    }
}

/// The actions a command's handling takes from `phase` on, event by
/// event, while each event is one the handler accepts.
pub open spec fn command_run(request: CommandRequest, phase: CommandPhase, events: Seq<BotEvent>) -> Seq<
    BotActionView,
>
    decreases events.len(),
{
    if events.len() == 0 || !CommandHandler::accepts(request, phase, events[0]) {
        Seq::empty()
    } else {
        let (after, action) = CommandHandler::next(request, phase, events[0]);
        seq![action] + command_run(request, after, events.drop_first())
    }
}

/// A run has at most one action per event.
proof fn command_run_len(request: CommandRequest, phase: CommandPhase, events: Seq<BotEvent>)
    ensures
        command_run(request, phase, events).len() <= events.len(),
    decreases events.len(),
{
    if events.len() > 0 && CommandHandler::accepts(request, phase, events[0]) {
        let (after, action) = CommandHandler::next(request, phase, events[0]);
        command_run_len(request, after, events.drop_first());
    }
}

/// How many more steps the handling of a command can take from a phase.
pub open spec fn command_rank(phase: CommandPhase) -> nat {
    match phase {
        CommandPhase::Start => 8,
        CommandPhase::CheckingBan => 7,
        CommandPhase::FindingPhoto => 6,
        CommandPhase::SavingContext => 5,
        CommandPhase::SettingState => 4,
        CommandPhase::Prompting => 3,
        CommandPhase::DeletingCommand => 2,
        CommandPhase::Replying => 1,
        CommandPhase::Done => 0,
    }
}

/// Every step of a command's handling that does not finish it brings it
/// closer to the end, so the handling always ends; once it has finished it
/// only finishes again.
pub proof fn command_handling_ends(request: CommandRequest, phase: CommandPhase, event: BotEvent)
    requires
        CommandHandler::accepts(request, phase, event),
    ensures
        CommandHandler::next(request, phase, event).0 == CommandPhase::Done
            || command_rank(CommandHandler::next(request, phase, event).0) < command_rank(phase),
        phase == CommandPhase::Done ==> CommandHandler::next(request, phase, event) == (
            CommandPhase::Done,
            BotActionView::Finish,
        ),
{
}

/// Once a command's handling has finished, every further step only finishes.
proof fn finished_command_stays_finished(request: CommandRequest, events: Seq<BotEvent>)
    ensures
        forall|i: int|
            0 <= i < command_run(request, CommandPhase::Done, events).len() ==> command_run(
                request,
                CommandPhase::Done,
                events,
            )[i] == BotActionView::Finish,
    decreases events.len(),
{
    if events.len() > 0 && CommandHandler::accepts(request, CommandPhase::Done, events[0]) {
        finished_command_stays_finished(request, events.drop_first());
    }
}

/// The bot does nothing for a command from a chat that is not private.
pub proof fn commands_only_in_private_chats(request: CommandRequest, events: Seq<BotEvent>)
    requires
        !request.is_private,
    ensures
        forall|i: int|
            0 <= i < command_run(request, CommandPhase::Start, events).len() ==> command_run(
                request,
                CommandPhase::Start,
                events,
            )[i] == BotActionView::Finish,
{
    if events.len() > 0 && CommandHandler::accepts(request, CommandPhase::Start, events[0]) {
        finished_command_stays_finished(request, events.drop_first());
    }
}

/// The bot does nothing for a command from a banned user.
pub proof fn banned_users_are_ignored(request: CommandRequest, later: Seq<BotEvent>)
    ensures
        forall|i: int|
            0 <= i < command_run(request, CommandPhase::CheckingBan, seq![BotEvent::Banned(true)] + later).len()
                ==> command_run(request, CommandPhase::CheckingBan, seq![BotEvent::Banned(true)] + later)[i]
                == BotActionView::Finish,
{
    let events = seq![BotEvent::Banned(true)] + later;
    assert(events.drop_first() =~= later);
    finished_command_stays_finished(request, later);
}

/// A `/ban` from anyone but the administrator does nothing: no photo is
/// looked up, nothing is stored, the dialogue does not change and no
/// message is deleted.
pub proof fn only_the_administrator_bans(request: CommandRequest, later: Seq<BotEvent>)
    requires
        request.command == BotCommand::Ban,
        request.sender is Some,
        request.sender.unwrap() as i64 != request.admin_id,
    ensures
        forall|i: int|
            0 <= i < command_run(request, CommandPhase::CheckingBan, seq![BotEvent::Banned(false)] + later).len()
                ==> command_run(request, CommandPhase::CheckingBan, seq![BotEvent::Banned(false)] + later)[i]
                == BotActionView::Finish,
{
    let events = seq![BotEvent::Banned(false)] + later;
    assert(events.drop_first() =~= later);
    finished_command_stays_finished(request, later);
}

/// The chat of a command moves to asking for a ban's reason only in the
/// step right after the ban in progress was stored.
pub proof fn ban_dialogue_opens_only_after_storing(
    request: CommandRequest,
    phase: CommandPhase,
    events: Seq<BotEvent>,
)
    ensures
        forall|i: int|
            0 <= i < command_run(request, phase, events).len() && command_run(request, phase, events)[i]
                is SetState ==> events[i] == BotEvent::Saved(true) && command_run(
                request,
                phase,
                events,
            )[i] == BotActionView::SetState(GlobalState::BanUser(ban_user::State::Reason)),
    decreases events.len(),
{
    if events.len() > 0 && CommandHandler::accepts(request, phase, events[0]) {
        let (after, action) = CommandHandler::next(request, phase, events[0]);
        ban_dialogue_opens_only_after_storing(request, after, events.drop_first());
        command_run_len(request, phase, events);
        assert forall|i: int|
            0 <= i < command_run(request, phase, events).len() && command_run(request, phase, events)[i]
                is SetState implies events[i] == BotEvent::Saved(true) && command_run(
                request,
                phase,
                events,
            )[i] == BotActionView::SetState(GlobalState::BanUser(ban_user::State::Reason)) by {
            let run = command_run(request, phase, events);
            assert(run == seq![action] + command_run(request, after, events.drop_first()));
            if i > 0 {
                assert(run[i] == command_run(request, after, events.drop_first())[i - 1]);
                assert(events[i] == events.drop_first()[i - 1]);
            } else {
                assert(run[0] == action);
            }
        }
    }
}

/// Everything the handling of a command does stays with that command: it
/// checks the ban of, replies in and deletes from the command's own chat;
/// the message it deletes is the command's own; the help reply is the bot's
/// version; the photo it looks up is the one the command replies to; and the
/// ban in progress is stored for the administrator, for the sender of that
/// photo.
pub proof fn command_actions_stay_with_the_command(
    request: CommandRequest,
    phase: CommandPhase,
    event: BotEvent,
)
    requires
        CommandHandler::accepts(request, phase, event),
    ensures
        CommandHandler::next(request, phase, event).1 matches BotActionView::CheckBanned { chat_id }
            ==> chat_id == request.chat_id,
        CommandHandler::next(request, phase, event).1 matches BotActionView::Send { chat_id, .. }
            ==> chat_id == request.chat_id,
        CommandHandler::next(request, phase, event).1 matches BotActionView::Send {
            reply: ReplyView::Version(v),
            ..
        } ==> v == request.version@,
        CommandHandler::next(request, phase, event).1 matches BotActionView::Delete { chat_id, message_id }
            ==> chat_id == request.chat_id && message_id == request.message_id,
        CommandHandler::next(request, phase, event).1 matches BotActionView::FindPhotoByMessage {
            message_id,
        } ==> request.reply_to == Some(message_id),
        CommandHandler::next(request, phase, event).1 matches BotActionView::SaveBanContext {
            user,
            user_id,
            ban_reason,
        } ==> user == request.admin_id && ban_reason is None && event is Photo && user_id
            == event->Photo_0.unwrap().user_id,
{
}

} // verus!
