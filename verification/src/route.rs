//! Which handler an update reaches, given the chat's dialogue state.
use crate::command::{parse_command, Command};
use crate::dialogue::State;
use vstd::prelude::*;

verus! {

/// A message that a chat sent, as far as the handlers read it.
#[derive(Clone, Debug)]
pub struct IncomingMessage {
    pub chat_id: i64,
    /// The chat's username, where it has one.
    pub chat_username: Option<String>,
    /// The text of a text message.
    pub text: Option<String>,
    /// The file ids of the sizes of a photo, smallest first.
    pub photo: Option<Vec<String>>,
    /// The file id of a voice message.
    pub voice: Option<String>,
}

/// A press on an inline button, as far as the handlers read it.
#[derive(Clone, Debug)]
pub struct IncomingCallback {
    /// The callback data of the button.
    pub data: Option<String>,
    pub from_id: u64,
    pub first_name: String,
    pub last_name: Option<String>,
    pub language_code: Option<String>,
    /// The chat and the id of the message that carried the button.
    pub message: Option<(i64, i32)>,
    /// The id of the inline message that carried the button.
    pub inline_message_id: Option<String>,
}

/// The handler that a message reaches.
#[derive(Clone, Copy, Debug, PartialEq, Eq, Structural)]
pub enum MessageRoute {
    Start,
    Help,
    Reset,
    Employers,
    SendMedia,
    WaitingEmployer,
    WaitingText,
    WaitingPhoto,
    WaitingVoice,
}

/// The handler that a button press reaches.
#[derive(Clone, Copy, Debug, PartialEq, Eq, Structural)]
pub enum CallbackRoute {
    /// The choice between employee and employer.
    ChooseRole,
    /// The confirmation of a generated report.
    ConfirmReport,
}

/// The command that a message carries for the bot `bot_name`, if any.
pub open spec fn message_command(msg: IncomingMessage, bot_name: Seq<char>) -> Option<Command> {
    match msg.text {
        Some(t) => match parse_command(t@, bot_name) {
            Ok(c) => Some(c),
            Err(_) => None,
        },
        None => None,
    }
}

/// Where a command leads in a state; `None` lets the message go on to the
/// handlers of ordinary messages.
pub open spec fn command_route(state: State, c: Command) -> Option<MessageRoute> {
    match c {
        Command::Start => if state is Start {
            Some(MessageRoute::Start)
        } else {
            None
        },
        Command::Help => Some(MessageRoute::Help),
        Command::Reset => Some(MessageRoute::Reset),
        Command::Employers => Some(MessageRoute::Employers),
        Command::Send => if state is EmployeeWaitingMedia {
            Some(MessageRoute::SendMedia)
        } else {
            None
        },
    }
}

/// Where a message leads: first the commands, then the start, then text by
/// state, then photos and voice messages of an employee collecting media;
/// `None` where no handler takes it.
pub open spec fn message_route(state: State, msg: IncomingMessage, bot_name: Seq<char>) -> Option<
    MessageRoute,
> {
    let by_command = match message_command(msg, bot_name) {
        Some(c) => command_route(state, c),
        None => None,
    };
    if by_command is Some {
        by_command
    } else if state is Start {
        Some(MessageRoute::Start)
    } else if msg.text is Some && state is EmployeeWaitingEmployer {
        Some(MessageRoute::WaitingEmployer)
    } else if msg.text is Some && state is EmployeeWaitingMedia {
        Some(MessageRoute::WaitingText)
    } else if msg.text is Some && state is EmployerWaitingLang {
        Some(MessageRoute::Help)
    } else if state is EmployeeWaitingMedia && msg.photo is Some {
        Some(MessageRoute::WaitingPhoto)
    } else if state is EmployeeWaitingMedia && msg.voice is Some {
        Some(MessageRoute::WaitingVoice)
    } else {
        None
    }
}

/// Where a button press leads.
pub open spec fn callback_route(state: State) -> Option<CallbackRoute> {
    if state is Start {
        Some(CallbackRoute::ChooseRole)
    } else if state is EmployeePendingReport {
        Some(CallbackRoute::ConfirmReport)
    } else {
        None
    }
}

/// The handler that a message reaches in a chat in `state`, for the bot
/// `bot_name`.
pub fn route_message(state: &State, msg: &IncomingMessage, bot_name: &str) -> (r: Option<
    MessageRoute,
>)
    ensures
        r == message_route(*state, *msg, bot_name@),
{
    let mut command: Option<Command> = None;
    if let Some(t) = &msg.text {
        let parsed = Command::parse(t.as_str(), bot_name);
        if let Ok(c) = parsed {
            command = Some(c);
        }
    }
    assert(command == message_command(*msg, bot_name@));
    if let Some(c) = command {
        match c {
            Command::Start => {
                if let State::Start = state {
                    return Some(MessageRoute::Start);
                }
            },
            Command::Help => {
                return Some(MessageRoute::Help);
            },
            Command::Reset => {
                return Some(MessageRoute::Reset);
            },
            Command::Employers => {
                return Some(MessageRoute::Employers);
            },
            Command::Send => {
                if let State::EmployeeWaitingMedia { .. } = state {
                    return Some(MessageRoute::SendMedia);
                }
            },
        }
    }
    let has_text = msg.text.is_some();
    match state {
        State::Start => Some(MessageRoute::Start),
        State::EmployeeWaitingEmployer => {
            if has_text {
                Some(MessageRoute::WaitingEmployer)
            } else {
                None
            }
        },
        State::EmployeeWaitingMedia { .. } => {
            if has_text {
                Some(MessageRoute::WaitingText)
            } else if msg.photo.is_some() {
                Some(MessageRoute::WaitingPhoto)
            } else if msg.voice.is_some() {
                Some(MessageRoute::WaitingVoice)
            } else {
                None
            }
        },
        State::EmployerWaitingLang => {
            if has_text {
                Some(MessageRoute::Help)
            } else {
                None
            }
        },
        _ => None,
    }
}

/// The handler that a button press reaches in a chat in `state`.
pub fn route_callback(state: &State) -> (r: Option<CallbackRoute>)
    ensures
        r == callback_route(*state),
{
    match state {
        State::Start => Some(CallbackRoute::ChooseRole),
        State::EmployeePendingReport => Some(CallbackRoute::ConfirmReport),
        _ => None,
    }
}

} // verus!
