use balto_bot::command::{Command, CommandParseError};
use balto_bot::route::{route_callback, route_message, CallbackRoute, IncomingMessage, MessageRoute};
use balto_bot::dialogue::{Media, State};

fn text_message(text: &str) -> IncomingMessage {
    IncomingMessage {
        chat_id: 7,
        chat_username: None,
        text: Some(text.to_string()),
        photo: None,
        voice: None,
    }
}

fn collecting() -> State {
    State::EmployeeWaitingMedia { employer: "Acme".to_string(), medias: vec![Media::Text("a".to_string())] }
}

#[test]
fn parses_plain_commands() {
    assert!(matches!(Command::parse("/help", "mybot"), Ok(Command::Help)));
    assert!(matches!(Command::parse("/start", "mybot"), Ok(Command::Start)));
    assert!(matches!(Command::parse("/reset", "mybot"), Ok(Command::Reset)));
    assert!(matches!(Command::parse("/send", "mybot"), Ok(Command::Send)));
    assert!(matches!(Command::parse("/employers", "mybot"), Ok(Command::Employers)));
}

#[test]
fn parses_commands_with_arguments() {
    assert!(matches!(Command::parse("/send now please", "mybot"), Ok(Command::Send)));
    assert!(matches!(Command::parse("/start x", "mybot"), Ok(Command::Start)));
}

#[test]
fn parses_commands_addressed_to_the_bot_in_any_case() {
    assert!(matches!(Command::parse("/help@MyBot", "mybot"), Ok(Command::Help)));
    assert!(matches!(Command::parse("/employers@MYBOT extra", "mybot"), Ok(Command::Employers)));
    // only the part between the first and the second `@` names the bot
    assert!(matches!(Command::parse("/reset@mybot@other", "mybot"), Ok(Command::Reset)));
}

#[test]
fn refuses_commands_for_another_bot() {
    match Command::parse("/help@otherbot", "mybot") {
        Err(CommandParseError::WrongBotName(n)) => assert_eq!(n, "otherbot"),
        other => panic!("unexpected {:?}", other),
    }
}

#[test]
fn refuses_unknown_commands() {
    match Command::parse("/unknown arg", "mybot") {
        Err(CommandParseError::UnknownCommand(n)) => assert_eq!(n, "/unknown"),
        other => panic!("unexpected {:?}", other),
    }
    match Command::parse("hello there", "mybot") {
        Err(CommandParseError::UnknownCommand(n)) => assert_eq!(n, "hello"),
        other => panic!("unexpected {:?}", other),
    }
    // commands are case sensitive
    assert!(Command::parse("/HELP", "mybot").is_err());
    assert!(Command::parse("", "mybot").is_err());
}

#[test]
fn help_text_lists_every_command() {
    assert_eq!(
        Command::descriptions(),
        "These commands are supported:\n\n/help — display this text.\n/start — verify user.\n/reset — Reset user.\n/send — Send table to the employer\n/employers — Get all employers"
    );
}

#[test]
fn routes_commands_before_messages() {
    let bot = "mybot";
    assert_eq!(route_message(&State::Start, &text_message("/start"), bot), Some(MessageRoute::Start));
    assert_eq!(route_message(&State::Start, &text_message("/help"), bot), Some(MessageRoute::Help));
    assert_eq!(route_message(&collecting(), &text_message("/help"), bot), Some(MessageRoute::Help));
    assert_eq!(route_message(&State::EmployeePendingReport, &text_message("/reset"), bot), Some(MessageRoute::Reset));
    assert_eq!(route_message(&State::EmployerWaitingLang, &text_message("/employers"), bot), Some(MessageRoute::Employers));
    assert_eq!(route_message(&collecting(), &text_message("/send"), bot), Some(MessageRoute::SendMedia));
}

#[test]
fn routes_commands_that_do_not_apply_as_messages() {
    let bot = "mybot";
    // /send at the start reaches the start
    assert_eq!(route_message(&State::Start, &text_message("/send"), bot), Some(MessageRoute::Start));
    // /start while collecting media is collected as a text
    assert_eq!(route_message(&collecting(), &text_message("/start"), bot), Some(MessageRoute::WaitingText));
    // /start while naming the employer is taken as the employer's name
    assert_eq!(
        route_message(&State::EmployeeWaitingEmployer, &text_message("/start"), bot),
        Some(MessageRoute::WaitingEmployer)
    );
    // a command for another bot is an ordinary text
    assert_eq!(route_message(&collecting(), &text_message("/help@other"), bot), Some(MessageRoute::WaitingText));
}

#[test]
fn routes_messages_by_state() {
    let bot = "mybot";
    assert_eq!(route_message(&State::Start, &text_message("hi"), bot), Some(MessageRoute::Start));
    assert_eq!(
        route_message(&State::EmployeeWaitingEmployer, &text_message("Acme"), bot),
        Some(MessageRoute::WaitingEmployer)
    );
    assert_eq!(route_message(&collecting(), &text_message("note"), bot), Some(MessageRoute::WaitingText));
    assert_eq!(route_message(&State::EmployerWaitingLang, &text_message("en"), bot), Some(MessageRoute::Help));
    assert_eq!(route_message(&State::EmployeePendingReport, &text_message("hey"), bot), None);
    let report_state = State::EmployerWaitingReport { lang: "en".to_string(), name: "Boss".to_string() };
    assert_eq!(route_message(&report_state, &text_message("hey"), bot), None);
}

#[test]
fn routes_photos_and_voice_while_collecting() {
    let bot = "mybot";
    let photo = IncomingMessage {
        chat_id: 7,
        chat_username: None,
        text: None,
        photo: Some(vec!["small".to_string(), "big".to_string()]),
        voice: None,
    };
    let voice = IncomingMessage { chat_id: 7, chat_username: None, text: None, photo: None, voice: Some("v1".to_string()) };
    let sticker = IncomingMessage { chat_id: 7, chat_username: None, text: None, photo: None, voice: None };
    assert_eq!(route_message(&collecting(), &photo, bot), Some(MessageRoute::WaitingPhoto));
    assert_eq!(route_message(&collecting(), &voice, bot), Some(MessageRoute::WaitingVoice));
    assert_eq!(route_message(&collecting(), &sticker, bot), None);
    assert_eq!(route_message(&State::EmployeeWaitingEmployer, &photo, bot), None);
    // at the start every message is answered
    assert_eq!(route_message(&State::Start, &photo, bot), Some(MessageRoute::Start));
    assert_eq!(route_message(&State::Start, &sticker, bot), Some(MessageRoute::Start));
}

#[test]
fn routes_button_presses() {
    assert_eq!(route_callback(&State::Start), Some(CallbackRoute::ChooseRole));
    assert_eq!(route_callback(&State::EmployeePendingReport), Some(CallbackRoute::ConfirmReport));
    assert_eq!(route_callback(&collecting()), None);
    assert_eq!(route_callback(&State::EmployeeWaitingEmployer), None);
}
