use balto_bot::dialogue::{Action, Fault, Media, Plan, State, Text, UserRecord};
use balto_bot::handlers::{
    callback_handler, extract_state_from_dialogue, get_employers_list, help, list_employers,
    reset, send_media, start, waiting_employer, waiting_photo, waiting_text, waiting_voice,
};
use balto_bot::route::{IncomingCallback, IncomingMessage};

fn message(text: Option<&str>) -> IncomingMessage {
    IncomingMessage {
        chat_id: -100123,
        chat_username: Some("alice".to_string()),
        text: text.map(|t| t.to_string()),
        photo: None,
        voice: None,
    }
}

fn press(data: Option<&str>, lang: Option<&str>) -> IncomingCallback {
    IncomingCallback {
        data: data.map(|d| d.to_string()),
        from_id: 4242,
        first_name: "Ada".to_string(),
        last_name: Some("Lovelace".to_string()),
        language_code: lang.map(|l| l.to_string()),
        message: Some((55, 9)),
        inline_message_id: None,
    }
}

fn stored_state(plan: &Plan) -> Option<&State> {
    plan.actions.iter().rev().find_map(|a| match a {
        Action::SetState(s) => Some(s),
        _ => None,
    })
}

#[test]
fn start_greets_and_offers_roles() {
    let p = start(&message(Some("hi")));
    assert!(p.fault.is_none());
    assert_eq!(p.actions.len(), 1);
    match &p.actions[0] {
        Action::SendWithButtons { chat_id, text: Text::Welcome { user_name }, buttons } => {
            assert_eq!(*chat_id, -100123);
            assert_eq!(user_name, "alice");
            assert_eq!(buttons.len(), 2);
            assert!(matches!(buttons[0].text, Text::EmployeeRole));
            assert_eq!(buttons[0].data, "employee");
            assert!(matches!(buttons[1].text, Text::EmployerRole));
            assert_eq!(buttons[1].data, "employer");
        }
        other => panic!("unexpected {:?}", other),
    }
    let mut anonymous = message(None);
    anonymous.chat_username = None;
    match &start(&anonymous).actions[0] {
        Action::SendWithButtons { text: Text::Welcome { user_name }, .. } => assert_eq!(user_name, ""),
        other => panic!("unexpected {:?}", other),
    }
}

#[test]
fn help_sends_the_command_list() {
    let p = help(3);
    match &p.actions[..] {
        [Action::SendText { chat_id: 3, text: Text::Plain(t) }] => {
            assert!(t.starts_with("These commands are supported:"))
        }
        other => panic!("unexpected {:?}", other),
    }
}

#[test]
fn reset_looks_its_text_up_leaves_the_dialogue_then_says_so() {
    let p = reset(3);
    assert!(matches!(
        &p.actions[..],
        [
            Action::LookUpText(Text::ResetDone),
            Action::ExitDialogue,
            Action::SendText { chat_id: 3, text: Text::ResetDone }
        ]
    ));
}

#[test]
fn employers_are_listed_in_code_type_one_per_line() {
    let names = vec!["Ann".to_string(), "Bob B".to_string()];
    assert_eq!(list_employers(&names), "<code>Ann</code>\n<code>Bob B</code>");
    assert_eq!(list_employers(&vec![]), "");
    assert_eq!(list_employers(&vec!["X".to_string()]), "<code>X</code>");
    let p = get_employers_list(8, &names);
    match &p.actions[..] {
        [Action::SendTextUnchecked { chat_id: 8, text: Text::EmployersList { employers } }] => {
            assert_eq!(employers, "<code>Ann</code>\n<code>Bob B</code>")
        }
        other => panic!("unexpected {:?}", other),
    }
}

#[test]
fn naming_the_employer_starts_the_collection() {
    let p = waiting_employer(&message(Some("Acme Corp")));
    assert!(matches!(p.actions[0], Action::SendText { chat_id: -100123, text: Text::EmployerReceived }));
    match stored_state(&p) {
        Some(State::EmployeeWaitingMedia { employer, medias }) => {
            assert_eq!(employer, "Acme Corp");
            assert!(medias.is_empty());
        }
        other => panic!("unexpected {:?}", other),
    }
}

#[test]
fn media_are_collected_in_order() {
    let s0 = State::EmployeeWaitingMedia { employer: "Acme".to_string(), medias: vec![] };
    let p1 = waiting_text(&s0, &message(Some("first")));
    let s1 = stored_state(&p1).unwrap().clone();
    let mut photo_msg = message(None);
    photo_msg.photo = Some(vec!["p-small".to_string(), "p-big".to_string()]);
    let s2 = stored_state(&waiting_photo(&s1, &photo_msg)).unwrap().clone();
    let mut voice_msg = message(None);
    voice_msg.voice = Some("v-1".to_string());
    let s3 = stored_state(&waiting_voice(&s2, &voice_msg)).unwrap().clone();
    match extract_state_from_dialogue(&s3) {
        Some((employer, medias)) => {
            assert_eq!(employer, "Acme");
            assert_eq!(medias.len(), 3);
            assert!(matches!(&medias[0], Media::Text(t) if t == "first"));
            assert!(matches!(&medias[1], Media::Photo(p) if p.len() == 2 && p[1] == "p-big"));
            assert!(matches!(&medias[2], Media::Voice(v) if v == "v-1"));
        }
        None => panic!("not collecting"),
    }
}

#[test]
fn media_outside_the_collection_change_nothing() {
    let p = waiting_text(&State::Start, &message(Some("x")));
    assert!(p.actions.is_empty());
    assert!(p.fault.is_none());
    assert!(extract_state_from_dialogue(&State::EmployeePendingReport).is_none());
}

fn employer_user() -> UserRecord {
    UserRecord { id: "9".to_string(), full_name: "Acme".to_string(), role: "employer".to_string(), lang: "it".to_string() }
}

#[test]
fn sending_media_queues_a_report_request() {
    let state = State::EmployeeWaitingMedia {
        employer: "Acme".to_string(),
        medias: vec![
            Media::Voice("v-1".to_string()),
            Media::Text("hello".to_string()),
            Media::Photo(vec!["small".to_string(), "large".to_string()]),
        ],
    };
    let p = send_media(-100123, &state, "en-US", Some(employer_user()));
    assert!(p.fault.is_none());
    assert_eq!(p.actions.len(), 3);
    assert!(matches!(p.actions[0], Action::SendText { chat_id: -100123, text: Text::MediaSent }));
    match &p.actions[1] {
        Action::PushReportRequest(r) => {
            assert_eq!(r.employee, "-100123");
            assert_eq!(r.employer, "Acme");
            assert_eq!(r.employee_language, "en-US");
            assert_eq!(r.employer_language, "it");
            let kinds: Vec<(&str, &str)> =
                r.chat_messages.iter().map(|m| (m.kind.as_str(), m.content.as_str())).collect();
            assert_eq!(kinds, vec![("audio", "v-1"), ("text", "hello"), ("image", "large")]);
        }
        other => panic!("unexpected {:?}", other),
    }
    assert!(matches!(p.actions[2], Action::SetState(State::EmployeePendingReport)));
}

#[test]
fn sending_media_needs_a_known_employer() {
    let state = State::EmployeeWaitingMedia { employer: "Nobody".to_string(), medias: vec![] };
    let p = send_media(1, &state, "en", None);
    assert!(p.actions.is_empty());
    assert_eq!(p.fault, Some(Fault::EmployerNotFound));
}

#[test]
fn sending_media_needs_photo_sizes() {
    let state = State::EmployeeWaitingMedia { employer: "Acme".to_string(), medias: vec![Media::Photo(vec![])] };
    let p = send_media(1, &state, "en", Some(employer_user()));
    assert!(p.actions.is_empty());
    assert_eq!(p.fault, Some(Fault::EmptyPhoto));
}

#[test]
fn sending_outside_the_collection_does_nothing() {
    let p = send_media(1, &State::Start, "en", Some(employer_user()));
    assert!(p.actions.is_empty());
    assert!(p.fault.is_none());
}

#[test]
fn choosing_employee_stores_the_user_and_asks_for_the_employer() {
    let p = callback_handler(&press(Some("employee"), Some("en")));
    assert!(p.fault.is_none());
    assert_eq!(p.actions.len(), 5);
    assert!(matches!(p.actions[0], Action::AnswerCallback));
    match &p.actions[1] {
        Action::SaveUser(u) => {
            assert_eq!(u.id, "4242");
            assert_eq!(u.full_name, "Ada Lovelace");
            assert_eq!(u.role, "employee");
            assert_eq!(u.lang, "en");
        }
        other => panic!("unexpected {:?}", other),
    }
    assert!(matches!(p.actions[2], Action::LookUpText(Text::SelectEmployer)));
    assert!(matches!(p.actions[3], Action::EditMessage { chat_id: 55, message_id: 9, text: Text::SelectEmployer }));
    assert!(matches!(p.actions[4], Action::SetState(State::EmployeeWaitingEmployer)));
}

#[test]
fn choosing_employer_waits_for_reports() {
    let mut q = press(Some("employer"), Some("de"));
    q.last_name = None;
    q.message = None;
    q.inline_message_id = Some("inl".to_string());
    let p = callback_handler(&q);
    assert!(p.fault.is_none());
    assert_eq!(p.actions.len(), 5);
    assert!(matches!(&p.actions[1], Action::SaveUser(u) if u.role == "employer" && u.full_name == "Ada"));
    match &p.actions[2] {
        Action::SetState(State::EmployerWaitingReport { lang, name }) => {
            assert_eq!(lang, "de");
            assert_eq!(name, "Ada");
        }
        other => panic!("unexpected {:?}", other),
    }
    assert!(matches!(p.actions[3], Action::LookUpText(Text::NewEmployer)));
    assert!(matches!(&p.actions[4], Action::EditInlineMessage { inline_message_id, text: Text::NewEmployer } if inline_message_id == "inl"));
}

#[test]
fn choosing_a_role_needs_a_language() {
    let p = callback_handler(&press(Some("employee"), None));
    assert!(matches!(&p.actions[..], [Action::AnswerCallback]));
    assert_eq!(p.fault, Some(Fault::MissingLanguage));
    let p = callback_handler(&press(Some("employer"), None));
    assert_eq!(p.fault, Some(Fault::MissingLanguage));
}

#[test]
fn other_presses_are_only_answered() {
    for data in [None, Some("something")] {
        let p = callback_handler(&press(data, Some("en")));
        assert!(matches!(&p.actions[..], [Action::AnswerCallback]));
        assert!(p.fault.is_none());
    }
}

#[test]
fn a_press_without_a_message_edits_nothing_but_still_looks_the_text_up() {
    let mut q = press(Some("employee"), Some("en"));
    q.message = None;
    let p = callback_handler(&q);
    assert_eq!(p.actions.len(), 4);
    assert!(matches!(p.actions[2], Action::LookUpText(Text::SelectEmployer)));
    assert!(matches!(p.actions[3], Action::SetState(State::EmployeeWaitingEmployer)));
}

#[test]
fn the_dialogue_starts_at_the_start() {
    assert!(matches!(State::default(), State::Start));
}

#[test]
fn texts_name_their_translation() {
    assert_eq!(Text::Welcome { user_name: "a".to_string() }.location(), Some(("start", "welcome-message")));
    assert_eq!(Text::SendButton.location(), Some(("general", "send")));
    assert_eq!(Text::Plain("x".to_string()).location(), None);
    assert_eq!(
        Text::SummaryGenerated { report: "r".to_string() }.argument(),
        Some(("reportSummary", "r".to_string()))
    );
    assert_eq!(Text::ResetDone.argument(), None);
}
