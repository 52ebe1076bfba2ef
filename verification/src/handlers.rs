//! What each handler of the bot does: the actions it asks for, in order, and
//! where it stops short.
use crate::codec::{base64_decoded, decode_base64, parse_report_id, uuid_parsed};
use crate::command::{help_text, Command};
use crate::dialogue::{
    copy_medias, copy_texts, Action, ActionView, Button, ButtonView, ChatMessage, ChatMessageView, Fault, Media, MediaView,
    Plan, PlanView, ReportRequest, ReportRequestView, State, StateView, Text, TextView, UserRecord,
    UserRecordView,
};
use crate::report::{concat_text, pdf_name, ModelMessage, PendingReports};
use crate::route::{IncomingCallback, IncomingMessage};
use crate::text::{
    decimal_i64, decimal_int, decimal_nat, format_i64, format_u64, parse_i64, same_text,
};
use vstd::prelude::*;

verus! {

/// Appends an action to a list of actions.
fn push_action(actions: &mut Vec<Action>, a: Action)
    ensures
        final(actions).deep_view() == old(actions).deep_view().push(a.deep_view()),
{
    let ghost av = a.deep_view();
    actions.push(a);
    assert(actions.deep_view() =~= old(actions).deep_view().push(av));
}

/// A plan of the given actions that ends normally.
pub open spec fn done(actions: Seq<ActionView>) -> PlanView {
    PlanView { actions, fault: None }
}

/// A plan of the given actions that ends with `fault`.
pub open spec fn failed(actions: Seq<ActionView>, fault: Fault) -> PlanView {
    PlanView { actions, fault: Some(fault) }
}

// ---------------------------------------------------------------- /start

/// The welcome: a greeting with the chat's username (or nothing) and the two
/// role buttons, employee first.
pub open spec fn start_plan(msg: IncomingMessage) -> PlanView {
    let user_name = match msg.chat_username {
        Some(u) => u@,
        None => Seq::<char>::empty(),
    };
    done(
        seq![
            ActionView::SendWithButtons {
                chat_id: msg.chat_id,
                text: TextView::Welcome { user_name },
                buttons: seq![
                    ButtonView { text: TextView::EmployeeRole, data: "employee"@ },
                    ButtonView { text: TextView::EmployerRole, data: "employer"@ },
                ],
            },
        ],
    )
}

/// Greets the chat and asks for its role.
pub fn start(msg: &IncomingMessage) -> (r: Plan)
    ensures
        r.deep_view() == start_plan(*msg),
{
    let user_name = match &msg.chat_username {
        Some(u) => u.clone(),
        None => String::new(),
    };
    let buttons = vec![
        Button { text: Text::EmployeeRole, data: String::from_str("employee") },
        Button { text: Text::EmployerRole, data: String::from_str("employer") },
    ];
    assert(buttons.deep_view() =~= seq![
        ButtonView { text: TextView::EmployeeRole, data: "employee"@ },
        ButtonView { text: TextView::EmployerRole, data: "employer"@ },
    ]);
    let a = Action::SendWithButtons {
        chat_id: msg.chat_id,
        text: Text::Welcome { user_name },
        buttons,
    };
    let r = Plan { actions: vec![a], fault: None };
    assert(r.deep_view().actions =~= start_plan(*msg).actions);
    r
}

// ---------------------------------------------------------------- /help

/// The list of commands, sent to the chat.
pub open spec fn help_plan(chat_id: i64) -> PlanView {
    done(seq![ActionView::SendText { chat_id, text: TextView::Plain(help_text()) }])
}

/// Sends the list of commands.
pub fn help(chat_id: i64) -> (r: Plan)
    ensures
        r.deep_view() == help_plan(chat_id),
{
    let a = Action::SendText { chat_id, text: Text::Plain(Command::descriptions()) };
    let r = Plan { actions: vec![a], fault: None };
    assert(r.deep_view().actions =~= help_plan(chat_id).actions);
    r
}

// ---------------------------------------------------------------- /reset

/// Look the confirmation up, leave the dialogue, then send the confirmation.
pub open spec fn reset_plan(chat_id: i64) -> PlanView {
    done(
        seq![
            ActionView::LookUpText(TextView::ResetDone),
            ActionView::ExitDialogue,
            ActionView::SendText { chat_id, text: TextView::ResetDone },
        ],
    )
}

/// Starts the chat's dialogue over.
pub fn reset(chat_id: i64) -> (r: Plan)
    ensures
        r.deep_view() == reset_plan(chat_id),
{
    let r = Plan {
        actions: vec![
            Action::LookUpText(Text::ResetDone),
            Action::ExitDialogue,
            Action::SendText { chat_id, text: Text::ResetDone },
        ],
        fault: None,
    };
    assert(r.deep_view().actions =~= reset_plan(chat_id).actions);
    r
}

// ---------------------------------------------------------------- /employers

/// A name set in code type.
pub open spec fn code_line(name: Seq<char>) -> Seq<char> {
    "<code>"@ + name + "</code>"@
}

/// The employers' names, each in code type, one per line.
pub open spec fn employers_listing(names: Seq<Seq<char>>) -> Seq<char>
    decreases names.len(),
{
    if names.len() == 0 {
        Seq::empty()
    } else if names.len() == 1 {
        code_line(names[0])
    } else {
        employers_listing(names.drop_last()) + "\n"@ + code_line(names.last())
    }
}

/// The list of employers, sent to the chat; a failure to send is ignored.
pub open spec fn employers_plan(chat_id: i64, names: Seq<Seq<char>>) -> PlanView {
    done(
        seq![
            ActionView::SendTextUnchecked {
                chat_id,
                text: TextView::EmployersList { employers: employers_listing(names) },
            },
        ],
    )
}

/// The listing of employers' names.
pub fn list_employers(names: &Vec<String>) -> (r: String)
    ensures
        r@ == employers_listing(names.deep_view()),
{
    let mut out = String::new();
    let n = names.len();
    let mut i: usize = 0;
    while i < n
        invariant
            n == names.len(),
            i <= n,
            out@ == employers_listing(names.deep_view().take(i as int)),
        decreases n - i,
    {
        let ghost before = out@;
        if i > 0 {
            out.append("\n");
        }
        out.append("<code>");
        out.append(names[i].as_str());
        out.append("</code>");
        proof {
            let s = names.deep_view().take(i + 1);
            assert(s.drop_last() =~= names.deep_view().take(i as int));
            assert(s.last() == names[i as int]@);
            if i == 0 {
                assert(out@ =~= code_line(s[0]));
            } else {
                assert(out@ =~= before + "\n"@ + code_line(s.last()));
            }
        }
        i = i + 1;
    }
    assert(names.deep_view().take(n as int) =~= names.deep_view());
    out
}

/// Sends the names of the employers (`names`, as the database lists them).
pub fn get_employers_list(chat_id: i64, names: &Vec<String>) -> (r: Plan)
    ensures
        r.deep_view() == employers_plan(chat_id, names.deep_view()),
{
    let employers = list_employers(names);
    let a = Action::SendTextUnchecked { chat_id, text: Text::EmployersList { employers } };
    let r = Plan { actions: vec![a], fault: None };
    assert(r.deep_view().actions =~= employers_plan(chat_id, names.deep_view()).actions);
    r
}

// ---------------------------------------------------------------- employee

/// Acknowledge the employer's name and start collecting media for them.
pub open spec fn waiting_employer_plan(chat_id: i64, employer: Seq<char>) -> PlanView {
    done(
        seq![
            ActionView::SendText { chat_id, text: TextView::EmployerReceived },
            ActionView::SetState(
                StateView::EmployeeWaitingMedia { employer, medias: Seq::empty() },
            ),
        ],
    )
}

/// Takes the text of the message as the employee's employer.
pub fn waiting_employer(msg: &IncomingMessage) -> (r: Plan)
    requires
        msg.text is Some,
    ensures
        r.deep_view() == waiting_employer_plan(msg.chat_id, msg.text->0@),
{
    let employer = msg.text.as_ref().unwrap().clone();
    let medias: Vec<Media> = Vec::new();
    assert(medias.deep_view() =~= Seq::<MediaView>::empty());
    let r = Plan {
        actions: vec![
            Action::SendText { chat_id: msg.chat_id, text: Text::EmployerReceived },
            Action::SetState(State::EmployeeWaitingMedia { employer, medias }),
        ],
        fault: None,
    };
    assert(r.deep_view().actions =~= waiting_employer_plan(msg.chat_id, msg.text->0@).actions);
    r
}

/// The employer and the media of an employee collecting media.
pub fn extract_state_from_dialogue(state: &State) -> (r: Option<(String, Vec<Media>)>)
    ensures
        match state.deep_view() {
            StateView::EmployeeWaitingMedia { employer, medias } => match r {
                Some((e, ms)) => e@ == employer && ms.deep_view() == medias,
                None => false,
            },
            _ => r is None,
        },
{
    match state {
        State::EmployeeWaitingMedia { employer, medias } => Some((employer.clone(), copy_medias(medias))),
        _ => None,
    }
}

/// One more media for the report: stored after the others.
pub open spec fn media_added_plan(state: StateView, media: MediaView) -> PlanView {
    match state {
        StateView::EmployeeWaitingMedia { employer, medias } => done(
            seq![
                ActionView::SetState(
                    StateView::EmployeeWaitingMedia { employer, medias: medias.push(media) },
                ),
            ],
        ),
        _ => done(seq![]),
    }
}

/// Adds a media to the report that an employee is collecting.
pub fn add_media(state: &State, media: Media) -> (r: Plan)
    ensures
        r.deep_view() == media_added_plan(state.deep_view(), media.deep_view()),
{
    let ghost mv = media.deep_view();
    match extract_state_from_dialogue(state) {
        Some((employer, mut medias)) => {
            let ghost old_medias = medias.deep_view();
            medias.push(media);
            assert(medias.deep_view() =~= old_medias.push(mv));
            let r = Plan {
                actions: vec![Action::SetState(State::EmployeeWaitingMedia { employer, medias })],
                fault: None,
            };
            assert(r.deep_view().actions =~= media_added_plan(state.deep_view(), mv).actions);
            r
        },
        None => {
            let r = Plan { actions: Vec::new(), fault: None };
            assert(r.deep_view().actions =~= Seq::<ActionView>::empty());
            r
        },
    }
}

/// Adds the text of a message to the report being collected.
pub fn waiting_text(state: &State, msg: &IncomingMessage) -> (r: Plan)
    requires
        state is EmployeeWaitingMedia ==> msg.text is Some,
    ensures
        state is EmployeeWaitingMedia ==> r.deep_view() == media_added_plan(
            state.deep_view(),
            MediaView::Text(msg.text->0@),
        ),
        !(state is EmployeeWaitingMedia) ==> r.deep_view() == done(seq![]),
{
    if let State::EmployeeWaitingMedia { .. } = state {
        let media = Media::Text(msg.text.as_ref().unwrap().clone());
        add_media(state, media)
    } else {
        let r = Plan { actions: Vec::new(), fault: None };
        assert(r.deep_view().actions =~= Seq::<ActionView>::empty());
        r
    }
}

/// Adds the photo of a message to the report being collected.
pub fn waiting_photo(state: &State, msg: &IncomingMessage) -> (r: Plan)
    requires
        state is EmployeeWaitingMedia ==> msg.photo is Some,
    ensures
        state is EmployeeWaitingMedia ==> r.deep_view() == media_added_plan(
            state.deep_view(),
            MediaView::Photo(msg.photo->0.deep_view()),
        ),
        !(state is EmployeeWaitingMedia) ==> r.deep_view() == done(seq![]),
{
    if let State::EmployeeWaitingMedia { .. } = state {
        let media = Media::Photo(copy_texts(msg.photo.as_ref().unwrap()));
        add_media(state, media)
    } else {
        let r = Plan { actions: Vec::new(), fault: None };
        assert(r.deep_view().actions =~= Seq::<ActionView>::empty());
        r
    }
}

/// Adds the voice message to the report being collected.
pub fn waiting_voice(state: &State, msg: &IncomingMessage) -> (r: Plan)
    requires
        state is EmployeeWaitingMedia ==> msg.voice is Some,
    ensures
        state is EmployeeWaitingMedia ==> r.deep_view() == media_added_plan(
            state.deep_view(),
            MediaView::Voice(msg.voice->0@),
        ),
        !(state is EmployeeWaitingMedia) ==> r.deep_view() == done(seq![]),
{
    if let State::EmployeeWaitingMedia { .. } = state {
        let media = Media::Voice(msg.voice.as_ref().unwrap().clone());
        add_media(state, media)
    } else {
        let r = Plan { actions: Vec::new(), fault: None };
        assert(r.deep_view().actions =~= Seq::<ActionView>::empty());
        r
    }
}

// ---------------------------------------------------------------- /send

/// What the backend reads of a media: its kind and its content (the text, or
/// the file id of a voice message or of the largest size of a photo).
pub open spec fn chat_message_of(m: MediaView) -> ChatMessageView {
    match m {
        MediaView::Voice(v) => ChatMessageView { kind: "audio"@, content: v },
        MediaView::Text(t) => ChatMessageView { kind: "text"@, content: t },
        MediaView::Photo(p) => ChatMessageView { kind: "image"@, content: p.last() },
    }
}

/// Every photo has at least one size.
pub open spec fn photos_have_sizes(medias: Seq<MediaView>) -> bool {
    forall|i: int|
        0 <= i < medias.len() ==> match #[trigger] medias[i] {
            MediaView::Photo(p) => p.len() > 0,
            _ => true,
        }
}

/// The request for a report of `medias` from the employee of chat `chat_id`
/// to `employer`.
pub open spec fn report_request(
    chat_id: i64,
    employer: Seq<char>,
    medias: Seq<MediaView>,
    employee_language: Seq<char>,
    employer_language: Seq<char>,
) -> ReportRequestView {
    ReportRequestView {
        employee: decimal_int(chat_id as int),
        employer,
        employee_language,
        employer_language,
        chat_messages: medias.map_values(|m: MediaView| chat_message_of(m)),
    }
}

/// Sending the collected media: the employer must be a stored user and every
/// photo must have a size; then say so, queue the request and wait for the
/// report. Outside the collection of media nothing happens.
pub open spec fn send_media_plan(
    chat_id: i64,
    state: StateView,
    employee_language: Seq<char>,
    employer_user: Option<UserRecordView>,
) -> PlanView {
    match state {
        StateView::EmployeeWaitingMedia { employer, medias } => match employer_user {
            None => failed(seq![], Fault::EmployerNotFound),
            Some(u) => if !photos_have_sizes(medias) {
                failed(seq![], Fault::EmptyPhoto)
            } else {
                done(
                    seq![
                        ActionView::SendText { chat_id, text: TextView::MediaSent },
                        ActionView::PushReportRequest(
                            report_request(chat_id, employer, medias, employee_language, u.lang),
                        ),
                        ActionView::SetState(StateView::EmployeePendingReport),
                    ],
                )
            },
        },
        _ => done(seq![]),
    }
}

/// What the backend reads of the media, or `None` where a photo has no size.
pub fn chat_messages(medias: &Vec<Media>) -> (r: Option<Vec<ChatMessage>>)
    ensures
        match r {
            Some(v) => photos_have_sizes(medias.deep_view()) && v.deep_view()
                == medias.deep_view().map_values(|m: MediaView| chat_message_of(m)),
            None => !photos_have_sizes(medias.deep_view()),
        },
{
    let ghost ms = medias.deep_view();
    let mut out: Vec<ChatMessage> = Vec::new();
    let n = medias.len();
    let mut i: usize = 0;
    while i < n
        invariant
            n == medias.len(),
            ms == medias.deep_view(),
            i <= n,
            out.deep_view() =~= ms.take(i as int).map_values(|m: MediaView| chat_message_of(m)),
            forall|j: int|
                0 <= j < i ==> match #[trigger] ms[j] {
                    MediaView::Photo(p) => p.len() > 0,
                    _ => true,
                },
        decreases n - i,
    {
        let ghost before = out.deep_view();
        let msg = match &medias[i] {
            Media::Voice(v) => ChatMessage { kind: String::from_str("audio"), content: v.clone() },
            Media::Text(t) => ChatMessage { kind: String::from_str("text"), content: t.clone() },
            Media::Photo(p) => {
                if p.len() == 0 {
                    assert(match ms[i as int] {
                        MediaView::Photo(q) => q.len() == 0,
                        _ => false,
                    });
                    return None;
                }
                ChatMessage {
                    kind: String::from_str("image"),
                    content: p[p.len() - 1].clone(),
                }
            },
        };
        assert(msg.deep_view() == chat_message_of(ms[i as int]));
        out.push(msg);
        assert(out.deep_view() =~= before.push(chat_message_of(ms[i as int])));
        assert(ms.take(i + 1) =~= ms.take(i as int).push(ms[i as int]));
        assert(ms.take(i + 1).map_values(|m: MediaView| chat_message_of(m)) =~= ms.take(
            i as int,
        ).map_values(|m: MediaView| chat_message_of(m)).push(chat_message_of(ms[i as int])));
        i = i + 1;
    }
    assert(ms.take(n as int) =~= ms);
    Some(out)
}

/// Sends the collected media to the backend for a report: `employer_user` is
/// the stored user found by the employer's name, `employee_language` the
/// language of the chat.
pub fn send_media(
    chat_id: i64,
    state: &State,
    employee_language: &str,
    employer_user: Option<UserRecord>,
) -> (r: Plan)
    ensures
        r.deep_view() == send_media_plan(
            chat_id,
            state.deep_view(),
            employee_language@,
            match employer_user {
                Some(u) => Some(u.deep_view()),
                None => None,
            },
        ),
{
    if let State::EmployeeWaitingMedia { employer, medias } = state {
        match employer_user {
            None => {
                let r = Plan { actions: Vec::new(), fault: Some(Fault::EmployerNotFound) };
                assert(r.deep_view().actions =~= Seq::<ActionView>::empty());
                r
            },
            Some(u) => {
                match chat_messages(medias) {
                    None => {
                        let r = Plan { actions: Vec::new(), fault: Some(Fault::EmptyPhoto) };
                        assert(r.deep_view().actions =~= Seq::<ActionView>::empty());
                        r
                    },
                    Some(messages) => {
                        let req = ReportRequest {
                            employee: format_i64(chat_id),
                            employer: employer.clone(),
                            employee_language: String::from_str(employee_language),
                            employer_language: u.lang,
                            chat_messages: messages,
                        };
                        let r = Plan {
                            actions: vec![
                                Action::SendText { chat_id, text: Text::MediaSent },
                                Action::PushReportRequest(req),
                                Action::SetState(State::EmployeePendingReport),
                            ],
                            fault: None,
                        };
                        assert(r.deep_view().actions =~= send_media_plan(
                            chat_id,
                            state.deep_view(),
                            employee_language@,
                            Some(u.deep_view()),
                        ).actions);
                        r
                    },
                }
            },
        }
    } else {
        let r = Plan { actions: Vec::new(), fault: None };
        assert(r.deep_view().actions =~= Seq::<ActionView>::empty());
        r
    }
}

// ---------------------------------------------------------------- buttons

/// The full name of a user: the first name, then the last name after a space
/// where there is one.
pub open spec fn full_name(first: Seq<char>, last: Option<String>) -> Seq<char> {
    match last {
        Some(l) => first + " "@ + l@,
        None => first,
    }
}

/// The full name of the user who pressed a button.
pub fn user_full_name(q: &IncomingCallback) -> (r: String)
    ensures
        r@ == full_name(q.first_name@, q.last_name),
{
    let mut name = q.first_name.clone();
    if let Some(l) = &q.last_name {
        name.append(" ");
        name.append(l.as_str());
    }
    name
}

/// Look the new text up, then replace the text of the message that carried
/// the button: a chat message, else an inline message, else nothing.
pub open spec fn edit_actions(q: IncomingCallback, text: TextView) -> Seq<ActionView> {
    seq![ActionView::LookUpText(text)] + match q.message {
        Some((chat_id, message_id)) => seq![ActionView::EditMessage { chat_id, message_id, text }],
        None => match q.inline_message_id {
            Some(id) => seq![ActionView::EditInlineMessage { inline_message_id: id@, text }],
            None => seq![],
        },
    }
}

/// Appends the edit of the message that carried the button.
fn push_edit(actions: &mut Vec<Action>, q: &IncomingCallback, text: Text)
    ensures
        final(actions).deep_view() == old(actions).deep_view() + edit_actions(
            *q,
            text.deep_view(),
        ),
{
    let ghost tv = text.deep_view();
    push_action(actions, Action::LookUpText(text.copy()));
    if let Some((chat_id, message_id)) = q.message {
        push_action(actions, Action::EditMessage { chat_id, message_id, text });
    } else if let Some(id) = &q.inline_message_id {
        push_action(actions, Action::EditInlineMessage { inline_message_id: id.clone(), text });
    }
    assert(actions.deep_view() =~= old(actions).deep_view() + edit_actions(*q, tv));
}

/// The user who pressed a button, with a role and a language.
pub open spec fn user_with_role(q: IncomingCallback, role: Seq<char>, lang: Seq<char>) -> UserRecordView {
    UserRecordView {
        id: decimal_nat(q.from_id as nat),
        full_name: full_name(q.first_name@, q.last_name),
        role,
        lang,
    }
}

/// The choice of a role: answer the press; for "employee" store the user as
/// an employee, ask for the employer and wait for it; for "employer" store the
/// user as an employer, wait for reports in their language and welcome them.
/// Either needs the user's language code.
pub open spec fn role_choice_plan(q: IncomingCallback) -> PlanView {
    let answer = seq![ActionView::AnswerCallback];
    match q.data {
        None => done(answer),
        Some(d) => if d@ == "employee"@ {
            match q.language_code {
                None => failed(answer, Fault::MissingLanguage),
                Some(lang) => done(
                    answer + seq![ActionView::SaveUser(user_with_role(q, "employee"@, lang@))]
                        + edit_actions(q, TextView::SelectEmployer) + seq![
                        ActionView::SetState(StateView::EmployeeWaitingEmployer),
                    ],
                ),
            }
        } else if d@ == "employer"@ {
            match q.language_code {
                None => failed(answer, Fault::MissingLanguage),
                Some(lang) => done(
                    answer + seq![
                        ActionView::SaveUser(user_with_role(q, "employer"@, lang@)),
                        ActionView::SetState(
                            StateView::EmployerWaitingReport {
                                lang: lang@,
                                name: full_name(q.first_name@, q.last_name),
                            },
                        ),
                    ] + edit_actions(q, TextView::NewEmployer),
                ),
            }
        } else {
            done(answer)
        },
    }
}

/// Handles the choice of a role at the start.
pub fn callback_handler(q: &IncomingCallback) -> (r: Plan)
    ensures
        r.deep_view() == role_choice_plan(*q),
{
    let mut actions: Vec<Action> = Vec::new();
    push_action(&mut actions, Action::AnswerCallback);
    let ghost answer = actions.deep_view();
    assert(answer =~= seq![ActionView::AnswerCallback]);
    let data = match &q.data {
        None => {
            return Plan { actions, fault: None };
        },
        Some(d) => d,
    };
    let employee = same_text(data.as_str(), "employee");
    let employer = same_text(data.as_str(), "employer");
    if !employee && !employer {
        return Plan { actions, fault: None };
    }
    let lang = match &q.language_code {
        None => {
            return Plan { actions, fault: Some(Fault::MissingLanguage) };
        },
        Some(l) => l,
    };
    let role = if employee {
        String::from_str("employee")
    } else {
        String::from_str("employer")
    };
    let user = UserRecord {
        id: format_u64(q.from_id),
        full_name: user_full_name(q),
        role,
        lang: lang.clone(),
    };
    push_action(&mut actions, Action::SaveUser(user));
    if employee {
        push_edit(&mut actions, q, Text::SelectEmployer);
        push_action(&mut actions, Action::SetState(State::EmployeeWaitingEmployer));
        assert(actions.deep_view() =~= role_choice_plan(*q).actions);
    } else {
        let state = State::EmployerWaitingReport { lang: lang.clone(), name: user_full_name(q) };
        push_action(&mut actions, Action::SetState(state));
        push_edit(&mut actions, q, Text::NewEmployer);
        assert(actions.deep_view() =~= role_choice_plan(*q).actions);
    }
    Plan { actions, fault: None }
}

/// The plan `p` after the answer to the button press.
pub open spec fn after_answer(p: PlanView) -> PlanView {
    PlanView { actions: seq![ActionView::AnswerCallback] + p.actions, fault: p.fault }
}

/// Forwarding a report taken out for the press `q`, once its PDF is decoded
/// (`pdf`, `None` where it does not decode): read its employer's chat id, send
/// the PDF to the employer, collect media for that employer again and tell the
/// employee that the report was sent.
pub open spec fn forward_plan(q: IncomingCallback, report: ModelMessage, pdf: Option<Seq<u8>>) -> PlanView {
    match pdf {
        None => failed(seq![], Fault::InvalidPdf),
        Some(pdf) => match decimal_i64(report.employer@) {
            None => failed(seq![], Fault::InvalidChatId),
            Some(chat_id) => done(
                seq![
                    ActionView::SendDocument {
                        chat_id,
                        file_name: pdf_name(report.translated_title@),
                        content: pdf,
                        caption: TextView::Plain("New Report"@),
                        buttons: seq![],
                    },
                    ActionView::SetState(
                        StateView::EmployeeWaitingMedia { employer: report.employer@, medias: seq![] },
                    ),
                ] + edit_actions(q, TextView::ReportSent),
            ),
        },
    }
}

/// The confirmation of the report with id `id` (`None` where the button's
/// data is no id): take the report out of `reports`, decode its PDF, then as
/// `forward_plan`.
pub open spec fn confirm_id_plan(q: IncomingCallback, reports: Map<u128, ModelMessage>, id: Option<u128>) -> PlanView {
    match id {
        None => failed(seq![], Fault::InvalidReportId),
        Some(id) => if !reports.contains_key(id) {
            failed(seq![], Fault::UnknownReport)
        } else {
            forward_plan(q, reports[id], base64_decoded(reports[id].pdf@))
        },
    }
}

/// The confirmation of a report: answer the press; read the report id from
/// the button, then as `confirm_id_plan`.
pub open spec fn confirm_plan(q: IncomingCallback, reports: Map<u128, ModelMessage>) -> PlanView {
    match q.data {
        None => done(seq![ActionView::AnswerCallback]),
        Some(d) => after_answer(confirm_id_plan(q, reports, uuid_parsed(d@))),
    }
}

/// The reports that wait after the confirmation of the report with id `id`:
/// that one leaves.
pub open spec fn reports_after_id(reports: Map<u128, ModelMessage>, id: Option<u128>) -> Map<
    u128,
    ModelMessage,
> {
    match id {
        Some(id) => reports.remove(id),
        None => reports,
    }
}

/// The reports that wait after a confirmation: the one named by the button
/// leaves.
pub open spec fn reports_after_confirm(q: IncomingCallback, reports: Map<u128, ModelMessage>) -> Map<
    u128,
    ModelMessage,
> {
    match q.data {
        Some(d) => reports_after_id(reports, uuid_parsed(d@)),
        None => reports,
    }
}

/// Forwards a report taken out for the press `q`, with its decoded PDF.
pub fn forward_report(q: &IncomingCallback, report: ModelMessage, pdf: Option<Vec<u8>>) -> (r: Plan)
    ensures
        r.deep_view() == forward_plan(
            *q,
            report,
            match pdf {
                Some(p) => Some(p@),
                None => None,
            },
        ),
{
    let mut actions: Vec<Action> = Vec::new();
    assert(actions.deep_view() =~= Seq::<ActionView>::empty());
    let pdf = match pdf {
        None => {
            return Plan { actions, fault: Some(Fault::InvalidPdf) };
        },
        Some(p) => p,
    };
    let ghost pdf_view = pdf@;
    let file_name = concat_text(&report.translated_title, ".pdf");
    let chat_id = match parse_i64(report.employer.as_str()) {
        None => {
            return Plan { actions, fault: Some(Fault::InvalidChatId) };
        },
        Some(c) => c,
    };
    let buttons: Vec<Button> = Vec::new();
    assert(buttons.deep_view() =~= Seq::<ButtonView>::empty());
    push_action(
        &mut actions,
        Action::SendDocument {
            chat_id,
            file_name,
            content: pdf,
            caption: Text::Plain(String::from_str("New Report")),
            buttons,
        },
    );
    let medias: Vec<Media> = Vec::new();
    assert(medias.deep_view() =~= Seq::<MediaView>::empty());
    let ghost employer = report.employer@;
    push_action(
        &mut actions,
        Action::SetState(State::EmployeeWaitingMedia { employer: report.employer, medias }),
    );
    push_edit(&mut actions, q, Text::ReportSent);
    assert(actions.deep_view() =~= forward_plan(*q, report, Some(pdf_view)).actions);
    Plan { actions, fault: None }
}

/// Confirms the report with id `id` (`None` where the button's data is no
/// id): takes it out of `reports` and forwards it.
pub fn confirm_report(q: &IncomingCallback, reports: &mut PendingReports, id: Option<u128>) -> (r: Plan)
    ensures
        r.deep_view() == confirm_id_plan(*q, old(reports)@, id),
        final(reports)@ == reports_after_id(old(reports)@, id),
{
    let id = match id {
        None => {
            let r = Plan { actions: Vec::new(), fault: Some(Fault::InvalidReportId) };
            assert(r.deep_view().actions =~= Seq::<ActionView>::empty());
            return r;
        },
        Some(id) => id,
    };
    let report = match reports.take(id) {
        None => {
            let r = Plan { actions: Vec::new(), fault: Some(Fault::UnknownReport) };
            assert(r.deep_view().actions =~= Seq::<ActionView>::empty());
            return r;
        },
        Some(m) => m,
    };
    let pdf = decode_base64(report.pdf.as_str());
    forward_report(q, report, pdf)
}

/// The plan `p` after the answer to the button press.
fn answer_first(p: Plan) -> (r: Plan)
    ensures
        r.deep_view() == after_answer(p.deep_view()),
{
    let ghost pv = p.deep_view();
    let mut actions: Vec<Action> = Vec::new();
    push_action(&mut actions, Action::AnswerCallback);
    let Plan { actions: mut rest, fault } = p;
    let ghost before = actions.deep_view();
    let ghost rest_view = rest.deep_view();
    actions.append(&mut rest);
    assert(actions.deep_view() =~= before + rest_view);
    assert(actions.deep_view() =~= after_answer(pv).actions);
    Plan { actions, fault }
}

/// Handles the confirmation of a generated report.
pub fn callback_document_handler(q: &IncomingCallback, reports: &mut PendingReports) -> (r: Plan)
    ensures
        r.deep_view() == confirm_plan(*q, old(reports)@),
        final(reports)@ == reports_after_confirm(*q, old(reports)@),
{
    let data = match &q.data {
        None => {
            let r = Plan { actions: vec![Action::AnswerCallback], fault: None };
            assert(r.deep_view().actions =~= seq![ActionView::AnswerCallback]);
            return r;
        },
        Some(d) => d,
    };
    let id = parse_report_id(data.as_str());
    let rest = confirm_report(q, reports, id);
    answer_first(rest)
}

} // verus!
