//! What the bot keeps per chat (the dialogue state), and what its handlers ask
//! the outside world to do (actions), each with a view over sequences.
use vstd::prelude::*;

verus! {

/// A piece of media that an employee sent for the report.
#[derive(Clone, Debug)]
pub enum Media {
    /// A text message.
    Text(String),
    /// A photo, by the file ids of its sizes, smallest first.
    Photo(Vec<String>),
    /// A voice message, by its file id.
    Voice(String),
}

pub enum MediaView {
    Text(Seq<char>),
    Photo(Seq<Seq<char>>),
    Voice(Seq<char>),
}

impl DeepView for Media {
    type V = MediaView;

    open spec fn deep_view(&self) -> MediaView {
        match self {
            Media::Text(t) => MediaView::Text(t@),
            Media::Photo(p) => MediaView::Photo(p.deep_view()),
            Media::Voice(v) => MediaView::Voice(v@),
        }
    }
}

/// A copy of a list of texts.
pub fn copy_texts(v: &Vec<String>) -> (r: Vec<String>)
    ensures
        r.deep_view() == v.deep_view(),
{
    let mut r: Vec<String> = Vec::new();
    let n = v.len();
    let mut i: usize = 0;
    while i < n
        invariant
            n == v.len(),
            i <= n,
            r.deep_view() =~= v.deep_view().take(i as int),
        decreases n - i,
    {
        let ghost before = r.deep_view();
        let x = v[i].clone();
        r.push(x);
        assert(r.deep_view() =~= before.push(v[i as int]@));
        assert(v.deep_view().take(i + 1) =~= v.deep_view().take(i as int).push(v[i as int]@));
        i = i + 1;
    }
    assert(v.deep_view().take(n as int) =~= v.deep_view());
    r
}

impl Media {
    /// A copy of the media.
    pub fn copy(&self) -> (r: Media)
        ensures
            r.deep_view() == self.deep_view(),
    {
        match self {
            Media::Text(t) => Media::Text(t.clone()),
            Media::Photo(p) => Media::Photo(copy_texts(p)),
            Media::Voice(v) => Media::Voice(v.clone()),
        }
    }
}

/// A copy of a list of media.
pub fn copy_medias(v: &Vec<Media>) -> (r: Vec<Media>)
    ensures
        r.deep_view() == v.deep_view(),
{
    let mut r: Vec<Media> = Vec::new();
    let n = v.len();
    let mut i: usize = 0;
    while i < n
        invariant
            n == v.len(),
            i <= n,
            r.deep_view() =~= v.deep_view().take(i as int),
        decreases n - i,
    {
        let ghost before = r.deep_view();
        let x = v[i].copy();
        r.push(x);
        assert(r.deep_view() =~= before.push(v[i as int].deep_view()));
        assert(v.deep_view().take(i + 1) =~= v.deep_view().take(i as int).push(
            v[i as int].deep_view(),
        ));
        i = i + 1;
    }
    assert(v.deep_view().take(n as int) =~= v.deep_view());
    r
}

/// Where a chat stands in the dialogue.
#[derive(Clone, Debug)]
pub enum State {
    Start,
    /// An employee who has to name their employer.
    EmployeeWaitingEmployer,
    /// An employee collecting media for a report to `employer`.
    EmployeeWaitingMedia { employer: String, medias: Vec<Media> },
    /// An employee whose report is being generated or waits for confirmation.
    EmployeePendingReport,
    /// An employer who has to give a language.
    EmployerWaitingLang,
    /// An employer waiting for reports.
    EmployerWaitingReport { lang: String, name: String },
}

pub enum StateView {
    Start,
    EmployeeWaitingEmployer,
    EmployeeWaitingMedia { employer: Seq<char>, medias: Seq<MediaView> },
    EmployeePendingReport,
    EmployerWaitingLang,
    EmployerWaitingReport { lang: Seq<char>, name: Seq<char> },
}

impl DeepView for State {
    type V = StateView;

    open spec fn deep_view(&self) -> StateView {
        match self {
            State::Start => StateView::Start,
            State::EmployeeWaitingEmployer => StateView::EmployeeWaitingEmployer,
            State::EmployeeWaitingMedia { employer, medias } => StateView::EmployeeWaitingMedia {
                employer: employer@,
                medias: medias.deep_view(),
            },
            State::EmployeePendingReport => StateView::EmployeePendingReport,
            State::EmployerWaitingLang => StateView::EmployerWaitingLang,
            State::EmployerWaitingReport { lang, name } => StateView::EmployerWaitingReport {
                lang: lang@,
                name: name@,
            },
        }
    }
}

impl Default for State {
    /// A chat without a stored state is at the start.
    fn default() -> (s: State)
        ensures
            s.deep_view() == StateView::Start,
    {
        State::Start
    }
}

/// A text that the bot sends: a localized message, with its argument where it
/// has one, or a text given as it is.
#[derive(Clone, Debug)]
pub enum Text {
    /// `start` / `welcome-message`, with `userName`.
    Welcome { user_name: String },
    /// `start` / `employer`: the label of the employer button.
    EmployerRole,
    /// `start` / `employee`: the label of the employee button.
    EmployeeRole,
    /// `reset` / `reset`.
    ResetDone,
    /// `general` / `get-employers`, with `employers`.
    EmployersList { employers: String },
    /// `general` / `send`: the label of the confirmation button.
    SendButton,
    /// `employee` / `received-employer`.
    EmployerReceived,
    /// `employee` / `sent-media`.
    MediaSent,
    /// `employee` / `select-employer`.
    SelectEmployer,
    /// `employee` / `sent-report`.
    ReportSent,
    /// `employee` / `summary-generated`, with `reportSummary`.
    SummaryGenerated { report: String },
    /// `employer` / `new-employer`.
    NewEmployer,
    /// A text that needs no translation.
    Plain(String),
}

pub enum TextView {
    Welcome { user_name: Seq<char> },
    EmployerRole,
    EmployeeRole,
    ResetDone,
    EmployersList { employers: Seq<char> },
    SendButton,
    EmployerReceived,
    MediaSent,
    SelectEmployer,
    ReportSent,
    SummaryGenerated { report: Seq<char> },
    NewEmployer,
    Plain(Seq<char>),
}

impl DeepView for Text {
    type V = TextView;

    open spec fn deep_view(&self) -> TextView {
        match self {
            Text::Welcome { user_name } => TextView::Welcome { user_name: user_name@ },
            Text::EmployerRole => TextView::EmployerRole,
            Text::EmployeeRole => TextView::EmployeeRole,
            Text::ResetDone => TextView::ResetDone,
            Text::EmployersList { employers } => TextView::EmployersList {
                employers: employers@,
            },
            Text::SendButton => TextView::SendButton,
            Text::EmployerReceived => TextView::EmployerReceived,
            Text::MediaSent => TextView::MediaSent,
            Text::SelectEmployer => TextView::SelectEmployer,
            Text::ReportSent => TextView::ReportSent,
            Text::SummaryGenerated { report } => TextView::SummaryGenerated { report: report@ },
            Text::NewEmployer => TextView::NewEmployer,
            Text::Plain(t) => TextView::Plain(t@),
        }
    }
}

impl Text {
    /// A copy of the text.
    pub fn copy(&self) -> (r: Text)
        ensures
            r.deep_view() == self.deep_view(),
    {
        match self {
            Text::Welcome { user_name } => Text::Welcome { user_name: user_name.clone() },
            Text::EmployerRole => Text::EmployerRole,
            Text::EmployeeRole => Text::EmployeeRole,
            Text::ResetDone => Text::ResetDone,
            Text::EmployersList { employers } => Text::EmployersList { employers: employers.clone() },
            Text::SendButton => Text::SendButton,
            Text::EmployerReceived => Text::EmployerReceived,
            Text::MediaSent => Text::MediaSent,
            Text::SelectEmployer => Text::SelectEmployer,
            Text::ReportSent => Text::ReportSent,
            Text::SummaryGenerated { report } => Text::SummaryGenerated { report: report.clone() },
            Text::NewEmployer => Text::NewEmployer,
            Text::Plain(t) => Text::Plain(t.clone()),
        }
    }
}

/// The group and the key of a localized text.
pub open spec fn text_location(t: TextView) -> Option<(Seq<char>, Seq<char>)> {
    match t {
        TextView::Welcome { .. } => Some(("start"@, "welcome-message"@)),
        TextView::EmployerRole => Some(("start"@, "employer"@)),
        TextView::EmployeeRole => Some(("start"@, "employee"@)),
        TextView::ResetDone => Some(("reset"@, "reset"@)),
        TextView::EmployersList { .. } => Some(("general"@, "get-employers"@)),
        TextView::SendButton => Some(("general"@, "send"@)),
        TextView::EmployerReceived => Some(("employee"@, "received-employer"@)),
        TextView::MediaSent => Some(("employee"@, "sent-media"@)),
        TextView::SelectEmployer => Some(("employee"@, "select-employer"@)),
        TextView::ReportSent => Some(("employee"@, "sent-report"@)),
        TextView::SummaryGenerated { .. } => Some(("employee"@, "summary-generated"@)),
        TextView::NewEmployer => Some(("employer"@, "new-employer"@)),
        TextView::Plain(_) => None,
    }
}

/// The named argument of a localized text, where it has one.
pub open spec fn text_argument(t: TextView) -> Option<(Seq<char>, Seq<char>)> {
    match t {
        TextView::Welcome { user_name } => Some(("userName"@, user_name)),
        TextView::EmployersList { employers } => Some(("employers"@, employers)),
        TextView::SummaryGenerated { report } => Some(("reportSummary"@, report)),
        _ => None,
    }
}

impl Text {
    /// The message group and key under which the text is translated, or
    /// `None` for a plain text.
    pub fn location(&self) -> (r: Option<(&'static str, &'static str)>)
        ensures
            match r {
                Some((g, k)) => text_location(self.deep_view()) == Some((g@, k@)),
                None => text_location(self.deep_view()) is None,
            },
    {
        match self {
            Text::Welcome { .. } => Some(("start", "welcome-message")),
            Text::EmployerRole => Some(("start", "employer")),
            Text::EmployeeRole => Some(("start", "employee")),
            Text::ResetDone => Some(("reset", "reset")),
            Text::EmployersList { .. } => Some(("general", "get-employers")),
            Text::SendButton => Some(("general", "send")),
            Text::EmployerReceived => Some(("employee", "received-employer")),
            Text::MediaSent => Some(("employee", "sent-media")),
            Text::SelectEmployer => Some(("employee", "select-employer")),
            Text::ReportSent => Some(("employee", "sent-report")),
            Text::SummaryGenerated { .. } => Some(("employee", "summary-generated")),
            Text::NewEmployer => Some(("employer", "new-employer")),
            Text::Plain(_) => None,
        }
    }

    /// The name and the value of the text's argument, where it has one.
    pub fn argument(&self) -> (r: Option<(&'static str, String)>)
        ensures
            match r {
                Some((n, v)) => text_argument(self.deep_view()) == Some((n@, v@)),
                None => text_argument(self.deep_view()) is None,
            },
    {
        match self {
            Text::Welcome { user_name } => Some(("userName", user_name.clone())),
            Text::EmployersList { employers } => Some(("employers", employers.clone())),
            Text::SummaryGenerated { report } => Some(("reportSummary", report.clone())),
            _ => None,
        }
    }
}

/// An inline keyboard button: its label and the callback data it sends.
#[derive(Clone, Debug)]
pub struct Button {
    pub text: Text,
    pub data: String,
}

pub struct ButtonView {
    pub text: TextView,
    pub data: Seq<char>,
}

impl DeepView for Button {
    type V = ButtonView;

    open spec fn deep_view(&self) -> ButtonView {
        ButtonView { text: self.text.deep_view(), data: self.data@ }
    }
}

/// A user as the database keeps it.
#[derive(Clone, Debug)]
pub struct UserRecord {
    pub id: String,
    pub full_name: String,
    pub role: String,
    pub lang: String,
}

pub struct UserRecordView {
    pub id: Seq<char>,
    pub full_name: Seq<char>,
    pub role: Seq<char>,
    pub lang: Seq<char>,
}

impl DeepView for UserRecord {
    type V = UserRecordView;

    open spec fn deep_view(&self) -> UserRecordView {
        UserRecordView {
            id: self.id@,
            full_name: self.full_name@,
            role: self.role@,
            lang: self.lang@,
        }
    }
}

/// One media of a report request, as the backend reads it.
#[derive(Clone, Debug)]
pub struct ChatMessage {
    pub kind: String,
    pub content: String,
}

pub struct ChatMessageView {
    pub kind: Seq<char>,
    pub content: Seq<char>,
}

impl DeepView for ChatMessage {
    type V = ChatMessageView;

    open spec fn deep_view(&self) -> ChatMessageView {
        ChatMessageView { kind: self.kind@, content: self.content@ }
    }
}

/// What the backend needs to generate a report.
#[derive(Clone, Debug)]
pub struct ReportRequest {
    pub employee: String,
    pub employer: String,
    pub employee_language: String,
    pub employer_language: String,
    pub chat_messages: Vec<ChatMessage>,
}

pub struct ReportRequestView {
    pub employee: Seq<char>,
    pub employer: Seq<char>,
    pub employee_language: Seq<char>,
    pub employer_language: Seq<char>,
    pub chat_messages: Seq<ChatMessageView>,
}

impl DeepView for ReportRequest {
    type V = ReportRequestView;

    open spec fn deep_view(&self) -> ReportRequestView {
        ReportRequestView {
            employee: self.employee@,
            employer: self.employer@,
            employee_language: self.employee_language@,
            employer_language: self.employer_language@,
            chat_messages: self.chat_messages.deep_view(),
        }
    }
}

/// What a handler asks the outside world to do.
#[derive(Clone, Debug)]
pub enum Action {
    /// Answer the callback query, so that clients stop showing a clock.
    AnswerCallback,
    /// Look a text up before going on; a failure ends the handling.
    LookUpText(Text),
    /// Send a text; a failure ends the handling.
    SendText { chat_id: i64, text: Text },
    /// Send a text; a failure is ignored.
    SendTextUnchecked { chat_id: i64, text: Text },
    /// Send a text with one row of inline buttons; a failure ends the handling.
    SendWithButtons { chat_id: i64, text: Text, buttons: Vec<Button> },
    /// Replace the text of a chat message; a failure ends the handling.
    EditMessage { chat_id: i64, message_id: i32, text: Text },
    /// Replace the text of an inline message; a failure ends the handling.
    EditInlineMessage { inline_message_id: String, text: Text },
    /// Store the user, replacing the one with the same id.
    SaveUser(UserRecord),
    /// Store the chat's new dialogue state.
    SetState(State),
    /// Forget the chat's dialogue state, so that it starts over.
    ExitDialogue,
    /// Send a document with a caption and a row of buttons; a failure is ignored.
    SendDocument {
        chat_id: i64,
        file_name: String,
        content: Vec<u8>,
        caption: Text,
        buttons: Vec<Button>,
    },
    /// Queue a report request for the backend; a failure is ignored.
    PushReportRequest(ReportRequest),
    /// Print a line on the standard output.
    Print(String),
}

pub enum ActionView {
    AnswerCallback,
    LookUpText(TextView),
    SendText { chat_id: i64, text: TextView },
    SendTextUnchecked { chat_id: i64, text: TextView },
    SendWithButtons { chat_id: i64, text: TextView, buttons: Seq<ButtonView> },
    EditMessage { chat_id: i64, message_id: i32, text: TextView },
    EditInlineMessage { inline_message_id: Seq<char>, text: TextView },
    SaveUser(UserRecordView),
    SetState(StateView),
    ExitDialogue,
    SendDocument {
        chat_id: i64,
        file_name: Seq<char>,
        content: Seq<u8>,
        caption: TextView,
        buttons: Seq<ButtonView>,
    },
    PushReportRequest(ReportRequestView),
    Print(Seq<char>),
}

impl DeepView for Action {
    type V = ActionView;

    open spec fn deep_view(&self) -> ActionView {
        match self {
            Action::AnswerCallback => ActionView::AnswerCallback,
            Action::LookUpText(t) => ActionView::LookUpText(t.deep_view()),
            Action::SendText { chat_id, text } => ActionView::SendText {
                chat_id: *chat_id,
                text: text.deep_view(),
            },
            Action::SendTextUnchecked { chat_id, text } => ActionView::SendTextUnchecked {
                chat_id: *chat_id,
                text: text.deep_view(),
            },
            Action::SendWithButtons { chat_id, text, buttons } => ActionView::SendWithButtons {
                chat_id: *chat_id,
                text: text.deep_view(),
                buttons: buttons.deep_view(),
            },
            Action::EditMessage { chat_id, message_id, text } => ActionView::EditMessage {
                chat_id: *chat_id,
                message_id: *message_id,
                text: text.deep_view(),
            },
            Action::EditInlineMessage { inline_message_id, text } =>
                ActionView::EditInlineMessage {
                inline_message_id: inline_message_id@,
                text: text.deep_view(),
            },
            Action::SaveUser(u) => ActionView::SaveUser(u.deep_view()),
            Action::SetState(s) => ActionView::SetState(s.deep_view()),
            Action::ExitDialogue => ActionView::ExitDialogue,
            Action::SendDocument { chat_id, file_name, content, caption, buttons } =>
                ActionView::SendDocument {
                chat_id: *chat_id,
                file_name: file_name@,
                content: content@,
                caption: caption.deep_view(),
                buttons: buttons.deep_view(),
            },
            Action::PushReportRequest(r) => ActionView::PushReportRequest(r.deep_view()),
            Action::Print(t) => ActionView::Print(t@),
        }
    }
}

/// Why a handler stops where the bot would panic: after the plan's actions
/// the handling fails.
#[derive(Clone, Copy, Debug, PartialEq, Eq, Structural)]
pub enum Fault {
    /// The user has no language code.
    MissingLanguage,
    /// A photo without any size.
    EmptyPhoto,
    /// No stored user matches the employer's name.
    EmployerNotFound,
    /// The callback data is not a report id.
    InvalidReportId,
    /// No report waits under the id.
    UnknownReport,
    /// The report's PDF is not valid base64.
    InvalidPdf,
    /// A chat id is not a decimal `i64`.
    InvalidChatId,
}

/// The actions of a handler, in order, and the fault that ends it, if any.
#[derive(Clone, Debug)]
pub struct Plan {
    pub actions: Vec<Action>,
    pub fault: Option<Fault>,
}

pub struct PlanView {
    pub actions: Seq<ActionView>,
    pub fault: Option<Fault>,
}

impl DeepView for Plan {
    type V = PlanView;

    open spec fn deep_view(&self) -> PlanView {
        PlanView { actions: self.actions.deep_view(), fault: self.fault }
    }
}

/// An employee collecting `medias` for `employer`.
pub open spec fn collecting(employer: Seq<char>, medias: Seq<MediaView>) -> StateView {
    StateView::EmployeeWaitingMedia { employer, medias }
}

/// The dialogue state that a chat has after the actions of a plan: the last
/// state stored, the start after the dialogue is left, the old one otherwise.
pub open spec fn state_after(state: StateView, actions: Seq<ActionView>) -> StateView
    decreases actions.len(),
{
    if actions.len() == 0 {
        state
    } else {
        let before = state_after(state, actions.drop_last());
        match actions.last() {
            ActionView::SetState(s) => s,
            ActionView::ExitDialogue => StateView::Start,
            _ => before,
        }
    }
}

} // verus!
