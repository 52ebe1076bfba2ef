//! What holds of the bot across its handlers: the command syntax, the routing,
//! the employee's dialogue cycle and the round trip of a report.
use crate::codec::{base64_decoded, uuid_parsed};
use crate::command::{
    addressed_bot, command_name, command_named, command_text, command_word, parse_command,
    Command, CommandParseErrorView,
};
use crate::dialogue::{collecting, state_after, ActionView, MediaView, State, StateView, TextView};
use crate::codec::uuid_text;
use crate::dialogue::{ButtonView, ChatMessageView, Fault, UserRecordView};
use crate::handlers::{
    confirm_plan, done, edit_actions, employers_listing, full_name, media_added_plan,
    photos_have_sizes, report_request, reports_after_confirm, reset_plan, role_choice_plan,
    send_media_plan, user_with_role, waiting_employer_plan,
};
use crate::report::{decoded_delivery_plan, pdf_name, ModelMessage};
use crate::route::{message_command, message_route, IncomingCallback, IncomingMessage, MessageRoute};
use crate::text::{
    all_digits, decimal_i64, decimal_int, decimal_nat, digit_char, digit_of, digits_value,
    is_digit, lemma_first_index, same_ignoring_ascii_case,
};
use vstd::prelude::*;

verus! {

// ---------------------------------------------------------------- numbers

/// The decimal text of a natural number is a nonempty run of digits worth
/// that number.
pub proof fn lemma_decimal_nat(n: nat)
    ensures
        decimal_nat(n).len() > 0,
        all_digits(decimal_nat(n)),
        digits_value(decimal_nat(n)) == n,
    decreases n,
{
    if n >= 10 {
        lemma_decimal_nat(n / 10);
        let s = decimal_nat(n);
        assert(s.drop_last() =~= decimal_nat(n / 10));
        assert(s.last() == digit_char(n % 10));
        assert(digit_of(digit_char(n % 10)) == n % 10);
        vstd::arithmetic::div_mod::lemma_fundamental_div_mod(n as int, 10);
        assert(digits_value(s) == digits_value(decimal_nat(n / 10)) * 10 + n % 10);
        assert(all_digits(s)) by {
            assert forall|i: int| 0 <= i < s.len() implies is_digit(#[trigger] s[i]) by {
                if i < s.len() - 1 {
                    assert(s[i] == decimal_nat(n / 10)[i]);
                }
            }
        }
    } else {
        let s = decimal_nat(n);
        assert(s.drop_last() =~= Seq::<char>::empty());
        assert(digit_of(digit_char(n)) == n);
        assert(digits_value(s.drop_last()) == 0);
    }
}

/// Reading back the decimal text of an `i64` gives the number: a chat id that
/// the bot writes out is the chat id that it reads back.
pub proof fn lemma_decimal_round_trip(n: i64)
    ensures
        decimal_i64(decimal_int(n as int)) == Some(n),
{
    if n < 0 {
        let m = (-n) as nat;
        lemma_decimal_nat(m);
        let s = decimal_int(n as int);
        assert(s.drop_first() =~= decimal_nat(m));
    } else {
        lemma_decimal_nat(n as nat);
        let s = decimal_nat(n as nat);
        assert(is_digit(s[0]));
    }
}

// ---------------------------------------------------------------- commands

/// The invoking text of every command has neither a space nor an `@`.
proof fn lemma_command_text_plain(c: Command)
    ensures
        forall|i: int|
            0 <= i < command_text(c).len() ==> command_text(c)[i] != ' ' && command_text(c)[i]
                != '@',
        command_named(command_text(c)) == Some(c),
{
    reveal_strlit("/help");
    reveal_strlit("/start");
    reveal_strlit("/reset");
    reveal_strlit("/send");
    reveal_strlit("/employers");
    assert("/start"@[1] != "/help"@[1]);
    assert("/reset"@[1] != "/help"@[1]);
    assert("/reset"@[1] != "/start"@[1]);
    assert("/send"@[1] != "/help"@[1]);
    assert("/employers"@.len() != "/help"@.len());
    assert("/employers"@.len() != "/start"@.len());
    assert("/employers"@.len() != "/reset"@.len());
    assert("/employers"@.len() != "/send"@.len());
    assert("/send"@.len() != "/start"@.len());
    assert("/send"@.len() != "/reset"@.len());
}

/// A command's text is read as that command, whether it stands alone or is
/// followed by a space and arguments, for any bot.
pub proof fn lemma_command_parses(c: Command, args: Seq<char>, bot_name: Seq<char>)
    ensures
        parse_command(command_text(c), bot_name) == Ok::<Command, CommandParseErrorView>(c),
        parse_command(command_text(c) + " "@ + args, bot_name) == Ok::<Command, CommandParseErrorView>(c),
{
    reveal_strlit(" ");
    lemma_command_text_plain(c);
    let t = command_text(c);
    lemma_first_index(t, ' ', t.len() as int);
    assert(t.take(t.len() as int) =~= t);
    lemma_first_index(t, '@', t.len() as int);
    let u = t + " "@ + args;
    lemma_first_index(u, ' ', t.len() as int);
    assert(u.take(t.len() as int) =~= t);
}

/// A command addressed to the bot by its name (in any ASCII case) is read as
/// that command.
pub proof fn lemma_addressed_command_parses(c: Command, addressed: Seq<char>, bot_name: Seq<char>)
    requires
        same_ignoring_ascii_case(addressed, bot_name),
        forall|i: int| 0 <= i < addressed.len() ==> addressed[i] != ' ' && addressed[i] != '@',
    ensures
        parse_command(command_text(c) + "@"@ + addressed, bot_name) == Ok::<Command, CommandParseErrorView>(c),
{
    reveal_strlit("@");
    lemma_command_text_plain(c);
    let t = command_text(c);
    let u = t + "@"@ + addressed;
    lemma_first_index(u, ' ', u.len() as int);
    assert(u.take(u.len() as int) =~= u);
    assert(command_word(u) == u);
    lemma_first_index(u, '@', t.len() as int);
    assert(u.take(t.len() as int) =~= t);
    assert(command_name(u) == t);
    let rest = u.skip(t.len() + 1int);
    assert(rest =~= addressed);
    lemma_first_index(rest, '@', rest.len() as int);
    assert(rest.take(rest.len() as int) =~= rest);
    assert(addressed_bot(u) == Some(addressed));
}

// ---------------------------------------------------------------- routing

/// `/help`, `/reset` and `/employers` reach their handlers in every state.
pub proof fn lemma_global_commands_route(
    state: State,
    msg: IncomingMessage,
    bot_name: Seq<char>,
)
    ensures
        message_command(msg, bot_name) == Some(Command::Help) ==> message_route(
            state,
            msg,
            bot_name,
        ) == Some(MessageRoute::Help),
        message_command(msg, bot_name) == Some(Command::Reset) ==> message_route(
            state,
            msg,
            bot_name,
        ) == Some(MessageRoute::Reset),
        message_command(msg, bot_name) == Some(Command::Employers) ==> message_route(
            state,
            msg,
            bot_name,
        ) == Some(MessageRoute::Employers),
{
}

/// At the start every message reaches a handler.
pub proof fn lemma_start_always_answers(
    state: State,
    msg: IncomingMessage,
    bot_name: Seq<char>,
)
    requires
        state is Start,
    ensures
        message_route(state, msg, bot_name) is Some,
{
}

/// A message reaches a handler only with what that handler reads: a text for
/// the employer's name and for a text media, a photo for a photo media, a
/// voice message for a voice media, and the collection of media for those.
pub proof fn lemma_routes_meet_handler_needs(
    state: State,
    msg: IncomingMessage,
    bot_name: Seq<char>,
)
    ensures
        message_route(state, msg, bot_name) == Some(MessageRoute::WaitingEmployer) ==> msg.text is Some,
        message_route(state, msg, bot_name) == Some(MessageRoute::WaitingText) ==> msg.text is Some
            && state is EmployeeWaitingMedia,
        message_route(state, msg, bot_name) == Some(MessageRoute::WaitingPhoto) ==> msg.photo is Some
            && state is EmployeeWaitingMedia,
        message_route(state, msg, bot_name) == Some(MessageRoute::WaitingVoice) ==> msg.voice is Some
            && state is EmployeeWaitingMedia,
        message_route(state, msg, bot_name) == Some(MessageRoute::SendMedia) ==> state is EmployeeWaitingMedia,
{
}

// ---------------------------------------------------------------- dialogue

/// Actions that store no state and leave no dialogue keep the state.
pub proof fn lemma_state_after_append(state: StateView, xs: Seq<ActionView>, ys: Seq<ActionView>)
    requires
        forall|i: int|
            0 <= i < ys.len() ==> !(#[trigger] ys[i] is SetState) && !(ys[i] is ExitDialogue),
    ensures
        state_after(state, xs + ys) == state_after(state, xs),
    decreases ys.len(),
{
    if ys.len() == 0 {
        assert(xs + ys =~= xs);
    } else {
        let zs = xs + ys;
        assert(zs.drop_last() =~= xs + ys.drop_last());
        assert(zs.last() == ys[ys.len() - 1]);
        lemma_state_after_append(state, xs, ys.drop_last());
    }
}

/// Editing the message of a button changes no state.
proof fn lemma_edit_keeps_state(state: StateView, xs: Seq<ActionView>, q: IncomingCallback, t: TextView)
    ensures
        state_after(state, xs + edit_actions(q, t)) == state_after(state, xs),
{
    lemma_state_after_append(state, xs, edit_actions(q, t));
}

/// After `/reset` a chat is at the start, whatever its state was.
pub proof fn lemma_reset_restarts(state: StateView, chat_id: i64)
    ensures
        state_after(state, reset_plan(chat_id).actions) == StateView::Start,
{
    let a = reset_plan(chat_id).actions;
    assert(a.drop_last() =~= seq![ActionView::LookUpText(TextView::ResetDone), ActionView::ExitDialogue]);
    assert(a.drop_last().drop_last() =~= seq![ActionView::LookUpText(TextView::ResetDone)]);
    assert(state_after(state, a.drop_last()) == StateView::Start);
}

/// Each media that an employee sends is added after the ones before, for the
/// same employer.
pub proof fn lemma_media_accumulate(employer: Seq<char>, medias: Seq<MediaView>, media: MediaView)
    ensures
        state_after(collecting(employer, medias), media_added_plan(collecting(employer, medias), media).actions)
            == collecting(employer, medias.push(media)),
{
    let s = StateView::EmployeeWaitingMedia { employer, medias };
    assert(media_added_plan(s, media).actions.drop_last() =~= Seq::<ActionView>::empty());
}

/// The employee's cycle: choosing the employee role leads to naming the
/// employer; naming them starts an empty collection of media for them;
/// sending the media waits for the report; confirming the report starts an
/// empty collection for the report's employer again.
pub proof fn lemma_employee_cycle(
    q: IncomingCallback,
    chat_id: i64,
    name: Seq<char>,
    medias: Seq<MediaView>,
    language: Seq<char>,
    employer_user: UserRecordView,
    reports: Map<u128, ModelMessage>,
)
    requires
        q.data is Some,
        q.language_code is Some,
    ensures
        q.data->0@ == "employee"@ ==> state_after(StateView::Start, role_choice_plan(q).actions)
            == StateView::EmployeeWaitingEmployer,
        state_after(StateView::EmployeeWaitingEmployer, waiting_employer_plan(chat_id, name).actions)
            == collecting(name, Seq::empty()),
        photos_have_sizes(medias) ==> state_after(
            collecting(name, medias),
            send_media_plan(chat_id, collecting(name, medias), language, Some(employer_user)).actions,
        ) == StateView::EmployeePendingReport,
        confirm_plan(q, reports).fault is None && uuid_parsed(q.data->0@) is Some ==> state_after(
            StateView::EmployeePendingReport,
            confirm_plan(q, reports).actions,
        ) == collecting(reports[uuid_parsed(q.data->0@)->0].employer@, Seq::empty()),
{
    if q.data->0@ == "employee"@ {
        let a = role_choice_plan(q).actions;
        assert(a.drop_last().push(a.last()) =~= a);
    }
    let w = waiting_employer_plan(chat_id, name).actions;
    assert(w.drop_last() =~= seq![w[0]]);
    let s = StateView::EmployeeWaitingMedia { employer: name, medias };
    if photos_have_sizes(medias) {
        let a = send_media_plan(chat_id, s, language, Some(employer_user)).actions;
        assert(a.last() == ActionView::SetState(StateView::EmployeePendingReport));
    }
    if confirm_plan(q, reports).fault is None && uuid_parsed(q.data->0@) is Some {
        let id = uuid_parsed(q.data->0@)->0;
        let m = reports[id];
        let pdf = base64_decoded(m.pdf@)->0;
        let chat = decimal_i64(m.employer@)->0;
        let head = seq![
            ActionView::AnswerCallback,
            ActionView::SendDocument {
                chat_id: chat,
                file_name: pdf_name(m.translated_title@),
                content: pdf,
                caption: TextView::Plain("New Report"@),
                buttons: seq![],
            },
            ActionView::SetState(
                StateView::EmployeeWaitingMedia { employer: m.employer@, medias: seq![] },
            ),
        ];
        assert(confirm_plan(q, reports).actions =~= head + edit_actions(q, TextView::ReportSent));
        lemma_edit_keeps_state(StateView::EmployeePendingReport, head, q, TextView::ReportSent);
        assert(head.drop_last().push(head.last()) =~= head);
    }
}

/// The choice of the employer role, with a language, waits for reports in
/// that language.
pub proof fn lemma_employer_choice(q: IncomingCallback)
    requires
        q.data is Some,
        q.data->0@ == "employer"@,
        q.language_code is Some,
    ensures
        state_after(StateView::Start, role_choice_plan(q).actions) is EmployerWaitingReport,
{
    reveal_strlit("employer");
    reveal_strlit("employee");
    assert(q.data->0@ != "employee"@) by {
        assert("employer"@[7] != "employee"@[7]);
    }
    let head = seq![
        ActionView::AnswerCallback,
        ActionView::SaveUser(user_with_role(q, "employer"@, q.language_code->0@)),
        ActionView::SetState(
            StateView::EmployerWaitingReport {
                lang: q.language_code->0@,
                name: full_name(q.first_name@, q.last_name),
            },
        ),
    ];
    assert(role_choice_plan(q).actions =~= head + edit_actions(q, TextView::NewEmployer));
    lemma_edit_keeps_state(StateView::Start, head, q, TextView::NewEmployer);
    assert(head.drop_last().push(head.last()) =~= head);
}

// ---------------------------------------------------------------- reports

/// A report delivered under `id` and then confirmed with a button whose data
/// reads as `id` (as the delivered button's data does) is sent to its
/// employer: its PDF, named after its translated title; it no longer waits,
/// and the employee collects media for that employer again.
pub proof fn lemma_confirmed_report_reaches_employer(
    reports: Map<u128, ModelMessage>,
    message: ModelMessage,
    id: u128,
    q: IncomingCallback,
)
    requires
        base64_decoded(message.pdf@) is Some,
        decimal_i64(message.employer@) is Some,
        q.data is Some,
        uuid_parsed(q.data->0@) == Some(id),
    ensures
        ({
            let kept = reports.insert(id, message);
            &&& confirm_plan(q, kept) == done(
                seq![
                    ActionView::AnswerCallback,
                    ActionView::SendDocument {
                        chat_id: decimal_i64(message.employer@)->0,
                        file_name: pdf_name(message.translated_title@),
                        content: base64_decoded(message.pdf@)->0,
                        caption: TextView::Plain("New Report"@),
                        buttons: seq![],
                    },
                    ActionView::SetState(collecting(message.employer@, seq![])),
                ] + edit_actions(q, TextView::ReportSent),
            )
            &&& reports_after_confirm(q, kept) == reports.remove(id)
        }),
{
    let kept = reports.insert(id, message);
    assert(kept.contains_key(id));
    assert(kept[id] == message);
    assert(kept.remove(id) =~= reports.remove(id));
    let head = seq![
        ActionView::AnswerCallback,
        ActionView::SendDocument {
            chat_id: decimal_i64(message.employer@)->0,
            file_name: pdf_name(message.translated_title@),
            content: base64_decoded(message.pdf@)->0,
            caption: TextView::Plain("New Report"@),
            buttons: seq![],
        },
        ActionView::SetState(collecting(message.employer@, seq![])),
    ];
    assert(confirm_plan(q, kept).actions =~= head + edit_actions(q, TextView::ReportSent));
}

/// A confirmation whose button names no waiting report changes no waiting
/// report and sends nothing beyond the answer.
pub proof fn lemma_unknown_confirmation(reports: Map<u128, ModelMessage>, q: IncomingCallback)
    requires
        q.data is Some,
        uuid_parsed(q.data->0@) is None || !reports.contains_key(uuid_parsed(q.data->0@)->0),
    ensures
        confirm_plan(q, reports).actions == seq![ActionView::AnswerCallback],
        confirm_plan(q, reports).fault is Some,
        reports_after_confirm(q, reports) == reports,
{
    if uuid_parsed(q.data->0@) is Some {
        let id = uuid_parsed(q.data->0@)->0;
        assert(reports.remove(id) =~= reports);
    }
}

/// The report request names the employee by the chat's decimal id, which
/// reads back as that chat id.
pub proof fn lemma_request_names_employee(
    chat_id: i64,
    employer: Seq<char>,
    medias: Seq<MediaView>,
    employee_language: Seq<char>,
    employer_language: Seq<char>,
)
    ensures
        decimal_i64(
            report_request(chat_id, employer, medias, employee_language, employer_language).employee,
        ) == Some(chat_id),
{
    lemma_decimal_round_trip(chat_id);
}

// ---------------------------------------------------------------- audited results

/// The employers' listing has one line per name, in order: no name, no text;
/// one name, that name in code type; one more name, one more line after a
/// line break.
pub proof fn lemma_listing_one_line_per_name(names: Seq<Seq<char>>, x: Seq<char>)
    ensures
        employers_listing(Seq::<Seq<char>>::empty()) == Seq::<char>::empty(),
        employers_listing(seq![x]) == "<code>"@ + x + "</code>"@,
        names.len() > 0 ==> employers_listing(names.push(x)) == employers_listing(names) + "\n"@
            + ("<code>"@ + x + "</code>"@),
{
    let ys = names.push(x);
    assert(ys.drop_last() =~= names);
    assert(ys.last() == x);
}

/// The request for a report carries every collected media, in order and whole:
/// a text as its text, a voice message as its file id, a photo as the file id
/// of its last (largest) size; it names the employee by the chat id, the
/// employer as stored and the two languages.
pub proof fn lemma_request_carries_every_media(
    chat_id: i64,
    employer: Seq<char>,
    medias: Seq<MediaView>,
    employee_language: Seq<char>,
    employer_user: UserRecordView,
)
    requires
        photos_have_sizes(medias),
    ensures
        ({
            let p = send_media_plan(chat_id, collecting(employer, medias), employee_language, Some(employer_user));
            &&& p.fault is None
            &&& p.actions.len() == 3
            &&& match p.actions[1] {
                ActionView::PushReportRequest(r) => {
                    &&& decimal_i64(r.employee) == Some(chat_id)
                    &&& r.employer == employer
                    &&& r.employee_language == employee_language
                    &&& r.employer_language == employer_user.lang
                    &&& r.chat_messages.len() == medias.len()
                    &&& forall|i: int|
                        0 <= i < medias.len() ==> match #[trigger] medias[i] {
                            MediaView::Text(t) => r.chat_messages[i] == ChatMessageView {
                                kind: "text"@,
                                content: t,
                            },
                            MediaView::Voice(v) => r.chat_messages[i] == ChatMessageView {
                                kind: "audio"@,
                                content: v,
                            },
                            MediaView::Photo(sizes) => r.chat_messages[i] == ChatMessageView {
                                kind: "image"@,
                                content: sizes[sizes.len() - 1],
                            },
                        }
                }
                _ => false,
            }
        }),
{
    lemma_decimal_round_trip(chat_id);
}

/// The user who chooses a role is stored under their decimal id with their
/// full name (the first name, then a space and the last name where there is
/// one), the role pressed and their language; an employer then waits for
/// reports under that full name, an employee names their employer.
pub proof fn lemma_role_choice_keeps_full_name(q: IncomingCallback)
    requires
        q.data is Some,
        q.data->0@ == "employer"@ || q.data->0@ == "employee"@,
        q.language_code is Some,
    ensures
        ({
            let name = match q.last_name {
                Some(l) => q.first_name@ + " "@ + l@,
                None => q.first_name@,
            };
            let lang = q.language_code->0@;
            let p = role_choice_plan(q);
            &&& p.fault is None
            &&& p.actions[0] == ActionView::AnswerCallback
            &&& p.actions[1] == ActionView::SaveUser(
                UserRecordView { id: decimal_nat(q.from_id as nat), full_name: name, role: q.data->0@, lang },
            )
            &&& q.data->0@ == "employer"@ ==> state_after(StateView::Start, p.actions)
                == (StateView::EmployerWaitingReport { lang, name })
            &&& q.data->0@ == "employee"@ ==> state_after(StateView::Start, p.actions)
                == StateView::EmployeeWaitingEmployer
        }),
{
    reveal_strlit("employer");
    reveal_strlit("employee");
    assert("employer"@ != "employee"@) by {
        assert("employer"@[7] != "employee"@[7]);
    }
    if q.data->0@ == "employer"@ {
        lemma_employer_choice(q);
        let head = seq![
            ActionView::AnswerCallback,
            ActionView::SaveUser(user_with_role(q, "employer"@, q.language_code->0@)),
            ActionView::SetState(
                StateView::EmployerWaitingReport {
                    lang: q.language_code->0@,
                    name: full_name(q.first_name@, q.last_name),
                },
            ),
        ];
        assert(role_choice_plan(q).actions =~= head + edit_actions(q, TextView::NewEmployer));
        lemma_state_after_append(StateView::Start, head, edit_actions(q, TextView::NewEmployer));
        assert(head.drop_last().push(head.last()) =~= head);
    } else {
        let a = role_choice_plan(q).actions;
        assert(a.drop_last().push(a.last()) =~= a);
    }
}

/// A report that can be delivered is sent to the employee's chat as a PDF
/// named after its title, with the whole summary as caption and one button
/// whose data is the id's text; the employee is printed first.
pub proof fn lemma_delivery_sends_whole_report(message: ModelMessage, id: u128, pdf: Seq<u8>)
    requires
        decimal_i64(message.employee@) is Some,
    ensures
        decoded_delivery_plan(message, id, Some(pdf)) == done(
            seq![
                ActionView::Print(message.employee@),
                ActionView::SendDocument {
                    chat_id: decimal_i64(message.employee@)->0,
                    file_name: message.title@ + ".pdf"@,
                    content: pdf,
                    caption: TextView::SummaryGenerated { report: message.report@ },
                    buttons: seq![ButtonView { text: TextView::SendButton, data: uuid_text(id) }],
                },
            ],
        ),
        decoded_delivery_plan(message, id, None::<Seq<u8>>).fault == Some(Fault::InvalidPdf),
{
}

/// A command addressed to a bot whose name differs from the bot's (ignoring
/// ASCII case) is refused with that name, whatever follows it.
pub proof fn lemma_other_bot_refused(
    name: Seq<char>,
    addressed: Seq<char>,
    args: Seq<char>,
    bot_name: Seq<char>,
)
    requires
        forall|i: int| 0 <= i < name.len() ==> name[i] != ' ' && name[i] != '@',
        forall|i: int| 0 <= i < addressed.len() ==> addressed[i] != ' ' && addressed[i] != '@',
        !same_ignoring_ascii_case(addressed, bot_name),
    ensures
        parse_command(name + "@"@ + addressed, bot_name) == Err::<Command, CommandParseErrorView>(
            CommandParseErrorView::WrongBotName(addressed),
        ),
        parse_command(name + "@"@ + addressed + " "@ + args, bot_name) == Err::<
            Command,
            CommandParseErrorView,
        >(CommandParseErrorView::WrongBotName(addressed)),
{
    lemma_addressed_word(name, addressed, Seq::empty(), false);
    lemma_addressed_word(name, addressed, args, true);
    assert(name + "@"@ + addressed + Seq::<char>::empty() =~= name + "@"@ + addressed);
}

/// A command addressed to the bot by its name (in any ASCII case) is read as
/// that command, whatever arguments follow it.
pub proof fn lemma_addressed_command_with_arguments(
    c: Command,
    addressed: Seq<char>,
    args: Seq<char>,
    bot_name: Seq<char>,
)
    requires
        same_ignoring_ascii_case(addressed, bot_name),
        forall|i: int| 0 <= i < addressed.len() ==> addressed[i] != ' ' && addressed[i] != '@',
    ensures
        parse_command(command_text(c) + "@"@ + addressed + " "@ + args, bot_name) == Ok::<
            Command,
            CommandParseErrorView,
        >(c),
{
    lemma_command_text_plain(c);
    lemma_addressed_word(command_text(c), addressed, args, true);
}

/// How a first word `name@addressed`, alone or followed by a space and
/// arguments, splits into the command name and the addressed bot.
proof fn lemma_addressed_word(name: Seq<char>, addressed: Seq<char>, args: Seq<char>, with_args: bool)
    requires
        forall|i: int| 0 <= i < name.len() ==> name[i] != ' ' && name[i] != '@',
        forall|i: int| 0 <= i < addressed.len() ==> addressed[i] != ' ' && addressed[i] != '@',
    ensures
        ({
            let text = if with_args {
                name + "@"@ + addressed + " "@ + args
            } else {
                name + "@"@ + addressed + Seq::<char>::empty()
            };
            &&& command_name(text) == name
            &&& addressed_bot(text) == Some(addressed)
        }),
{
    reveal_strlit("@");
    reveal_strlit(" ");
    let w = name + "@"@ + addressed;
    let text = if with_args {
        w + " "@ + args
    } else {
        w + Seq::<char>::empty()
    };
    lemma_first_index(text, ' ', w.len() as int);
    assert(text.take(w.len() as int) =~= w);
    assert(command_word(text) == w);
    lemma_first_index(w, '@', name.len() as int);
    assert(w.take(name.len() as int) =~= name);
    let rest = w.skip(name.len() + 1int);
    assert(rest =~= addressed);
    lemma_first_index(rest, '@', rest.len() as int);
    assert(rest.take(rest.len() as int) =~= rest);
}

} // verus!
