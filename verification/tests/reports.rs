use balto_bot::dialogue::{Action, Fault, State, Text};
use balto_bot::handlers::callback_document_handler;
use balto_bot::report::{deliver_report, register_report, ModelMessage, PendingReports};
use balto_bot::route::IncomingCallback;

fn report(employee: &str, employer: &str, pdf: &str) -> ModelMessage {
    ModelMessage {
        employer: employer.to_string(),
        employee: employee.to_string(),
        title: "Weekly".to_string(),
        report: "All good".to_string(),
        keypoints: "k".to_string(),
        translated_title: "Settimanale".to_string(),
        translated_report: "Tutto bene".to_string(),
        translated_keypoints: "k".to_string(),
        images: vec![],
        accuracy: "0.9".to_string(),
        pdf: pdf.to_string(),
    }
}

fn confirm(data: &str) -> IncomingCallback {
    IncomingCallback {
        data: Some(data.to_string()),
        from_id: 1,
        first_name: "E".to_string(),
        last_name: None,
        language_code: Some("en".to_string()),
        message: Some((42, 3)),
        inline_message_id: None,
    }
}

const ID: u128 = 0x0011_2233_4455_6677_8899_aabb_ccdd_eeff;

#[test]
fn a_report_is_delivered_with_a_confirmation_button() {
    let mut reports = PendingReports::new();
    let p = register_report(&mut reports, report("42", "77", "JVBERg=="), ID);
    assert!(p.fault.is_none());
    assert_eq!(p.actions.len(), 2);
    assert!(matches!(&p.actions[0], Action::Print(e) if e == "42"));
    match &p.actions[1] {
        Action::SendDocument { chat_id, file_name, content, caption, buttons } => {
            assert_eq!(*chat_id, 42);
            assert_eq!(file_name, "Weekly.pdf");
            assert_eq!(content, b"%PDF");
            assert!(matches!(caption, Text::SummaryGenerated { report } if report == "All good"));
            assert_eq!(buttons.len(), 1);
            assert!(matches!(buttons[0].text, Text::SendButton));
            assert_eq!(buttons[0].data, "00112233-4455-6677-8899-aabbccddeeff");
        }
        other => panic!("unexpected {:?}", other),
    }
    assert!(reports.contains(ID));
}

#[test]
fn a_confirmed_report_reaches_the_employer() {
    let mut reports = PendingReports::new();
    let p = register_report(&mut reports, report("42", "-77", "JVBERg=="), ID);
    let data = match &p.actions[1] {
        Action::SendDocument { buttons, .. } => buttons[0].data.clone(),
        other => panic!("unexpected {:?}", other),
    };
    let c = callback_document_handler(&confirm(&data), &mut reports);
    assert!(c.fault.is_none());
    assert!(!reports.contains(ID));
    assert_eq!(c.actions.len(), 5);
    assert!(matches!(c.actions[0], Action::AnswerCallback));
    match &c.actions[1] {
        Action::SendDocument { chat_id, file_name, content, caption, buttons } => {
            assert_eq!(*chat_id, -77);
            assert_eq!(file_name, "Settimanale.pdf");
            assert_eq!(content, b"%PDF");
            assert!(matches!(caption, Text::Plain(t) if t == "New Report"));
            assert!(buttons.is_empty());
        }
        other => panic!("unexpected {:?}", other),
    }
    match &c.actions[2] {
        Action::SetState(State::EmployeeWaitingMedia { employer, medias }) => {
            assert_eq!(employer, "-77");
            assert!(medias.is_empty());
        }
        other => panic!("unexpected {:?}", other),
    }
    assert!(matches!(c.actions[3], Action::LookUpText(Text::ReportSent)));
    assert!(matches!(c.actions[4], Action::EditMessage { chat_id: 42, message_id: 3, text: Text::ReportSent }));
}

#[test]
fn a_report_is_confirmed_once() {
    let mut reports = PendingReports::new();
    register_report(&mut reports, report("42", "77", "JVBERg=="), ID);
    let data = "00112233-4455-6677-8899-aabbccddeeff";
    assert!(callback_document_handler(&confirm(data), &mut reports).fault.is_none());
    let again = callback_document_handler(&confirm(data), &mut reports);
    assert_eq!(again.fault, Some(Fault::UnknownReport));
    assert!(matches!(&again.actions[..], [Action::AnswerCallback]));
}

#[test]
fn other_id_spellings_are_read_too() {
    let mut reports = PendingReports::new();
    register_report(&mut reports, report("42", "77", "JVBERg=="), ID);
    let c = callback_document_handler(&confirm("00112233445566778899AABBCCDDEEFF"), &mut reports);
    assert!(c.fault.is_none());
    assert!(!reports.contains(ID));
}

#[test]
fn a_confirmation_needs_a_report_id() {
    let mut reports = PendingReports::new();
    register_report(&mut reports, report("42", "77", "JVBERg=="), ID);
    let c = callback_document_handler(&confirm("employee"), &mut reports);
    assert_eq!(c.fault, Some(Fault::InvalidReportId));
    assert!(reports.contains(ID));
    let mut none = confirm("x");
    none.data = None;
    let c = callback_document_handler(&none, &mut reports);
    assert!(c.fault.is_none());
    assert!(matches!(&c.actions[..], [Action::AnswerCallback]));
    assert!(reports.contains(ID));
}

#[test]
fn a_report_with_a_bad_employer_is_taken_out_and_fails() {
    let mut reports = PendingReports::new();
    reports.insert(ID, report("42", "not-a-chat", "JVBERg=="));
    let c = callback_document_handler(&confirm("00112233-4455-6677-8899-aabbccddeeff"), &mut reports);
    assert_eq!(c.fault, Some(Fault::InvalidChatId));
    assert!(!reports.contains(ID));
}

#[test]
fn a_waiting_report_with_a_bad_pdf_fails_on_confirmation() {
    let mut reports = PendingReports::new();
    reports.insert(ID, report("42", "77", "***"));
    let c = callback_document_handler(&confirm("00112233-4455-6677-8899-aabbccddeeff"), &mut reports);
    assert_eq!(c.fault, Some(Fault::InvalidPdf));
}

#[test]
fn a_report_with_a_bad_pdf_is_not_kept() {
    let mut reports = PendingReports::new();
    let p = register_report(&mut reports, report("42", "77", "not base64!"), ID);
    assert_eq!(p.fault, Some(Fault::InvalidPdf));
    assert!(p.actions.is_empty());
    assert!(!reports.contains(ID));
}

#[test]
fn a_report_for_a_bad_chat_is_printed_and_not_kept() {
    let mut reports = PendingReports::new();
    let p = register_report(&mut reports, report("12x", "77", "JVBERg=="), ID);
    assert_eq!(p.fault, Some(Fault::InvalidChatId));
    assert!(matches!(&p.actions[..], [Action::Print(e)] if e == "12x"));
    assert!(!reports.contains(ID));
}

#[test]
fn delivered_reports_get_fresh_ids() {
    let mut reports = PendingReports::new();
    let (a, pa) = deliver_report(&mut reports, report("1", "2", "JVBERg=="));
    let (b, _) = deliver_report(&mut reports, report("1", "2", "JVBERg=="));
    assert_ne!(a, b);
    assert!(reports.contains(a) && reports.contains(b));
    let data = match &pa.actions[1] {
        Action::SendDocument { buttons, .. } => buttons[0].data.clone(),
        other => panic!("unexpected {:?}", other),
    };
    assert_eq!(data.len(), 36);
    assert!(callback_document_handler(&confirm(&data), &mut reports).fault.is_none());
    assert!(!reports.contains(a));
    assert!(reports.contains(b));
}

#[test]
fn taking_a_report_gives_back_what_was_kept() {
    let mut reports = PendingReports::new();
    reports.insert(5, report("1", "2", "a"));
    reports.insert(5, report("3", "4", "b"));
    let m = reports.take(5).unwrap();
    assert_eq!(m.employee, "3");
    assert!(reports.take(5).is_none());
}

#[test]
fn forwarding_a_decoded_report() {
    let q = confirm("ignored");
    let p = balto_bot::handlers::forward_report(&q, report("1", "77", "unused"), Some(vec![1, 2, 3]));
    assert!(p.fault.is_none());
    assert_eq!(p.actions.len(), 4);
    assert!(matches!(&p.actions[0], Action::SendDocument { chat_id: 77, content, .. } if content == &vec![1u8, 2, 3]));
    let p = balto_bot::handlers::forward_report(&q, report("1", "77", "unused"), None);
    assert_eq!(p.fault, Some(Fault::InvalidPdf));
    assert!(p.actions.is_empty());
    let p = balto_bot::handlers::forward_report(&q, report("1", "x", "unused"), Some(vec![]));
    assert_eq!(p.fault, Some(Fault::InvalidChatId));
}

#[test]
fn confirming_by_id() {
    let mut reports = PendingReports::new();
    reports.insert(9, report("1", "77", "JVBERg=="));
    let q = confirm("ignored");
    let p = balto_bot::handlers::confirm_report(&q, &mut reports, None);
    assert_eq!(p.fault, Some(Fault::InvalidReportId));
    assert!(reports.contains(9));
    let p = balto_bot::handlers::confirm_report(&q, &mut reports, Some(8));
    assert_eq!(p.fault, Some(Fault::UnknownReport));
    let p = balto_bot::handlers::confirm_report(&q, &mut reports, Some(9));
    assert!(p.fault.is_none());
    assert!(matches!(&p.actions[0], Action::SendDocument { content, .. } if content == b"%PDF"));
    assert!(!reports.contains(9));
}

#[test]
fn delivering_a_decoded_report() {
    let mut reports = PendingReports::new();
    let p = balto_bot::report::deliver_decoded(&mut reports, report("5", "6", "unused"), 1, Some(vec![9]));
    assert!(p.fault.is_none());
    match &p.actions[1] {
        Action::SendDocument { chat_id: 5, content, buttons, .. } => {
            assert_eq!(content, &vec![9u8]);
            assert_eq!(buttons[0].data, "00000000-0000-0000-0000-000000000001");
        }
        other => panic!("unexpected {:?}", other),
    }
    assert!(reports.contains(1));
    let p = balto_bot::report::deliver_decoded(&mut reports, report("5", "6", "unused"), 2, None);
    assert_eq!(p.fault, Some(Fault::InvalidPdf));
    assert!(!reports.contains(2));
}
