//! Reports that the backend generated: how one is delivered to the employee,
//! and how it waits, under a fresh id, until the employee confirms it.
use crate::codec::{
    base64_decoded, decode_base64, new_report_id, report_id_text, uuid_parsed, uuid_text,
};
use crate::dialogue::{Action, ActionView, Button, ButtonView, Fault, Plan, PlanView, Text, TextView};
use crate::text::{decimal_i64, parse_i64};
use std::collections::HashMap;
use vstd::prelude::*;

verus! {

broadcast use vstd::std_specs::hash::group_hash_axioms;

/// A report as the backend sends it.
#[derive(Clone, Debug)]
pub struct ModelMessage {
    /// The employer's chat id, in decimal.
    pub employer: String,
    /// The employee's chat id, in decimal.
    pub employee: String,
    pub title: String,
    pub report: String,
    pub keypoints: String,
    pub translated_title: String,
    pub translated_report: String,
    pub translated_keypoints: String,
    pub images: Vec<String>,
    pub accuracy: String,
    /// The report as a PDF, in standard base64.
    pub pdf: String,
}

/// The reports that wait for the employee's confirmation, by id.
pub struct PendingReports {
    reports: HashMap<u128, ModelMessage>,
}

impl View for PendingReports {
    type V = Map<u128, ModelMessage>;

    closed spec fn view(&self) -> Map<u128, ModelMessage> {
        self.reports@
    }
}

impl PendingReports {
    /// No report waits.
    pub fn new() -> (r: PendingReports)
        ensures
            r@ == Map::<u128, ModelMessage>::empty(),
    {
        PendingReports { reports: HashMap::new() }
    }

    /// Keeps `report` under `id`, replacing what was kept there.
    pub fn insert(&mut self, id: u128, report: ModelMessage)
        ensures
            final(self)@ == old(self)@.insert(id, report),
    {
        self.reports.insert(id, report);
    }

    /// Takes out the report kept under `id`.
    pub fn take(&mut self, id: u128) -> (r: Option<ModelMessage>)
        ensures
            final(self)@ == old(self)@.remove(id),
            match r {
                Some(m) => old(self)@.contains_key(id) && old(self)@[id] == m,
                None => !old(self)@.contains_key(id),
            },
    {
        self.reports.remove(&id)
    }

    /// Whether a report waits under `id`.
    pub fn contains(&self, id: u128) -> (r: bool)
        ensures
            r == self@.contains_key(id),
    {
        self.reports.contains_key(&id)
    }
}

/// The name of the PDF file of a report with title `title`.
pub open spec fn pdf_name(title: Seq<char>) -> Seq<char> {
    title + ".pdf"@
}

/// A report can be delivered: its PDF decodes and its employee is a chat id.
pub open spec fn deliverable(message: ModelMessage) -> bool {
    base64_decoded(message.pdf@) is Some && decimal_i64(message.employee@) is Some
}

/// What delivering `message` under `id` does once its PDF is decoded (`pdf`,
/// `None` where it does not decode): print the employee, read the employee's
/// chat id, then send the PDF to that chat with the summary as caption and one
/// button that carries the id.
pub open spec fn decoded_delivery_plan(message: ModelMessage, id: u128, pdf: Option<Seq<u8>>) -> PlanView {
    match pdf {
        None => PlanView { actions: seq![], fault: Some(Fault::InvalidPdf) },
        Some(pdf) => match decimal_i64(message.employee@) {
            None => PlanView {
                actions: seq![ActionView::Print(message.employee@)],
                fault: Some(Fault::InvalidChatId),
            },
            Some(chat) => PlanView {
                actions: seq![
                    ActionView::Print(message.employee@),
                    ActionView::SendDocument {
                        chat_id: chat,
                        file_name: pdf_name(message.title@),
                        content: pdf,
                        caption: TextView::SummaryGenerated { report: message.report@ },
                        buttons: seq![ButtonView { text: TextView::SendButton, data: uuid_text(id) }],
                    },
                ],
                fault: None,
            },
        },
    }
}

/// What delivering `message` under `id` does: decode its PDF, then as
/// `decoded_delivery_plan`.
pub open spec fn delivery_plan(message: ModelMessage, id: u128) -> PlanView {
    decoded_delivery_plan(message, id, base64_decoded(message.pdf@))
}

/// Appends a text to a copy of a `String`.
pub fn concat_text(s: &String, suffix: &str) -> (r: String)
    ensures
        r@ == s@ + suffix@,
{
    let mut out = s.clone();
    out.append(suffix);
    out
}

/// Delivers `message` under `id` once its PDF is decoded (`pdf`): it is kept
/// under `id` when it can be delivered, and the plan sends it with a
/// confirmation button whose data reads back as `id`.
pub fn deliver_decoded(
    reports: &mut PendingReports,
    message: ModelMessage,
    id: u128,
    pdf: Option<Vec<u8>>,
) -> (r: Plan)
    ensures
        r.deep_view() == decoded_delivery_plan(
            message,
            id,
            match pdf {
                Some(p) => Some(p@),
                None => None,
            },
        ),
        final(reports)@ == if pdf is Some && decimal_i64(message.employee@) is Some {
            old(reports)@.insert(id, message)
        } else {
            old(reports)@
        },
        r.fault is None ==> match r.actions@[1] {
            Action::SendDocument { buttons, .. } => uuid_parsed(buttons@[0].data@) == Some(id),
            _ => false,
        },
{
    if pdf.is_none() {
        let r = Plan { actions: Vec::new(), fault: Some(Fault::InvalidPdf) };
        assert(r.deep_view().actions =~= seq![]);
        return r;
    }
    let pdf = pdf.unwrap();
    let print = Action::Print(message.employee.clone());
    let chat = parse_i64(message.employee.as_str());
    if chat.is_none() {
        let r = Plan { actions: vec![print], fault: Some(Fault::InvalidChatId) };
        assert(r.deep_view().actions =~= seq![ActionView::Print(message.employee@)]);
        return r;
    }
    let chat = chat.unwrap();
    let file_name = concat_text(&message.title, ".pdf");
    let caption = Text::SummaryGenerated { report: message.report.clone() };
    let data = report_id_text(id);
    let button = Button { text: Text::SendButton, data };
    let buttons = vec![button];
    assert(buttons.deep_view() =~= seq![ButtonView { text: TextView::SendButton, data: uuid_text(id) }]);
    let ghost pdf_view = pdf@;
    reports.insert(id, message);
    let send = Action::SendDocument { chat_id: chat, file_name, content: pdf, caption, buttons };
    let r = Plan { actions: vec![print, send], fault: None };
    assert(r.deep_view().actions =~= decoded_delivery_plan(message, id, Some(pdf_view)).actions);
    r
}

/// Delivers `message` to its employee under `id`: it is kept under `id` when
/// it can be delivered, and the plan sends it with a confirmation button whose
/// data reads back as `id`.
pub fn register_report(reports: &mut PendingReports, message: ModelMessage, id: u128) -> (r: Plan)
    ensures
        r.deep_view() == delivery_plan(message, id),
        final(reports)@ == if deliverable(message) {
            old(reports)@.insert(id, message)
        } else {
            old(reports)@
        },
        r.fault is None ==> match r.actions@[1] {
            Action::SendDocument { buttons, .. } => uuid_parsed(buttons@[0].data@) == Some(id),
            _ => false,
        },
{
    let pdf = decode_base64(message.pdf.as_str());
    deliver_decoded(reports, message, id, pdf)
}

/// Delivers a report that the backend sent, under a fresh random id, which it
/// returns with the plan.
pub fn deliver_report(reports: &mut PendingReports, message: ModelMessage) -> (r: (u128, Plan))
    ensures
        r.1.deep_view() == delivery_plan(message, r.0),
        final(reports)@ == if deliverable(message) {
            old(reports)@.insert(r.0, message)
        } else {
            old(reports)@
        },
        r.1.fault is None ==> match r.1.actions@[1] {
            Action::SendDocument { buttons, .. } => uuid_parsed(buttons@[0].data@) == Some(r.0),
            _ => false,
        },
{
    let id = new_report_id();
    let plan = register_report(reports, message, id);
    (id, plan)
}

} // verus!
