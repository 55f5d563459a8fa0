//! What came of the one delivery of a message, and the words that report it.

use crate::status::{code_digits, status_display, success_code, RemoteStatus};
use crate::text::{contains_text, has_prefix, occurs_at};
use vstd::prelude::*;
use vstd::string::*;

verus! {

/// What came of a delivery, as the one who made the call saw it.
#[derive(Clone, Debug)]
pub enum Delivery {
    /// The call could not be completed; `detail` says why.
    Failed { detail: String },
    /// The messaging service answered with `status` and `body`.
    Answered { status: RemoteStatus, body: String },
}

/// A delivery as texts and a number.
pub enum DeliveryView {
    Failed { detail: Seq<char> },
    Answered { status: u16, body: Seq<char> },
}

impl View for Delivery {
    type V = DeliveryView;

    open spec fn view(&self) -> DeliveryView {
        match self {
            Delivery::Failed { detail } => DeliveryView::Failed { detail: detail@ },
            Delivery::Answered { status, body } => DeliveryView::Answered {
                status: status@,
                body: body@,
            },
        }
    }
}

/// The three ways in which a delivery can end.
#[derive(Clone, Copy, Debug, PartialEq, Eq, Structural)]
pub enum Outcome {
    /// The call could not be completed.
    TransportError,
    /// The service answered, and not with a success.
    BadStatus,
    /// The service took the message.
    Sent,
}

/// The report of a message that was taken.
pub open spec fn success_report() -> Seq<char> {
    "Success"@
}

/// The report of a call that could not be completed for the reason `detail`.
pub open spec fn transport_report(detail: Seq<char>) -> Seq<char> {
    "Failed to send message to Telegram.\nError: `"@ + detail + "`"@
}

/// The report of an answer that is no success, where `status_line` is how
/// its status prints and `body` is its body.
pub open spec fn answer_report(status_line: Seq<char>, body: Seq<char>) -> Seq<char> {
    "Failed to send message to Telegram.\nStatus: `"@ + status_line + "`\nBody: `"@ + body + "`"@
}

/// The way in which a delivery ended.
pub open spec fn outcome_of(delivery: DeliveryView) -> Outcome {
    match delivery {
        DeliveryView::Failed { .. } => Outcome::TransportError,
        DeliveryView::Answered { status, .. } => if success_code(status) {
            Outcome::Sent
        } else {
            Outcome::BadStatus
        },
    }
}

/// The words that report a delivery.
pub open spec fn report_of(delivery: DeliveryView) -> Seq<char> {
    match delivery {
        DeliveryView::Failed { detail } => transport_report(detail),
        DeliveryView::Answered { status, body } => if success_code(status) {
            success_report()
        } else {
            answer_report(status_display(status), body)
        },
    }
}

/// Writes the report of a call that could not be completed for the reason
/// `detail`.
pub fn write_transport_report(detail: &str) -> (text: String)
    ensures
        text@ == transport_report(detail@),
{
    let mut text = String::from_str("Failed to send message to Telegram.\nError: `");
    text.append(detail);
    text.append("`");
    text
}

/// Writes the report of an answer that is no success from the printed status
/// and the body.
pub fn write_answer_report(status_line: &str, body: &str) -> (text: String)
    ensures
        text@ == answer_report(status_line@, body@),
{
    let mut text = String::from_str("Failed to send message to Telegram.\nStatus: `");
    text.append(status_line);
    text.append("`\nBody: `");
    text.append(body);
    text.append("`");
    text
}

impl Delivery {
    /// Sorts this delivery into one of the three outcomes.
    pub fn outcome(&self) -> (outcome: Outcome)
        ensures
            outcome == outcome_of(self@),
    {
        match self {
            Delivery::Failed { .. } => Outcome::TransportError,
            Delivery::Answered { status, .. } => if status.is_success() {
                Outcome::Sent
            } else {
                Outcome::BadStatus
            },
        }
    }

    /// Writes the words that report this delivery. They are never empty, and
    /// where the service answered without success they hold the three digits
    /// of its code.
    pub fn report(&self) -> (text: String)
        ensures
            text@ == report_of(self@),
            text@.len() > 0,
            outcome_of(self@) == Outcome::BadStatus ==> contains_text(
                text@,
                code_digits(self@->status as int),
            ),
    {
        proof {
            report_never_empty(self@);
        }
        match self {
            Delivery::Failed { detail } => write_transport_report(detail.as_str()),
            Delivery::Answered { status, body } => if status.is_success() {
                String::from_str("Success")
            } else {
                let line = status.display();
                proof {
                    answer_report_holds_code(status@ as int, line@, body@);
                }
                write_answer_report(line.as_str(), body.as_str())
            },
        }
    }
}

/// Whatever came of a delivery, the words that report it are not empty.
pub proof fn report_never_empty(delivery: DeliveryView)
    ensures
        report_of(delivery).len() > 0,
{
    reveal_strlit("Success");
    reveal_strlit("`");
}

/// The report of a call that could not be completed holds the reason.
pub proof fn transport_report_holds_detail(detail: Seq<char>)
    ensures
        contains_text(transport_report(detail), detail),
{
    let head = "Failed to send message to Telegram.\nError: `"@;
    let whole = transport_report(detail);
    let at: int = head.len() as int;
    assert(whole.subrange(at, at + detail.len()) =~= detail);
    assert(occurs_at(whole, detail, at));
}

/// The report of an answer that is no success holds the printed status and
/// the body of the answer.
pub proof fn answer_report_holds_status_and_body(status_line: Seq<char>, body: Seq<char>)
    ensures
        contains_text(answer_report(status_line, body), status_line),
        contains_text(answer_report(status_line, body), body),
{
    let whole = answer_report(status_line, body);
    let first = "Failed to send message to Telegram.\nStatus: `"@;
    let at: int = first.len() as int;
    assert(whole.subrange(at, at + status_line.len()) =~= status_line);
    assert(occurs_at(whole, status_line, at));
    let head = first + status_line + "`\nBody: `"@;
    let to: int = head.len() as int;
    assert(whole.subrange(to, to + body.len()) =~= body);
    assert(occurs_at(whole, body, to));
}

/// Where the printed status begins with the three digits of the code and a
/// space, the report of the answer holds the three digits.
pub proof fn answer_report_holds_code(code: int, status_line: Seq<char>, body: Seq<char>)
    requires
        has_prefix(status_line, code_digits(code).push(' ')),
    ensures
        contains_text(answer_report(status_line, body), code_digits(code)),
{
    let whole = answer_report(status_line, body);
    let digits = code_digits(code);
    let at: int = "Failed to send message to Telegram.\nStatus: `"@.len() as int;
    assert(digits =~= status_line.subrange(0, 4).subrange(0, 3));
    assert(whole.subrange(at, at + 3) =~= digits);
    assert(occurs_at(whole, digits, at));
}

} // verus!
