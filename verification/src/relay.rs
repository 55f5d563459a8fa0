//! One request from end to end: let it in or turn it away, then answer with
//! what came of the delivery.
//!
//! The caller stands between the two halves. It hands the request to
//! [`receive`]; if that authorizes an outbound message, it posts the message
//! once, and hands what happened to [`conclude`].

use crate::auth::{
    authenticate, bare_token_authorized, bearer_header_authorized_iff_member, bearer_prefix,
    decision, UNAUTHORIZED,
};
use crate::credentials::{valid_tokens, CredentialSet};
use crate::delivery::{
    outcome_of, report_of, report_never_empty, success_report, transport_report,
    transport_report_holds_detail, Delivery, DeliveryView, Outcome,
};
use crate::message::{
    outbound_message, DestinationConfig, DestinationView, Message, MessageView, Payload,
    PayloadView,
};
use crate::status::{code_digits, success_code, RemoteStatus};
use crate::text::{contains_text, optional_text};
use vstd::prelude::*;
use vstd::string::*;

verus! {

/// The HTTP status of every reply to an authorized request, whatever came of
/// the delivery.
pub const OK: u16 = 200;

/// The answer to a request: an HTTP status and a body of plain text.
#[derive(Clone, Debug)]
pub struct Reply {
    pub status: u16,
    pub body: String,
}

/// A message on its way out: where to post it, and what.
#[derive(Clone, Debug)]
pub struct Outbound {
    pub url: String,
    pub message: Message,
}

/// What became of a request at the door.
#[derive(Clone, Debug)]
pub enum Intake {
    /// The request was not authorized; this is the reply to it.
    Rejected(Reply),
    /// The request was authorized; this is to be posted, once.
    Authorized(Outbound),
}

/// A reply as a number and a text.
pub struct ReplyView {
    pub status: u16,
    pub body: Seq<char>,
}

/// An outbound message as texts.
pub struct OutboundView {
    pub url: Seq<char>,
    pub message: MessageView,
}

/// What became of a request at the door, as numbers and texts.
pub enum IntakeView {
    Rejected(ReplyView),
    Authorized(OutboundView),
}

impl View for Reply {
    type V = ReplyView;

    open spec fn view(&self) -> ReplyView {
        ReplyView { status: self.status, body: self.body@ }
    }
}

impl View for Outbound {
    type V = OutboundView;

    open spec fn view(&self) -> OutboundView {
        OutboundView { url: self.url@, message: self.message@ }
    }
}

impl View for Intake {
    type V = IntakeView;

    open spec fn view(&self) -> IntakeView {
        match self {
            Intake::Rejected(reply) => IntakeView::Rejected(reply@),
            Intake::Authorized(outbound) => IntakeView::Authorized(outbound@),
        }
    }
}

/// What becomes of a request at the door. One that is not authorized gets
/// its reply at once: status 401, and the reason as the body. An authorized
/// one yields the message that carries its payload to the destination.
pub open spec fn intake_of(
    header: Option<Seq<char>>,
    payload: PayloadView,
    tokens: Seq<Seq<char>>,
    destination: DestinationView,
) -> IntakeView {
    match decision(header, tokens) {
        Err(why) => IntakeView::Rejected(ReplyView { status: UNAUTHORIZED, body: why.reason() }),
        Ok(_) => IntakeView::Authorized(
            OutboundView { url: destination.url, message: outbound_message(destination, payload) },
        ),
    }
}

/// The reply to an authorized request whose delivery ended as `delivery`:
/// status 200 in every case, and the report of the delivery as the body.
pub open spec fn reply_to(delivery: DeliveryView) -> ReplyView {
    ReplyView { status: OK, body: report_of(delivery) }
}

/// Takes a request in: turns it away with the reply that says why, or
/// authorizes the one message that is to be posted for it.
pub fn receive(
    header: Option<&str>,
    payload: &Payload,
    credentials: &CredentialSet,
    destination: &DestinationConfig,
) -> (intake: Intake)
    ensures
        intake@ == intake_of(optional_text(header), payload@, credentials@, destination@),
{
    match authenticate(header, credentials) {
        Err(why) => Intake::Rejected(Reply { status: why.status(), body: why.message() }),
        Ok(_) => Intake::Authorized(
            Outbound { url: destination.url.clone(), message: Message::build(destination, payload) },
        ),
    }
}

/// Whether the report of an answer with the status `status` holds the
/// answer's body, so that the caller has to read it: it does unless the
/// status is a success.
pub fn body_needed(status: &RemoteStatus) -> (needed: bool)
    ensures
        needed == !success_code(status@),
{
    !status.is_success()
}

/// Answers an authorized request with what came of its delivery. The body
/// of the reply is never empty, and where the service answered without
/// success it holds the three digits of the service's code.
pub fn conclude(delivery: &Delivery) -> (reply: Reply)
    ensures
        reply@ == reply_to(delivery@),
        reply.body@.len() > 0,
        outcome_of(delivery@) == Outcome::BadStatus ==> contains_text(
            reply.body@,
            code_digits(delivery@->status as int),
        ),
{
    Reply { status: OK, body: delivery.report() }
}

/// A request whose header is the bearer prefix and a token is let in if the
/// token is in the set, and turned away with status 401 if it is not.
pub proof fn bearer_request_let_in_iff_member(
    token: Seq<char>,
    payload: PayloadView,
    tokens: Seq<Seq<char>>,
    destination: DestinationView,
)
    ensures
        intake_of(Some(bearer_prefix() + token), payload, tokens, destination) == if tokens.contains(
            token,
        ) {
            IntakeView::Authorized(
                OutboundView {
                    url: destination.url,
                    message: outbound_message(destination, payload),
                },
            )
        } else {
            IntakeView::Rejected(
                ReplyView { status: 401, body: "Invalid Authorization token."@ },
            )
        },
{
    bearer_header_authorized_iff_member(tokens, token);
}

/// A request without a header is turned away with status 401 and the words
/// that say that the token is missing, whatever else it holds.
pub proof fn request_without_header_turned_away(
    payload: PayloadView,
    tokens: Seq<Seq<char>>,
    destination: DestinationView,
)
    ensures
        intake_of(None, payload, tokens, destination) == IntakeView::Rejected(
            ReplyView { status: 401, body: "Missing Authorization token."@ },
        ),
{
}

/// A request whose header is a token of the set, with no prefix before it,
/// is let in.
pub proof fn bare_token_request_let_in(
    token: Seq<char>,
    payload: PayloadView,
    tokens: Seq<Seq<char>>,
    destination: DestinationView,
)
    requires
        valid_tokens(tokens),
        tokens.contains(token),
    ensures
        intake_of(Some(token), payload, tokens, destination) is Authorized,
{
    bare_token_authorized(tokens, token);
}

/// Whatever came of the delivery, the reply has status 200 and a body that
/// is not empty.
pub proof fn reply_always_ok(delivery: DeliveryView)
    ensures
        reply_to(delivery).status == 200,
        reply_to(delivery).body.len() > 0,
{
    report_never_empty(delivery);
}

/// A delivery that the service took is answered with the word for success
/// and nothing else, and no other delivery is answered so.
pub proof fn success_reported_iff_sent(delivery: DeliveryView)
    ensures
        reply_to(delivery).body == success_report() <==> outcome_of(delivery) == Outcome::Sent,
{
    reveal_strlit("Success");
    reveal_strlit("Failed to send message to Telegram.\nError: `");
    reveal_strlit("Failed to send message to Telegram.\nStatus: `");
    match delivery {
        DeliveryView::Failed { detail } => {
            assert(transport_report(detail)[0] == 'F');
        },
        DeliveryView::Answered { status, body } => {
            if !success_code(status) {
                assert(report_of(delivery)[0] == 'F');
            }
        },
    }
}

/// A call that could not be completed is answered with status 200 and a
/// body that holds the reason.
pub proof fn transport_failure_reply_holds_detail(detail: Seq<char>)
    ensures
        reply_to(DeliveryView::Failed { detail }).status == 200,
        contains_text(reply_to(DeliveryView::Failed { detail }).body, detail),
{
    transport_report_holds_detail(detail);
}

/// Where the status is a success, the reply does not depend on the body of
/// the answer.
pub proof fn success_reply_ignores_body(status: u16, first: Seq<char>, second: Seq<char>)
    requires
        success_code(status),
    ensures
        reply_to(DeliveryView::Answered { status, body: first }) == reply_to(
            DeliveryView::Answered { status, body: second },
        ),
{
}

} // verus!
