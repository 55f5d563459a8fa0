use telegram_relay::credentials::CredentialSet;
use telegram_relay::delivery::Delivery;
use telegram_relay::message::{DestinationConfig, Payload};
use telegram_relay::relay::{conclude, receive, Intake};
use telegram_relay::status::RemoteStatus;

fn payload(title: &str, message: &str) -> Payload {
    Payload { title: title.to_string(), message: message.to_string() }
}

fn destination() -> DestinationConfig {
    DestinationConfig::new("-1001", "42:xyz")
}

#[test]
fn request_without_header_is_turned_away() {
    let set = CredentialSet::parse("alpha");
    match receive(None, &payload("T", "M"), &set, &destination()) {
        Intake::Rejected(reply) => {
            assert_eq!(reply.status, 401);
            assert_eq!(reply.body, "Missing Authorization token.");
        }
        Intake::Authorized(_) => panic!("a request without a header was let in"),
    }
}

#[test]
fn request_with_unknown_token_is_turned_away() {
    let set = CredentialSet::parse("alpha");
    match receive(Some("Bearer beta"), &payload("T", "M"), &set, &destination()) {
        Intake::Rejected(reply) => {
            assert_eq!(reply.status, 401);
            assert_eq!(reply.body, "Invalid Authorization token.");
        }
        Intake::Authorized(_) => panic!("an unknown token was let in"),
    }
}

#[test]
fn authorized_request_yields_the_outbound_message() {
    let set = CredentialSet::parse("alpha");
    match receive(Some("Bearer alpha"), &payload("T", "M"), &set, &destination()) {
        Intake::Authorized(outbound) => {
            assert_eq!(outbound.url, "https://api.telegram.org/bot42:xyz/sendMessage");
            assert_eq!(outbound.message.chat_id, "-1001");
            assert_eq!(outbound.message.text, "*T*\nM");
            assert_eq!(outbound.message.parse_mode, "Markdown");
        }
        Intake::Rejected(reply) => panic!("a valid token was turned away: {}", reply.body),
    }
}

#[test]
fn raw_token_yields_the_outbound_message_too() {
    let set = CredentialSet::parse("alpha");
    assert!(matches!(
        receive(Some("alpha"), &payload("T", "M"), &set, &destination()),
        Intake::Authorized(_)
    ));
}

#[test]
fn requests_with_distinct_tokens_do_not_touch_each_other() {
    let set = CredentialSet::parse("one two three");
    let target = destination();
    let mut texts = Vec::new();
    for (token, title) in [("one", "A"), ("two", "B"), ("three", "C"), ("four", "D")] {
        let header = format!("Bearer {}", token);
        match receive(Some(&header), &payload(title, "body"), &set, &target) {
            Intake::Authorized(outbound) => texts.push(outbound.message.text),
            Intake::Rejected(reply) => texts.push(format!("{} {}", reply.status, reply.body)),
        }
    }
    assert_eq!(texts, vec!["*A*\nbody", "*B*\nbody", "*C*\nbody", "401 Invalid Authorization token."]);
    assert_eq!(set.len(), 3);
    assert_eq!(target.chat_id, "-1001");
}

#[test]
fn request_from_end_to_end() {
    let set = CredentialSet::parse("alpha");
    let intake = receive(Some("Bearer alpha"), &payload("Deploy", "done"), &set, &destination());
    assert!(matches!(intake, Intake::Authorized(_)));
    let sent = Delivery::Answered { status: RemoteStatus::new(200).unwrap(), body: String::new() };
    let reply = conclude(&sent);
    assert_eq!((reply.status, reply.body.as_str()), (200, "Success"));
    let refused = Delivery::Answered {
        status: RemoteStatus::new(403).unwrap(),
        body: "bot was blocked".to_string(),
    };
    let reply = conclude(&refused);
    assert_eq!(reply.status, 200);
    assert_eq!(
        reply.body,
        "Failed to send message to Telegram.\nStatus: `403 Forbidden`\nBody: `bot was blocked`"
    );
}
