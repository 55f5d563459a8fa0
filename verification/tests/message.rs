use telegram_relay::message::{format_text, DestinationConfig, Message, Payload};

#[test]
fn outbound_text_of_title_and_message() {
    assert_eq!(format_text("T", "M"), "*T*\nM");
}

#[test]
fn outbound_text_keeps_title_and_message_as_they_are() {
    assert_eq!(format_text("", ""), "**\n");
    assert_eq!(format_text("Build *failed*", "line 1\nline 2"), "*Build *failed**\nline 1\nline 2");
    assert_eq!(format_text("Grüße", "✓ fertig"), "*Grüße*\n✓ fertig");
}

#[test]
fn destination_url_holds_the_secret() {
    let destination = DestinationConfig::new("-1001", "42:xyz");
    assert_eq!(destination.chat_id, "-1001");
    assert_eq!(destination.url, "https://api.telegram.org/bot42:xyz/sendMessage");
}

#[test]
fn destination_url_of_an_empty_secret() {
    let destination = DestinationConfig::new("", "");
    assert_eq!(destination.chat_id, "");
    assert_eq!(destination.url, "https://api.telegram.org/bot/sendMessage");
}

#[test]
fn message_is_built_from_destination_and_payload() {
    let destination = DestinationConfig::new("-1001", "42:xyz");
    let payload = Payload { title: "T".to_string(), message: "M".to_string() };
    let message = Message::build(&destination, &payload);
    assert_eq!(message.chat_id, "-1001");
    assert_eq!(message.text, "*T*\nM");
    assert_eq!(message.parse_mode, "Markdown");
}
