//! What comes in with a request, where it goes, and the message that goes out.

use vstd::prelude::*;
use vstd::string::*;

verus! {

/// The content of a request: a title and a message, both required.
#[derive(Clone, Debug)]
pub struct Payload {
    pub title: String,
    pub message: String,
}

/// Where the messages go: the chat that receives them and the address they
/// are posted to. Set once, then only read.
#[derive(Clone, Debug)]
pub struct DestinationConfig {
    pub chat_id: String,
    pub url: String,
}

/// One message for the messaging service.
#[derive(Clone, Debug)]
pub struct Message {
    pub chat_id: String,
    pub text: String,
    pub parse_mode: String,
}

/// A payload as two texts.
pub struct PayloadView {
    pub title: Seq<char>,
    pub message: Seq<char>,
}

/// A destination as two texts.
pub struct DestinationView {
    pub chat_id: Seq<char>,
    pub url: Seq<char>,
}

/// A message as three texts.
pub struct MessageView {
    pub chat_id: Seq<char>,
    pub text: Seq<char>,
    pub parse_mode: Seq<char>,
}

impl View for Payload {
    type V = PayloadView;

    open spec fn view(&self) -> PayloadView {
        PayloadView { title: self.title@, message: self.message@ }
    }
}

impl View for DestinationConfig {
    type V = DestinationView;

    open spec fn view(&self) -> DestinationView {
        DestinationView { chat_id: self.chat_id@, url: self.url@ }
    }
}

impl View for Message {
    type V = MessageView;

    open spec fn view(&self) -> MessageView {
        MessageView { chat_id: self.chat_id@, text: self.text@, parse_mode: self.parse_mode@ }
    }
}

/// The text of an outbound message: the title between two asterisks, which
/// the messaging service renders bold, a line break, and the message.
pub open spec fn outbound_text(title: Seq<char>, message: Seq<char>) -> Seq<char> {
    seq!['*'] + title + seq!['*', '\n'] + message
}

/// The rendering mode that every outbound message asks for.
pub open spec fn rendering_mode() -> Seq<char> {
    "Markdown"@
}

/// The address that messages are posted to, for the service's secret `secret`.
pub open spec fn destination_url(secret: Seq<char>) -> Seq<char> {
    "https://api.telegram.org/bot"@ + secret + "/sendMessage"@
}

/// The destination for the chat `chat_id`, reached with the secret `secret`.
pub open spec fn destination_of(chat_id: Seq<char>, secret: Seq<char>) -> DestinationView {
    DestinationView { chat_id, url: destination_url(secret) }
}

/// The message that carries `payload` to `destination`.
pub open spec fn outbound_message(destination: DestinationView, payload: PayloadView)
    -> MessageView {
    MessageView {
        chat_id: destination.chat_id,
        text: outbound_text(payload.title, payload.message),
        parse_mode: rendering_mode(),
    }
}

impl DestinationConfig {
    /// The destination for the chat `chat_id`, reached with the secret `secret`.
    pub fn new(chat_id: &str, secret: &str) -> (destination: DestinationConfig)
        ensures
            destination@ == destination_of(chat_id@, secret@),
    {
        let mut url = String::from_str("https://api.telegram.org/bot");
        url.append(secret);
        url.append("/sendMessage");
        DestinationConfig { chat_id: String::from_str(chat_id), url }
    }
}

/// Writes the text of an outbound message from a title and a message.
pub fn format_text(title: &str, message: &str) -> (text: String)
    ensures
        text@ == outbound_text(title@, message@),
{
    proof {
        reveal_strlit("*");
        reveal_strlit("*\n");
    }
    let mut text = String::from_str("*");
    text.append(title);
    text.append("*\n");
    text.append(message);
    text
}

impl Message {
    /// The message that carries `payload` to `destination`.
    pub fn build(destination: &DestinationConfig, payload: &Payload) -> (message: Message)
        ensures
            message@ == outbound_message(destination@, payload@),
    {
        Message {
            chat_id: destination.chat_id.clone(),
            text: format_text(payload.title.as_str(), payload.message.as_str()),
            parse_mode: String::from_str("Markdown"),
        }
    }
}

} // verus!
