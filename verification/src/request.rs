//! The chat request: its shape, its JSON text, and the HTTP request that
//! carries it.

use crate::config::{ServiceConfig, ServiceConfigView};
use crate::error::{ChatError, ChatErrorView};
use crate::decimal::{digit, digit_text};
use crate::headers::{get_headers, header_entries, headers_for};
use crate::json::{json_string_literal, quote};
use reqwest::header::HeaderMap;
use vstd::prelude::*;

verus! {

/// The address of the chat-completions service.
pub const ENDPOINT: &'static str = "https://api.openai.com/v1/chat/completions";

/// Who speaks in a message.
#[derive(Debug, Clone, Copy, PartialEq, Eq, Structural)]
pub enum Role {
    System,
    User,
    Assistant,
}

/// One message of a conversation.
#[derive(Debug, PartialEq, Eq)]
pub struct ChatMessage {
    pub role: Role,
    pub content: String,
}

/// The mathematical value of a [`ChatMessage`].
pub struct ChatMessageView {
    pub role: Role,
    pub content: Seq<char>,
}

impl View for ChatMessage {
    type V = ChatMessageView;

    open spec fn view(&self) -> ChatMessageView {
        ChatMessageView { role: self.role, content: self.content@ }
    }
}

/// The values of a list of messages, one for one.
pub open spec fn message_views(messages: Seq<ChatMessage>) -> Seq<ChatMessageView> {
    Seq::new(messages.len(), |i: int| messages[i]@)
}

/// A sampling temperature between 0 and 2, counted in tenths.
#[derive(Debug, Clone, Copy, PartialEq, Eq)]
pub struct Temperature {
    tenths: u8,
}

impl View for Temperature {
    type V = int;

    /// The temperature in tenths, from 0 to 20.
    closed spec fn view(&self) -> int {
        self.tenths as int
    }
}

impl Temperature {
    #[verifier::type_invariant]
    spec fn inv(self) -> bool {
        self.tenths <= 20
    }

    /// The temperature of `tenths` tenths, where that is at most 2.
    pub fn from_tenths(tenths: u8) -> (made: Option<Temperature>)
        ensures
            match made {
                Some(temperature) => tenths <= 20 && temperature@ == tenths,
                None => tenths > 20,
            },
    {
        if tenths <= 20 {
            Some(Temperature { tenths })
        } else {
            None
        }
    }

    /// The temperature that every request of this client is made with: 0.7.
    pub fn standard() -> (made: Temperature)
        ensures
            made@ == 7,
    {
        Temperature { tenths: 7 }
    }

    /// The temperature in tenths.
    pub fn tenths(&self) -> (tenths: u8)
        ensures
            tenths == self@,
            tenths <= 20,
    {
        proof {
            use_type_invariant(self);
        }
        self.tenths
    }
}

/// A chat-completion request.
#[derive(Debug, PartialEq, Eq)]
pub struct ChatRequest {
    pub model: String,
    pub messages: Vec<ChatMessage>,
    pub temperature: Temperature,
}

/// The mathematical value of a [`ChatRequest`].
pub struct ChatRequestView {
    pub model: Seq<char>,
    pub messages: Seq<ChatMessageView>,
    pub temperature: int,
}

impl View for ChatRequest {
    type V = ChatRequestView;

    open spec fn view(&self) -> ChatRequestView {
        ChatRequestView {
            model: self.model@,
            messages: message_views(self.messages@),
            temperature: self.temperature@,
        }
    }
}

/// The request that asks one question: a single message of the user, at the
/// standard temperature.
pub open spec fn single_turn(model: Seq<char>, question: Seq<char>) -> ChatRequestView {
    ChatRequestView {
        model,
        messages: seq![ChatMessageView { role: Role::User, content: question }],
        temperature: 7,
    }
}

impl ChatRequest {
    /// The request that asks `question` of `model`. The question goes in as
    /// it is.
    pub fn ask(model: &str, question: &str) -> (request: ChatRequest)
        ensures
            request@ == single_turn(model@, question@),
    {
        let mut messages: Vec<ChatMessage> = Vec::new();
        messages.push(ChatMessage { role: Role::User, content: question.to_owned() });
        let request = ChatRequest {
            model: model.to_owned(),
            messages,
            temperature: Temperature::standard(),
        };
        assert(request@.messages =~= single_turn(model@, question@).messages);
        request
    }
}

/// A role as it is written in JSON.
pub open spec fn role_literal(role: Role) -> Seq<char> {
    match role {
        Role::System => "\"system\""@,
        Role::User => "\"user\""@,
        Role::Assistant => "\"assistant\""@,
    }
}

/// A temperature of so many tenths as a decimal number with one fractional
/// digit.
pub open spec fn temperature_text(tenths: int) -> Seq<char> {
    digit_text(tenths / 10) + "."@ + digit_text(tenths % 10)
}

/// The JSON object that stands for a message.
pub open spec fn message_json(message: ChatMessageView) -> Seq<char> {
    "{\"content\":"@ + json_string_literal(message.content) + ",\"role\":"@ + role_literal(
        message.role,
    ) + "}"@
}

/// The JSON objects of the messages, in order, with commas between them.
pub open spec fn messages_json(messages: Seq<ChatMessageView>) -> Seq<char>
    decreases messages.len(),
{
    if messages.len() == 0 {
        Seq::empty()
    } else if messages.len() == 1 {
        message_json(messages[0])
    } else {
        messages_json(messages.drop_last()) + ","@ + message_json(messages.last())
    }
}

/// The JSON object that stands for a request: the text of the HTTP body.
pub open spec fn request_json(request: ChatRequestView) -> Seq<char> {
    "{\"messages\":["@ + messages_json(request.messages) + "],\"model\":"@ + json_string_literal(
        request.model,
    ) + ",\"temperature\":"@ + temperature_text(request.temperature) + "}"@
}

impl Role {
    /// The role as it is written in JSON.
    pub fn literal(self) -> (text: &'static str)
        ensures
            text@ == role_literal(self),
    {
        match self {
            Role::System => "\"system\"",
            Role::User => "\"user\"",
            Role::Assistant => "\"assistant\"",
        }
    }
}

impl Temperature {
    /// The temperature as a decimal number.
    pub fn render(&self) -> (text: String)
        ensures
            text@ == temperature_text(self@),
    {
        let tenths = self.tenths();
        let mut text = digit(tenths / 10).to_owned();
        text.append(".");
        text.append(digit(tenths % 10));
        text
    }
}

impl ChatMessage {
    /// The message as a JSON object.
    pub fn to_json(&self) -> (text: String)
        ensures
            text@ == message_json(self@),
    {
        let mut text = "{\"content\":".to_owned();
        text.append(quote(self.content.as_str()).as_str());
        text.append(",\"role\":");
        text.append(self.role.literal());
        text.append("}");
        text
    }
}

impl ChatRequest {
    /// The request as a JSON object: the body to send.
    pub fn to_json(&self) -> (text: String)
        ensures
            text@ == request_json(self@),
    {
        let ghost all = message_views(self.messages@);
        let mut text = "{\"messages\":[".to_owned();
        let mut i: usize = 0;
        while i < self.messages.len()
            invariant
                i <= self.messages.len(),
                all == message_views(self.messages@),
                text@ == "{\"messages\":["@ + messages_json(all.take(i as int)),
            decreases self.messages.len() - i,
        {
            let ghost done = all.take(i as int);
            let ghost next = all.take(i + 1);
            assert(next.drop_last() == done);
            assert(next.last() == self.messages[i as int]@);
            if i > 0 {
                text.append(",");
            }
            text.append(self.messages[i].to_json().as_str());
            i += 1;
        }
        assert(all.take(i as int) == all);
        text.append("],\"model\":");
        text.append(quote(self.model.as_str()).as_str());
        text.append(",\"temperature\":");
        text.append(self.temperature.render().as_str());
        text.append("}");
        text
    }
}

/// A request, ready to be sent.
#[derive(Debug, PartialEq, Eq)]
pub struct HttpRequest {
    pub method: String,
    pub url: String,
    pub headers: HeaderMap,
    pub body: String,
}

/// The mathematical value of an [`HttpRequest`]. The headers are given by
/// name, each with the bytes of its value.
pub struct HttpRequestView {
    pub method: Seq<char>,
    pub url: Seq<char>,
    pub headers: Map<Seq<char>, Seq<u8>>,
    pub body: Seq<char>,
}

impl View for HttpRequest {
    type V = HttpRequestView;

    open spec fn view(&self) -> HttpRequestView {
        HttpRequestView {
            method: self.method@,
            url: self.url@,
            headers: header_entries(self.headers),
            body: self.body@,
        }
    }
}

/// The request that puts `question` to the service under a configuration: a
/// POST to the endpoint, with the credentials and the question as a JSON
/// body. A key that cannot be sent is refused.
pub open spec fn request_for(config: ServiceConfigView, question: Seq<char>) -> Result<
    HttpRequestView,
    ChatErrorView,
> {
    match headers_for(config.api_key) {
        Ok(headers) => Ok(
            HttpRequestView {
                method: "POST"@,
                url: ENDPOINT@,
                headers,
                body: request_json(single_turn(config.model, question)),
            },
        ),
        Err(cause) => Err(ChatErrorView::Configuration(cause)),
    }
}

/// The value of a request that was built, or the error.
pub open spec fn prepared_view(prepared: Result<HttpRequest, ChatError>) -> Result<
    HttpRequestView,
    ChatErrorView,
> {
    match prepared {
        Ok(request) => Ok(request@),
        Err(error) => Err(error@),
    }
}

/// Builds the request that puts `question` to the service.
pub fn build_request(config: &ServiceConfig, question: &str) -> (prepared: Result<
    HttpRequest,
    ChatError,
>)
    ensures
        prepared_view(prepared) == request_for(config@, question@),
{
    match get_headers(config.api_key().as_str()) {
        Ok(headers) => {
            let body = ChatRequest::ask(config.model().as_str(), question).to_json();
            Ok(HttpRequest { method: "POST".to_owned(), url: ENDPOINT.to_owned(), headers, body })
        },
        Err(cause) => Err(ChatError::Configuration(cause)),
    }
}

} // verus!
