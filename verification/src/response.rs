//! The service's response: its shape, how it is read from a JSON document,
//! and how the answer is taken from it.

use crate::error::{outcome_view, ChatError, ChatErrorView};
use crate::json::{json_document, parse_json, views, Json, JsonView};
use vstd::prelude::*;

verus! {

/// The message of a choice.
#[derive(Debug, PartialEq, Eq)]
pub struct ReplyMessage {
    pub role: String,
    pub content: String,
}

/// One candidate completion.
#[derive(Debug, PartialEq, Eq)]
pub struct Choice {
    pub message: ReplyMessage,
}

/// A chat-completion response. Only the first choice's content is ever read;
/// the rest is carried along.
#[derive(Debug, PartialEq, Eq)]
pub struct ChatResponse {
    pub id: String,
    pub object: String,
    pub created: i64,
    pub model: String,
    pub usage: Json,
    pub choices: Vec<Choice>,
}

/// The mathematical value of a [`ReplyMessage`].
pub struct ReplyMessageView {
    pub role: Seq<char>,
    pub content: Seq<char>,
}

/// The mathematical value of a [`Choice`].
pub struct ChoiceView {
    pub message: ReplyMessageView,
}

/// The mathematical value of a [`ChatResponse`].
pub struct ChatResponseView {
    pub id: Seq<char>,
    pub object: Seq<char>,
    pub created: i64,
    pub model: Seq<char>,
    pub usage: JsonView,
    pub choices: Seq<ChoiceView>,
}

impl View for ReplyMessage {
    type V = ReplyMessageView;

    open spec fn view(&self) -> ReplyMessageView {
        ReplyMessageView { role: self.role@, content: self.content@ }
    }
}

impl View for Choice {
    type V = ChoiceView;

    open spec fn view(&self) -> ChoiceView {
        ChoiceView { message: self.message@ }
    }
}

/// The values of a list of choices, one for one.
pub open spec fn choice_views(choices: Seq<Choice>) -> Seq<ChoiceView> {
    Seq::new(choices.len(), |i: int| choices[i]@)
}

impl View for ChatResponse {
    type V = ChatResponseView;

    open spec fn view(&self) -> ChatResponseView {
        ChatResponseView {
            id: self.id@,
            object: self.object@,
            created: self.created,
            model: self.model@,
            usage: self.usage@,
            choices: choice_views(self.choices@),
        }
    }
}

/// The string that is member `key` of an object.
pub open spec fn text_member(json: JsonView, key: Seq<char>) -> Option<Seq<char>> {
    match json.member(key) {
        Some(value) => value.text(),
        None => None,
    }
}

/// The message that a JSON value describes: an object with the strings
/// `role` and `content`.
pub open spec fn message_of(json: JsonView) -> Option<ReplyMessageView> {
    match (text_member(json, "role"@), text_member(json, "content"@)) {
        (Some(role), Some(content)) => Some(ReplyMessageView { role, content }),
        _ => None,
    }
}

/// The choice that a JSON value describes: an object with a `message`.
pub open spec fn choice_of(json: JsonView) -> Option<ChoiceView> {
    match json.member("message"@) {
        Some(value) => match message_of(value) {
            Some(message) => Some(ChoiceView { message }),
            None => None,
        },
        None => None,
    }
}

/// The choices that the elements of an array describe, if each describes one.
pub open spec fn choices_of(items: Seq<JsonView>) -> Option<Seq<ChoiceView>> {
    if forall|i: int| 0 <= i < items.len() ==> (#[trigger] choice_of(items[i])) is Some {
        Some(Seq::new(items.len(), |i: int| choice_of(items[i])->0))
    } else {
        None
    }
}

/// The response that a JSON document describes: an object with the strings
/// `id`, `object` and `model`, the integer `created`, some `usage`, and an
/// array `choices` of choices. Other members are ignored.
pub open spec fn response_of(doc: JsonView) -> Option<ChatResponseView> {
    match (
        text_member(doc, "id"@),
        text_member(doc, "object"@),
        doc.member("created"@),
        text_member(doc, "model"@),
        doc.member("usage"@),
        doc.member("choices"@),
    ) {
        (Some(id), Some(object), Some(created), Some(model), Some(usage), Some(list)) => match (
            created.integer(),
            list.items(),
        ) {
            (Some(created), Some(items)) => match choices_of(items) {
                Some(choices) => Some(
                    ChatResponseView { id, object, created, model, usage, choices },
                ),
                None => None,
            },
            _ => None,
        },
        _ => None,
    }
}

/// The answer that a response holds: the content of its first choice. A
/// response without choices holds none.
pub open spec fn answer_of(response: ChatResponseView) -> Result<Seq<char>, ChatErrorView> {
    if response.choices.len() > 0 {
        Ok(response.choices[0].message.content)
    } else {
        Err(ChatErrorView::MalformedResponse)
    }
}

/// The answer that a JSON document holds.
pub open spec fn answer_in(doc: JsonView) -> Result<Seq<char>, ChatErrorView> {
    match response_of(doc) {
        Some(response) => answer_of(response),
        None => Err(ChatErrorView::MalformedResponse),
    }
}

fn member_text(json: &Json, key: &str) -> (found: Option<String>)
    ensures
        match found {
            Some(text) => text_member(json@, key@) == Some(text@),
            None => text_member(json@, key@) is None,
        },
{
    match json.member(key) {
        Some(value) => match value.as_text() {
            Some(text) => Some(text.clone()),
            None => None,
        },
        None => None,
    }
}

/// Reads a message from a JSON value.
pub fn decode_message(json: &Json) -> (decoded: Option<ReplyMessage>)
    ensures
        match decoded {
            Some(message) => message_of(json@) == Some(message@),
            None => message_of(json@) is None,
        },
{
    match (member_text(json, "role"), member_text(json, "content")) {
        (Some(role), Some(content)) => Some(ReplyMessage { role, content }),
        _ => None,
    }
}

/// Reads a choice from a JSON value.
pub fn decode_choice(json: &Json) -> (decoded: Option<Choice>)
    ensures
        match decoded {
            Some(choice) => choice_of(json@) == Some(choice@),
            None => choice_of(json@) is None,
        },
{
    match json.member("message") {
        Some(value) => match decode_message(value) {
            Some(message) => Some(Choice { message }),
            None => None,
        },
        None => None,
    }
}

/// Reads the choices from the elements of a JSON array.
pub fn decode_choices(items: &Vec<Json>) -> (decoded: Option<Vec<Choice>>)
    ensures
        match decoded {
            Some(choices) => choices_of(views(items@)) == Some(choice_views(choices@)),
            None => choices_of(views(items@)) is None,
        },
{
    let ghost all = views(items@);
    let mut choices: Vec<Choice> = Vec::new();
    let mut i: usize = 0;
    while i < items.len()
        invariant
            i <= items.len(),
            all == views(items@),
            choices.len() == i,
            forall|j: int| 0 <= j < i ==> choice_of(all[j]) == Some(#[trigger] choices[j]@),
        decreases items.len() - i,
    {
        match decode_choice(&items[i]) {
            Some(choice) => {
                choices.push(choice);
            },
            None => {
                assert(choice_of(all[i as int]) is None);
                return None;
            },
        }
        i += 1;
    }
    proof {
        assert forall|j: int| 0 <= j < all.len() implies (#[trigger] choice_of(all[j])) is Some by {
            assert(choice_of(all[j]) == Some(choices[j]@));
        }
        assert(choices_of(all)->0 =~= choice_views(choices@));
    }
    Some(choices)
}

/// Reads a response from a JSON document.
pub fn decode_response(doc: &Json) -> (decoded: Option<ChatResponse>)
    ensures
        match decoded {
            Some(response) => response_of(doc@) == Some(response@),
            None => response_of(doc@) is None,
        },
{
    let id = member_text(doc, "id");
    let object = member_text(doc, "object");
    let model = member_text(doc, "model");
    match (id, object, doc.member("created"), model, doc.member("usage"), doc.member("choices")) {
        (Some(id), Some(object), Some(created), Some(model), Some(usage), Some(list)) => match (
            created.as_integer(),
            list.as_array(),
        ) {
            (Some(created), Some(items)) => match decode_choices(items) {
                Some(choices) => Some(
                    ChatResponse { id, object, created, model, usage: usage.clone(), choices },
                ),
                None => None,
            },
            _ => None,
        },
        _ => None,
    }
}

/// Takes the answer from a response: the content of the first choice, as it
/// is.
pub fn extract_answer(response: &ChatResponse) -> (outcome: Result<String, ChatError>)
    ensures
        outcome_view(outcome) == answer_of(response@),
{
    if response.choices.len() > 0 {
        Ok(response.choices[0].message.content.clone())
    } else {
        Err(ChatError::MalformedResponse)
    }
}

/// Takes the answer from a JSON document.
pub fn answer_from_document(doc: &Json) -> (outcome: Result<String, ChatError>)
    ensures
        outcome_view(outcome) == answer_in(doc@),
{
    match decode_response(doc) {
        Some(response) => extract_answer(&response),
        None => Err(ChatError::MalformedResponse),
    }
}

/// What came back from the service: the status, and the body as text, or
/// `None` where the body could not be read.
#[derive(Debug, PartialEq, Eq)]
pub struct HttpReply {
    pub status: u16,
    pub body: Option<String>,
}

/// The mathematical value of an [`HttpReply`].
pub struct HttpReplyView {
    pub status: u16,
    pub body: Option<Seq<char>>,
}

impl View for HttpReply {
    type V = HttpReplyView;

    open spec fn view(&self) -> HttpReplyView {
        HttpReplyView {
            status: self.status,
            body: match self.body {
                Some(text) => Some(text@),
                None => None,
            },
        }
    }
}

/// The body that a rejection carries: the text that was read, or nothing.
pub open spec fn rejected_body(body: Option<Seq<char>>) -> Seq<char> {
    match body {
        Some(text) => text,
        None => Seq::empty(),
    }
}

/// The outcome that a reply stands for. Any status but 200 is a rejection,
/// whatever the body. A reply of status 200 must bring a body, or the
/// transport has failed, and the body must hold an answer.
pub open spec fn reply_outcome(reply: HttpReplyView) -> Result<Seq<char>, ChatErrorView> {
    if reply.status != 200 {
        Err(
            ChatErrorView::ServiceRejected {
                status: reply.status,
                body: rejected_body(reply.body),
            },
        )
    } else {
        match reply.body {
            Some(text) => match json_document(text) {
                Some(doc) => answer_in(doc),
                None => Err(ChatErrorView::MalformedResponse),
            },
            None => Err(ChatErrorView::Network),
        }
    }
}

/// Turns the service's reply into the answer or the error it stands for.
pub fn interpret_reply(reply: HttpReply) -> (outcome: Result<String, ChatError>)
    ensures
        outcome_view(outcome) == reply_outcome(reply@),
{
    if reply.status != 200 {
        let body = match reply.body {
            Some(text) => text,
            None => String::new(),
        };
        Err(ChatError::ServiceRejected { status: reply.status, body })
    } else {
        match reply.body {
            Some(text) => match parse_json(text.as_str()) {
                Some(doc) => answer_from_document(&doc),
                None => Err(ChatError::MalformedResponse),
            },
            None => Err(ChatError::Network),
        }
    }
}

} // verus!
