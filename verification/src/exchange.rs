//! One exchange with the service, from the question to the answer.
//!
//! The library does no input or output. An exchange is a small state machine:
//! it says what is to be done next (read the configuration file, send a
//! request), the caller does it and reports what came of it.

use crate::config::{
    load_config, loaded_config, text_of, toml_document, ServiceConfigView, SettingView,
};
use crate::error::{outcome_view, ChatError, ChatErrorView, ConfigError};
use crate::headers::{lemma_unsafe_key_refused, permitted_char};
use crate::json::{json_document, JsonView};
use crate::request::{build_request, prepared_view, request_for, HttpRequest, HttpRequestView};
use crate::response::{
    interpret_reply, rejected_body, reply_outcome, response_of, text_member, ChatResponseView,
    HttpReply, HttpReplyView,
};
use vstd::prelude::*;

verus! {

/// The request that puts `question` to the service, given what reading the
/// configuration file gave: its text, or `None` where it could not be read.
pub open spec fn prepared(question: Seq<char>, file: Option<Seq<char>>) -> Result<
    HttpRequestView,
    ChatErrorView,
> {
    match loaded_config(file) {
        Ok(config) => request_for(config, question),
        Err(cause) => Err(ChatErrorView::Configuration(cause)),
    }
}

/// The outcome of an exchange, given what sending the request gave: the
/// reply, or `None` where the transport failed.
pub open spec fn concluded(reply: Option<HttpReplyView>) -> Result<Seq<char>, ChatErrorView> {
    match reply {
        Some(reply) => reply_outcome(reply),
        None => Err(ChatErrorView::Network),
    }
}

/// Loads the configuration from the file's text and builds the request for a
/// question.
pub fn prepare(question: &str, file: Option<&str>) -> (prepared: Result<HttpRequest, ChatError>)
    ensures
        prepared_view(prepared) == self::prepared(
            question@,
            match file {
                Some(text) => Some(text@),
                None => None,
            },
        ),
{
    match load_config(file) {
        Ok(config) => build_request(&config, question),
        Err(cause) => Err(ChatError::Configuration(cause)),
    }
}

/// Turns what sending gave into the outcome of the exchange.
pub fn conclude(reply: Option<HttpReply>) -> (outcome: Result<String, ChatError>)
    ensures
        outcome_view(outcome) == concluded(
            match reply {
                Some(reply) => Some(reply@),
                None => None,
            },
        ),
{
    match reply {
        Some(reply) => interpret_reply(reply),
        None => Err(ChatError::Network),
    }
}

/// Where an exchange stands.
#[derive(Debug, PartialEq, Eq)]
pub enum Exchange {
    /// The configuration file is being read.
    AwaitingConfig { question: String },
    /// The request is on its way.
    AwaitingReply,
    /// The outcome has been delivered.
    Closed,
}

/// What the caller reports to an exchange.
#[derive(Debug, PartialEq, Eq)]
pub enum Event {
    /// Reading the configuration file gave this text, or failed.
    ConfigRead(Option<String>),
    /// Sending the request gave this reply, or failed.
    Replied(Option<HttpReply>),
}

/// What an exchange asks of the caller.
#[derive(Debug, PartialEq, Eq)]
pub enum Action {
    /// Read the configuration file and report its text.
    ReadConfig,
    /// Send this request and report the reply.
    Send(HttpRequest),
    /// The exchange is over, with this outcome.
    Deliver(Result<String, ChatError>),
    /// The event was not the one awaited and has been ignored.
    Ignore,
}

/// The mathematical value of an [`Exchange`].
pub enum ExchangeView {
    AwaitingConfig { question: Seq<char> },
    AwaitingReply,
    Closed,
}

/// The mathematical value of an [`Event`].
pub enum EventView {
    ConfigRead(Option<Seq<char>>),
    Replied(Option<HttpReplyView>),
}

/// The mathematical value of an [`Action`].
pub enum ActionView {
    ReadConfig,
    Send(HttpRequestView),
    Deliver(Result<Seq<char>, ChatErrorView>),
    Ignore,
}

impl View for Exchange {
    type V = ExchangeView;

    open spec fn view(&self) -> ExchangeView {
        match self {
            Exchange::AwaitingConfig { question } => ExchangeView::AwaitingConfig {
                question: question@,
            },
            Exchange::AwaitingReply => ExchangeView::AwaitingReply,
            Exchange::Closed => ExchangeView::Closed,
        }
    }
}

impl View for Event {
    type V = EventView;

    open spec fn view(&self) -> EventView {
        match self {
            Event::ConfigRead(Some(text)) => EventView::ConfigRead(Some(text@)),
            Event::ConfigRead(None) => EventView::ConfigRead(None),
            Event::Replied(Some(reply)) => EventView::Replied(Some(reply@)),
            Event::Replied(None) => EventView::Replied(None),
        }
    }
}

impl View for Action {
    type V = ActionView;

    open spec fn view(&self) -> ActionView {
        match self {
            Action::ReadConfig => ActionView::ReadConfig,
            Action::Send(request) => ActionView::Send(request@),
            Action::Deliver(outcome) => ActionView::Deliver(outcome_view(*outcome)),
            Action::Ignore => ActionView::Ignore,
        }
    }
}

/// The state after an event, and what is to be done next.
///
/// The text of the configuration file leads to the request, or ends the
/// exchange where no request can be built. The reply ends the exchange with
/// its outcome. Any other event is ignored and changes nothing.
pub open spec fn step(state: ExchangeView, event: EventView) -> (ExchangeView, ActionView) {
    match (state, event) {
        (ExchangeView::AwaitingConfig { question }, EventView::ConfigRead(file)) => match prepared(
            question,
            file,
        ) {
            Ok(request) => (ExchangeView::AwaitingReply, ActionView::Send(request)),
            Err(error) => (ExchangeView::Closed, ActionView::Deliver(Err(error))),
        },
        (ExchangeView::AwaitingReply, EventView::Replied(reply)) => (
            ExchangeView::Closed,
            ActionView::Deliver(concluded(reply)),
        ),
        _ => (state, ActionView::Ignore),
    }
}

impl Exchange {
    /// Opens an exchange for a question. The first thing to do is to read
    /// the configuration file.
    pub fn open(question: &str) -> (opened: (Exchange, Action))
        ensures
            opened.0@ == (ExchangeView::AwaitingConfig { question: question@ }),
            opened.1@ == ActionView::ReadConfig,
    {
        (Exchange::AwaitingConfig { question: question.to_owned() }, Action::ReadConfig)
    }

    /// Takes an event and says what is to be done next.
    pub fn advance(self, event: Event) -> (next: (Exchange, Action))
        ensures
            (next.0@, next.1@) == step(self@, event@),
    {
        match (self, event) {
            (Exchange::AwaitingConfig { question }, Event::ConfigRead(file)) => {
                let prepared = match &file {
                    Some(text) => prepare(question.as_str(), Some(text.as_str())),
                    None => prepare(question.as_str(), None),
                };
                match prepared {
                    Ok(request) => (Exchange::AwaitingReply, Action::Send(request)),
                    Err(error) => (Exchange::Closed, Action::Deliver(Err(error))),
                }
            },
            (Exchange::AwaitingReply, Event::Replied(reply)) => (
                Exchange::Closed,
                Action::Deliver(conclude(reply)),
            ),
            (state, _) => (state, Action::Ignore),
        }
    }
}

/// What asking `question` comes to, where reading the configuration file
/// gives `file` and sending the request, if it comes to that, gives `reply`.
pub open spec fn ask(
    question: Seq<char>,
    file: Option<Seq<char>>,
    reply: Option<HttpReplyView>,
) -> Result<Seq<char>, ChatErrorView> {
    match prepared(question, file) {
        Ok(_) => concluded(reply),
        Err(error) => Err(error),
    }
}

/// Asks a question, given what the world answers: `file` is what reading the
/// configuration file gives, and `reply` is what sending the request gives,
/// if it comes to that. The result is the answer, or the error that tells
/// why there is none.
pub fn get_answer(question: &str, file: Option<&str>, reply: Option<HttpReply>) -> (outcome: Result<
    String,
    ChatError,
>)
    ensures
        outcome_view(outcome) == ask(
            question@,
            match file {
                Some(text) => Some(text@),
                None => None,
            },
            match reply {
                Some(reply) => Some(reply@),
                None => None,
            },
        ),
{
    match prepare(question, file) {
        Ok(_) => conclude(reply),
        Err(error) => Err(error),
    }
}

/// An exchange delivers what [`ask`] says: after the configuration file it
/// either ends with the error, or hands out the request and ends with the
/// outcome of the reply.
pub proof fn lemma_exchange_delivers_ask(
    question: Seq<char>,
    file: Option<Seq<char>>,
    reply: Option<HttpReplyView>,
)
    ensures
        ({
            let first = step(
                ExchangeView::AwaitingConfig { question },
                EventView::ConfigRead(file),
            );
            match prepared(question, file) {
                Ok(request) => {
                    &&& first == (ExchangeView::AwaitingReply, ActionView::Send(request))
                    &&& step(first.0, EventView::Replied(reply)) == (
                        ExchangeView::Closed,
                        ActionView::Deliver(ask(question, file, reply)),
                    )
                },
                Err(_) => first == (
                    ExchangeView::Closed,
                    ActionView::Deliver(ask(question, file, reply)),
                ),
            }
        }),
{
}

/// Every event finds a closed exchange closed and is ignored.
pub proof fn lemma_closed_stays_closed(event: EventView)
    ensures
        step(ExchangeView::Closed, event) == (ExchangeView::Closed, ActionView::Ignore),
{
}

/// The answer to a reply of status 200 whose body reads as a response with at
/// least one choice is the content of the first choice, character for
/// character: the string `content` of the `message` of the first element of
/// the document's `choices`.
pub proof fn lemma_answer_is_first_content(
    question: Seq<char>,
    file: Option<Seq<char>>,
    body: Seq<char>,
    doc: JsonView,
    response: ChatResponseView,
)
    requires
        prepared(question, file) is Ok,
        json_document(body) == Some(doc),
        response_of(doc) == Some(response),
        response.choices.len() > 0,
    ensures
        ask(question, file, Some(HttpReplyView { status: 200, body: Some(body) })) == Ok::<
            Seq<char>,
            ChatErrorView,
        >(response.choices[0].message.content),
        ({
            let first = doc.member("choices"@)->0.items()->0[0];
            text_member(first.member("message"@)->0, "content"@) == Some(
                response.choices[0].message.content,
            )
        }),
{
}

/// A reply of status 200 whose document has an empty `choices` array is a
/// malformed response, which is an error and so never the empty answer.
pub proof fn lemma_no_choice_no_answer(
    question: Seq<char>,
    file: Option<Seq<char>>,
    body: Seq<char>,
    doc: JsonView,
)
    requires
        prepared(question, file) is Ok,
        json_document(body) == Some(doc),
        doc.member("choices"@) == Some(JsonView::Array(Seq::empty())),
    ensures
        ask(question, file, Some(HttpReplyView { status: 200, body: Some(body) })) == Err::<
            Seq<char>,
            ChatErrorView,
        >(ChatErrorView::MalformedResponse),
{
}

/// A reply of any status but 200 is a rejection that carries the status and
/// the body that was read, whatever the body holds.
pub proof fn lemma_other_status_is_rejection(
    question: Seq<char>,
    file: Option<Seq<char>>,
    reply: HttpReplyView,
)
    requires
        prepared(question, file) is Ok,
        reply.status != 200,
    ensures
        ask(question, file, Some(reply)) == Err::<Seq<char>, ChatErrorView>(
            ChatErrorView::ServiceRejected {
                status: reply.status,
                body: rejected_body(reply.body),
            },
        ),
{
}

/// Where the request is sent and nothing comes back, or a reply of status
/// 200 comes without a readable body, the error is `Network`.
pub proof fn lemma_failed_transport_is_network(
    question: Seq<char>,
    file: Option<Seq<char>>,
)
    requires
        prepared(question, file) is Ok,
    ensures
        ask(question, file, None) == Err::<Seq<char>, ChatErrorView>(ChatErrorView::Network),
        ask(question, file, Some(HttpReplyView { status: 200, body: None })) == Err::<
            Seq<char>,
            ChatErrorView,
        >(ChatErrorView::Network),
{
}

/// Every failure is an error with its kind; none is passed off as an answer.
/// What the exchange delivers on an error is that error.
pub proof fn lemma_failure_keeps_its_kind(
    question: Seq<char>,
    file: Option<Seq<char>>,
    reply: Option<HttpReplyView>,
    error: ChatErrorView,
)
    requires
        prepared(question, file) == Err::<HttpRequestView, ChatErrorView>(error) || (prepared(
            question,
            file,
        ) is Ok && concluded(reply) == Err::<Seq<char>, ChatErrorView>(error)),
    ensures
        ask(question, file, reply) == Err::<Seq<char>, ChatErrorView>(error),
{
}

/// Without a readable configuration file the exchange ends at once with
/// `NotFound`: no request is handed out.
pub proof fn lemma_missing_file_ends_exchange(question: Seq<char>, reply: Option<HttpReplyView>)
    ensures
        step(ExchangeView::AwaitingConfig { question }, EventView::ConfigRead(None)) == (
            ExchangeView::Closed,
            ActionView::Deliver(Err(ChatErrorView::Configuration(ConfigError::NotFound))),
        ),
        ask(question, None, reply) == Err::<Seq<char>, ChatErrorView>(
            ChatErrorView::Configuration(ConfigError::NotFound),
        ),
{
}

/// No setting under a key means no text under it.
proof fn lemma_absent_key(settings: Seq<SettingView>, key: Seq<char>)
    requires
        forall|i: int| 0 <= i < settings.len() ==> (#[trigger] settings[i]).key != key,
    ensures
        text_of(settings, key) is None,
    decreases settings.len(),
{
    if settings.len() > 0 {
        let rest = settings.drop_first();
        assert forall|i: int| 0 <= i < rest.len() implies (#[trigger] rest[i]).key != key by {
            assert(rest[i] == settings[i + 1]);
        }
        lemma_absent_key(rest, key);
    }
}

/// With a configuration file that has no `model` the exchange ends at once
/// with `Malformed`: no request is handed out.
pub proof fn lemma_missing_model_ends_exchange(
    question: Seq<char>,
    text: Seq<char>,
    settings: Seq<SettingView>,
    reply: Option<HttpReplyView>,
)
    requires
        toml_document(text) == Some(settings),
        forall|i: int| 0 <= i < settings.len() ==> (#[trigger] settings[i]).key != "model"@,
    ensures
        step(ExchangeView::AwaitingConfig { question }, EventView::ConfigRead(Some(text))) == (
            ExchangeView::Closed,
            ActionView::Deliver(Err(ChatErrorView::Configuration(ConfigError::Malformed))),
        ),
        ask(question, Some(text), reply) == Err::<Seq<char>, ChatErrorView>(
            ChatErrorView::Configuration(ConfigError::Malformed),
        ),
{
    lemma_absent_key(settings, "model"@);
}

/// With an API key that holds a character which no header value may hold,
/// such as a line feed or a null character, the exchange ends at once with
/// `InvalidCredential`: no request is handed out.
pub proof fn lemma_unsafe_key_ends_exchange(
    question: Seq<char>,
    file: Option<Seq<char>>,
    config: ServiceConfigView,
    at: int,
    reply: Option<HttpReplyView>,
)
    requires
        loaded_config(file) == Ok::<ServiceConfigView, ConfigError>(config),
        0 <= at < config.api_key.len(),
        !permitted_char(config.api_key[at]),
    ensures
        !permitted_char('\n'),
        !permitted_char('\0'),
        step(ExchangeView::AwaitingConfig { question }, EventView::ConfigRead(file)) == (
            ExchangeView::Closed,
            ActionView::Deliver(
                Err(ChatErrorView::Configuration(ConfigError::InvalidCredential)),
            ),
        ),
        ask(question, file, reply) == Err::<Seq<char>, ChatErrorView>(
            ChatErrorView::Configuration(ConfigError::InvalidCredential),
        ),
{
    lemma_unsafe_key_refused(config.api_key, at);
}

} // verus!
