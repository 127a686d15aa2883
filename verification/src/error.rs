//! The ways in which an exchange with the service can fail.

use crate::decimal::{decimal, decimal_text};
use vstd::prelude::*;

verus! {

/// Why no usable configuration could be had.
#[derive(Debug, Clone, Copy, PartialEq, Eq, Structural)]
pub enum ConfigError {
    /// The configuration file could not be opened or read.
    NotFound,
    /// The file is no configuration: it does not parse, or a required field
    /// is missing, is no string or is empty.
    Malformed,
    /// The API key cannot stand in a header value.
    InvalidCredential,
}

/// Why an exchange produced no answer.
#[derive(Debug, PartialEq, Eq)]
pub enum ChatError {
    /// The configuration could not be loaded or used.
    Configuration(ConfigError),
    /// The request did not reach the service, or no response came back.
    Network,
    /// The service answered with a status other than 200.
    ServiceRejected { status: u16, body: String },
    /// The service answered 200 with a body that holds no answer.
    MalformedResponse,
}

/// The mathematical value of a [`ChatError`].
pub enum ChatErrorView {
    Configuration(ConfigError),
    Network,
    ServiceRejected { status: u16, body: Seq<char> },
    MalformedResponse,
}

impl View for ChatError {
    type V = ChatErrorView;

    open spec fn view(&self) -> ChatErrorView {
        match self {
            ChatError::Configuration(cause) => ChatErrorView::Configuration(*cause),
            ChatError::Network => ChatErrorView::Network,
            ChatError::ServiceRejected { status, body } => ChatErrorView::ServiceRejected {
                status: *status,
                body: body@,
            },
            ChatError::MalformedResponse => ChatErrorView::MalformedResponse,
        }
    }
}

/// The value of an exchange's outcome: the answer's characters, or the error.
pub open spec fn outcome_view(outcome: Result<String, ChatError>) -> Result<
    Seq<char>,
    ChatErrorView,
> {
    match outcome {
        Ok(answer) => Ok(answer@),
        Err(error) => Err(error@),
    }
}

/// A line for the user that names the kind of failure and, for a rejection,
/// gives the status and the body.
pub open spec fn description(error: ChatErrorView) -> Seq<char> {
    match error {
        ChatErrorView::Configuration(ConfigError::NotFound) =>
            "the configuration file could not be read"@,
        ChatErrorView::Configuration(ConfigError::Malformed) =>
            "the configuration file is malformed"@,
        ChatErrorView::Configuration(ConfigError::InvalidCredential) =>
            "the API key cannot be sent in a header"@,
        ChatErrorView::Network => "the service could not be reached"@,
        ChatErrorView::ServiceRejected { status, body } => "the service answered with status "@
            + decimal_text(status as nat) + ": "@ + body,
        ChatErrorView::MalformedResponse => "the response of the service holds no answer"@,
    }
}

impl ChatError {
    /// Describes the error in a line for the user.
    pub fn describe(&self) -> (text: String)
        ensures
            text@ == description(self@),
    {
        match self {
            ChatError::Configuration(ConfigError::NotFound) =>
                "the configuration file could not be read".to_owned(),
            ChatError::Configuration(ConfigError::Malformed) =>
                "the configuration file is malformed".to_owned(),
            ChatError::Configuration(ConfigError::InvalidCredential) =>
                "the API key cannot be sent in a header".to_owned(),
            ChatError::Network => "the service could not be reached".to_owned(),
            ChatError::ServiceRejected { status, body } => {
                let mut text = "the service answered with status ".to_owned();
                text.append(decimal(*status).as_str());
                text.append(": ");
                text.append(body.as_str());
                text
            },
            ChatError::MalformedResponse => "the response of the service holds no answer".to_owned(),
        }
    }
}

} // verus!
