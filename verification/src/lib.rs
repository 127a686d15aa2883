//! The request/response pipeline of a single-turn chat-completion client.

pub mod config;
pub mod decimal;
pub mod error;
pub mod exchange;
pub mod headers;
pub mod json;
pub mod request;
pub mod response;

pub use exchange::get_answer;
