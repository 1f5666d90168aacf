//! A client binding for a remote text-translation HTTP service.
//!
//! The library composes the JSON request payload for a translation, and
//! decodes the transport's response into either a completed [`Translator`]
//! value or a [`TranslateError`]. The network call itself is left to the
//! caller: the whole round trip is one request and one response, and the
//! decision taken on each possible response is verified here.

pub mod error;
pub mod json;
pub mod lang;
pub mod translator;

pub use error::TranslateError;
pub use lang::Language;
pub use translator::Response;
pub use translator::Translator;
