use vstd::prelude::*;

verus! {

/// Errors that the translator can produce.
///
/// Exactly one of a success value or one of these errors is produced per
/// call; each carries a human-readable description of the failure.
#[derive(Debug, Clone)]
pub enum TranslateError {
    /// The request failed below the application layer: connection, TLS,
    /// timeout, or a non-success HTTP status.
    HttpError(String),
    /// A response arrived but could not be decoded: the body was not text,
    /// not valid JSON, or lacked the expected translated-text field.
    ParseError(String),
}

/// The mathematical view of a translate error: the kind and the message.
pub enum TranslateErrorModel {
    HttpError(Seq<char>),
    ParseError(Seq<char>),
}

impl View for TranslateError {
    type V = TranslateErrorModel;

    open spec fn view(&self) -> TranslateErrorModel {
        match self {
            TranslateError::HttpError(m) => TranslateErrorModel::HttpError(m@),
            TranslateError::ParseError(m) => TranslateErrorModel::ParseError(m@),
        }
    }
}

impl TranslateError {
    /// The description carried by this error.
    pub open spec fn spec_message(self) -> Seq<char> {
        match self {
            TranslateError::HttpError(m) => m@,
            TranslateError::ParseError(m) => m@,
        }
    }

    /// Return the description carried by this error.
    pub fn message(&self) -> (r: &str)
        ensures
            r@ == self.spec_message(),
    {
        match self {
            TranslateError::HttpError(m) => m.as_str(),
            TranslateError::ParseError(m) => m.as_str(),
        }
    }
}

} // verus!
