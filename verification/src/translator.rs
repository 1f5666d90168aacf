use vstd::prelude::*;
use vstd::string::StringExecFns;

use crate::error::{TranslateError, TranslateErrorModel};
use crate::json::{
    encode_object3, json_object3, json_parse_error, json_string_field, lookup_string_field,
    FieldLookup,
};
use crate::lang::Language;

verus! {

/// A completed translation: the two languages and the input echoed from
/// the request, and the translated text extracted from the response.
pub struct Translator {
    pub source: Language,
    pub target: Language,
    pub input: String,
    pub output: String,
}

/// The mathematical view of a completed translation.
pub struct TranslatorModel {
    pub source: Language,
    pub target: Language,
    pub input: Seq<char>,
    pub output: Seq<char>,
}

impl View for Translator {
    type V = TranslatorModel;

    open spec fn view(&self) -> TranslatorModel {
        TranslatorModel {
            source: self.source,
            target: self.target,
            input: self.input@,
            output: self.output@,
        }
    }
}

/// What the transport capability handed back for one request.
///
/// The capability owes the library either the response body as text or a
/// description of why no text arrived; the library decides everything
/// after that point.
pub enum Response {
    /// The request failed below the application layer; carries the
    /// transport's description of the failure.
    Failure(String),
    /// A response arrived, but its body could not be read as text;
    /// carries the description of the defect.
    NotText(String),
    /// The response body, as text.
    Body(String),
}

/// The mathematical view of a transport response.
pub enum ResponseModel {
    Failure(Seq<char>),
    NotText(Seq<char>),
    Body(Seq<char>),
}

impl View for Response {
    type V = ResponseModel;

    open spec fn view(&self) -> ResponseModel {
        match self {
            Response::Failure(m) => ResponseModel::Failure(m@),
            Response::NotText(m) => ResponseModel::NotText(m@),
            Response::Body(b) => ResponseModel::Body(b@),
        }
    }
}

/// The error message used when a response decodes as JSON but holds no
/// `translatedText` string field.
pub open spec fn missing_field_message() -> Seq<char> {
    "translatedText missing or wrong type"@
}

/// The view of a translation outcome: views of the value and of the error.
pub open spec fn outcome_view(r: Result<Translator, TranslateError>) -> Result<
    TranslatorModel,
    TranslateErrorModel,
> {
    match r {
        Ok(t) => Ok(t@),
        Err(e) => Err(e@),
    }
}

impl Translator {
    /// The request payload for translating `input` from `source` to
    /// `target`: a JSON object with the fields `q`, `source` and `target`.
    pub open spec fn spec_request_body(
        source: Language,
        target: Language,
        input: Seq<char>,
    ) -> Seq<char> {
        json_object3(
            "q"@,
            input,
            "source"@,
            source.spec_code(),
            "target"@,
            target.spec_code(),
        )
    }

    /// What each possible transport response means: a transport failure is
    /// an `HttpError`; a body that is not text, not valid JSON, or lacks a
    /// top-level `translatedText` string field is a `ParseError`; and a
    /// body with that field completes the translation.
    pub open spec fn spec_translate(
        source: Language,
        target: Language,
        input: Seq<char>,
        response: ResponseModel,
    ) -> Result<TranslatorModel, TranslateErrorModel> {
        match response {
            ResponseModel::Failure(m) => Err(TranslateErrorModel::HttpError(m)),
            ResponseModel::NotText(m) => Err(TranslateErrorModel::ParseError(m)),
            ResponseModel::Body(b) => match json_parse_error(b) {
                Some(m) => Err(TranslateErrorModel::ParseError(m)),
                None => match json_string_field(b, "translatedText"@) {
                    Some(t) => Ok(
                        TranslatorModel { source, target, input, output: t },
                    ),
                    None => Err(TranslateErrorModel::ParseError(missing_field_message())),
                },
            },
        }
    }

    /// Build the JSON request payload for one translation.
    pub fn request_body(source: Language, target: Language, input: &str) -> (r: String)
        ensures
            r@ == Self::spec_request_body(source, target, input@),
    {
        encode_object3("q", input, "source", source.code(), "target", target.code())
    }

    /// Decide the outcome that the transport's response calls for.
    ///
    /// The transport capability performs the one outbound request and
    /// hands its outcome here; this function takes every decision that
    /// follows, as [`Translator::spec_translate`] states.
    pub fn from_response(
        source: Language,
        target: Language,
        input: &str,
        response: Response,
    ) -> (r: Result<Translator, TranslateError>)
        ensures
            outcome_view(r) == Self::spec_translate(source, target, input@, response@),
    {
        match response {
            Response::Failure(m) => Err(TranslateError::HttpError(m)),
            Response::NotText(m) => Err(TranslateError::ParseError(m)),
            Response::Body(b) => match lookup_string_field(b.as_str(), "translatedText") {
                FieldLookup::NotJson(m) => Err(TranslateError::ParseError(m)),
                FieldLookup::Found(t) => Ok(
                    Translator { source, target, input: String::from_str(input), output: t },
                ),
                FieldLookup::Absent => Err(
                    TranslateError::ParseError(
                        String::from_str("translatedText missing or wrong type"),
                    ),
                ),
            },
        }
    }
}

/// Every translation outcome is one typed value, never a partial result:
/// a transport failure yields exactly `HttpError` with the transport's
/// description; a body that is not text, is not valid JSON, or lacks a
/// top-level `translatedText` string field yields exactly `ParseError`
/// with the matching message; and a body with that field yields exactly
/// the completed translation, its languages and input echoed unchanged.
pub proof fn lemma_translate_outcome_classified(
    source: Language,
    target: Language,
    input: Seq<char>,
    response: ResponseModel,
)
    ensures
        response matches ResponseModel::Failure(m) ==> Translator::spec_translate(
            source,
            target,
            input,
            response,
        ) == Err::<TranslatorModel, TranslateErrorModel>(TranslateErrorModel::HttpError(m)),
        response matches ResponseModel::NotText(m) ==> Translator::spec_translate(
            source,
            target,
            input,
            response,
        ) == Err::<TranslatorModel, TranslateErrorModel>(TranslateErrorModel::ParseError(m)),
        response matches ResponseModel::Body(b) ==> (json_parse_error(b) matches Some(m)
            ==> Translator::spec_translate(source, target, input, response) == Err::<
            TranslatorModel,
            TranslateErrorModel,
        >(TranslateErrorModel::ParseError(m))),
        response matches ResponseModel::Body(b) ==> (json_parse_error(b) is None ==> (
        json_string_field(b, "translatedText"@) matches Some(t) ==> Translator::spec_translate(
            source,
            target,
            input,
            response,
        ) == Ok::<TranslatorModel, TranslateErrorModel>(
            (TranslatorModel { source, target, input, output: t }),
        ))),
        response matches ResponseModel::Body(b) ==> (json_parse_error(b) is None
            && json_string_field(b, "translatedText"@) is None ==> Translator::spec_translate(
            source,
            target,
            input,
            response,
        ) == Err::<TranslatorModel, TranslateErrorModel>(
            TranslateErrorModel::ParseError(missing_field_message()),
        )),
{
}

} // verus!
