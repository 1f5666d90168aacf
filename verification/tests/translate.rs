use libretranslate::{Language, Response, TranslateError, Translator};

const ALL_LANGUAGES: [Language; 9] = [
    Language::English,
    Language::Arabic,
    Language::Chinese,
    Language::French,
    Language::German,
    Language::Italian,
    Language::Portuguese,
    Language::Russain,
    Language::Spanish,
];

#[test]
fn language_codes_are_exact() {
    assert_eq!(Language::English.code(), "en");
    assert_eq!(Language::Arabic.code(), "ar");
    assert_eq!(Language::Chinese.code(), "zh");
    assert_eq!(Language::French.code(), "fr");
    assert_eq!(Language::German.code(), "de");
    assert_eq!(Language::Italian.code(), "it");
    assert_eq!(Language::Portuguese.code(), "pt");
    assert_eq!(Language::Russain.code(), "rs");
    assert_eq!(Language::Spanish.code(), "es");
}

#[test]
fn language_pretty_names_are_exact() {
    assert_eq!(Language::English.pretty(), "English");
    assert_eq!(Language::Arabic.pretty(), "Arabic");
    assert_eq!(Language::Chinese.pretty(), "Chinese");
    assert_eq!(Language::French.pretty(), "French");
    assert_eq!(Language::German.pretty(), "German");
    assert_eq!(Language::Italian.pretty(), "Italian");
    assert_eq!(Language::Portuguese.pretty(), "Portuguese");
    assert_eq!(Language::Russain.pretty(), "Russain");
    assert_eq!(Language::Spanish.pretty(), "Spanish");
}

#[test]
fn language_tables_are_unique_and_well_formed() {
    for a in ALL_LANGUAGES {
        assert_eq!(a.code().len(), 2);
        assert!(!a.pretty().is_empty());
        for b in ALL_LANGUAGES {
            if a != b {
                assert_ne!(a.code(), b.code());
                assert_ne!(a.pretty(), b.pretty());
            }
        }
    }
}

#[test]
fn language_lookups_are_repeatable() {
    for language in ALL_LANGUAGES {
        assert_eq!(language.code(), language.code());
        assert_eq!(language.pretty(), language.pretty());
    }
}

#[test]
fn empty_input_translates_to_empty_output() {
    let response = Response::Body("{\"translatedText\": \"\"}".to_string());
    let result = Translator::from_response(Language::English, Language::Spanish, "", response);
    let translation = result.unwrap();
    assert_eq!(translation.input, "");
    assert_eq!(translation.output, "");
}

#[test]
fn transport_failure_is_http_error() {
    let response = Response::Failure("connection refused".to_string());
    let result = Translator::from_response(Language::English, Language::German, "hi", response);
    match result {
        Err(TranslateError::HttpError(message)) => assert_eq!(message, "connection refused"),
        _ => panic!("expected an HttpError"),
    }
}

#[test]
fn unreadable_body_is_parse_error() {
    let response = Response::NotText("stream did not contain valid UTF-8".to_string());
    let result = Translator::from_response(Language::English, Language::German, "hi", response);
    match result {
        Err(TranslateError::ParseError(message)) => {
            assert_eq!(message, "stream did not contain valid UTF-8");
        }
        _ => panic!("expected a ParseError"),
    }
}

#[test]
fn non_json_body_is_parse_error() {
    let response = Response::Body("<html>502 Bad Gateway</html>".to_string());
    let result = Translator::from_response(Language::French, Language::Italian, "hi", response);
    assert!(matches!(result, Err(TranslateError::ParseError(_))));
}

#[test]
fn body_without_translated_text_is_parse_error() {
    let response = Response::Body("{\"detectedLanguage\": \"pt\"}".to_string());
    let result = Translator::from_response(Language::Portuguese, Language::English, "hi", response);
    match result {
        Err(TranslateError::ParseError(message)) => {
            assert_eq!(message, "translatedText missing or wrong type");
        }
        _ => panic!("expected a ParseError"),
    }
}

#[test]
fn non_string_translated_text_is_parse_error() {
    let response = Response::Body("{\"translatedText\": 3}".to_string());
    let result = Translator::from_response(Language::Portuguese, Language::English, "hi", response);
    match result {
        Err(TranslateError::ParseError(message)) => {
            assert_eq!(message, "translatedText missing or wrong type");
        }
        _ => panic!("expected a ParseError"),
    }
}

#[test]
fn hello_world_scenario() {
    let response = Response::Body("{\"translatedText\":\"Hello world!\"}".to_string());
    let result = Translator::from_response(
        Language::Portuguese,
        Language::English,
        "Ol\u{e1} Mundo!",
        response,
    );
    let translation = result.unwrap();
    assert_eq!(translation.source, Language::Portuguese);
    assert_eq!(translation.target, Language::English);
    assert_eq!(translation.input, "Ol\u{e1} Mundo!");
    assert_eq!(translation.output, "Hello world!");
}

#[test]
fn extra_response_fields_are_ignored() {
    let response = Response::Body(
        "{\"alternatives\":[\"Hi\"],\"translatedText\":\"Hello\",\"z\":null}".to_string(),
    );
    let result = Translator::from_response(Language::German, Language::English, "Hallo", response);
    assert_eq!(result.unwrap().output, "Hello");
}

#[test]
fn request_body_is_compact_json() {
    let body = Translator::request_body(Language::English, Language::Spanish, "hi");
    assert_eq!(body, "{\"q\":\"hi\",\"source\":\"en\",\"target\":\"es\"}");
}

#[test]
fn request_body_escapes_the_input() {
    let body = Translator::request_body(Language::English, Language::Spanish, "a\"b\\");
    assert_eq!(body, "{\"q\":\"a\\\"b\\\\\",\"source\":\"en\",\"target\":\"es\"}");
}

#[test]
fn error_message_is_the_carried_description() {
    let http = TranslateError::HttpError("timed out".to_string());
    assert_eq!(http.message(), "timed out");
    let parse = TranslateError::ParseError("bad body".to_string());
    assert_eq!(parse.message(), "bad body");
}
