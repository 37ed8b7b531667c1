use opsml_cli::api::error::{Error, ModelVariant};
use opsml_cli::api::retry::attempt_message;
use opsml_cli::api::text::{chars_of, decimal_string, same_text, starts_with};

#[test]
fn every_error_has_its_message() {
    assert_eq!(
        Error::InvalidReference.message(),
        "Please provide either a uid or a name, repository, and version"
    );
    assert_eq!(
        Error::InvalidRegistry { registry: "test".to_string() }.message(),
        "Invalid registry: test. Valid registries are: data, model, run, pipeline, audit, project"
    );
    assert_eq!(
        Error::InvalidUrl { url: "nowhere".to_string() }.message(),
        "Failed to parse url: nowhere"
    );
    assert_eq!(
        Error::RequestFailed { detail: "connection refused".to_string() }.message(),
        "Failed to send request: connection refused"
    );
    assert_eq!(
        Error::ServerRejected { status: 404, body: "not found".to_string() }.message(),
        "Request failed with status 404: not found"
    );
    assert_eq!(Error::ListingError.message(), "Failed to list files");
    assert_eq!(
        Error::AuthorizationDenied { status: 403, body: "no".to_string() }.message(),
        "Failed to download model with status 403: no"
    );
    assert_eq!(Error::MalformedResponse.message(), "Failed to parse response");
    assert_eq!(
        Error::MissingVariant(ModelVariant::Onnx).message(),
        "No onnx model uri found but onnx flag set to true"
    );
    assert_eq!(
        Error::MissingVariant(ModelVariant::Quantized).message(),
        "No quantize model uri found but quantize flag set to true"
    );
    assert_eq!(
        Error::PathOutsideRoot { path: "a/b".to_string() }.message(),
        "Failed to create file path for a/b"
    );
    assert_eq!(
        Error::LocalIOError { detail: "disk full".to_string() }.message(),
        "Failed to write local file: disk full"
    );
    assert_eq!(
        Error::TransferFailed { detail: "reset".to_string() }.message(),
        "Failed to download file: reset"
    );
    assert_eq!(
        Error::ExhaustedFailure { max_attempts: 3 }.message(),
        "Failed to download file after 3 attempts"
    );
}

#[test]
fn an_attempt_is_reported_with_its_number() {
    assert_eq!(
        attempt_message(2, &Error::AuthorizationDenied { status: 500, body: "boom".to_string() }),
        "Attempt 2: Failed to download model with status 500: boom"
    );
    assert_eq!(
        attempt_message(1, &Error::TransferFailed { detail: "reset".to_string() }),
        "Attempt 1: Failed to download file: reset"
    );
}

#[test]
fn numerals_are_decimal() {
    assert_eq!(decimal_string(0), "0");
    assert_eq!(decimal_string(7), "7");
    assert_eq!(decimal_string(9), "9");
    assert_eq!(decimal_string(10), "10");
    assert_eq!(decimal_string(404), "404");
    assert_eq!(decimal_string(65535), "65535");
    assert_eq!(decimal_string(1234567890), "1234567890");
    assert_eq!(decimal_string(u64::MAX), "18446744073709551615");
}

#[test]
fn characters_and_prefixes() {
    assert_eq!(chars_of("a\u{e9}/"), vec!['a', '\u{e9}', '/']);
    assert_eq!(chars_of(""), Vec::<char>::new());
    assert!(starts_with(&chars_of("abc"), &chars_of("ab")));
    assert!(starts_with(&chars_of("abc"), &chars_of("")));
    assert!(starts_with(&chars_of("abc"), &chars_of("abc")));
    assert!(!starts_with(&chars_of("abc"), &chars_of("abcd")));
    assert!(!starts_with(&chars_of("abc"), &chars_of("b")));
    assert!(same_text("model", "model"));
    assert!(!same_text("model", "models"));
    assert!(!same_text("model", "modal"));
    assert!(same_text("", ""));
}
