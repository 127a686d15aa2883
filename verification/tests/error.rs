use chat_client::decimal::decimal;
use chat_client::error::{ChatError, ConfigError};

#[test]
fn numbers_are_written_in_decimal() {
    assert_eq!(decimal(0), "0");
    assert_eq!(decimal(7), "7");
    assert_eq!(decimal(9), "9");
    assert_eq!(decimal(10), "10");
    assert_eq!(decimal(200), "200");
    assert_eq!(decimal(401), "401");
    assert_eq!(decimal(1000), "1000");
    assert_eq!(decimal(65535), "65535");
}

#[test]
fn decimal_agrees_with_the_standard_formatting() {
    for n in (0u16..=999).chain([1000, 4096, 9999, 10000, 32768, 65534, 65535]) {
        assert_eq!(decimal(n), n.to_string());
    }
}

#[test]
fn each_kind_of_error_has_its_description() {
    assert_eq!(
        ChatError::Configuration(ConfigError::NotFound).describe(),
        "the configuration file could not be read"
    );
    assert_eq!(
        ChatError::Configuration(ConfigError::Malformed).describe(),
        "the configuration file is malformed"
    );
    assert_eq!(
        ChatError::Configuration(ConfigError::InvalidCredential).describe(),
        "the API key cannot be sent in a header"
    );
    assert_eq!(ChatError::Network.describe(), "the service could not be reached");
    assert_eq!(
        ChatError::MalformedResponse.describe(),
        "the response of the service holds no answer"
    );
}

#[test]
fn rejection_is_described_with_status_and_body() {
    let error =
        ChatError::ServiceRejected { status: 401, body: "{\"error\":\"invalid key\"}".to_string() };
    assert_eq!(
        error.describe(),
        "the service answered with status 401: {\"error\":\"invalid key\"}"
    );
    let error = ChatError::ServiceRejected { status: 503, body: String::new() };
    assert_eq!(error.describe(), "the service answered with status 503: ");
}

#[test]
fn descriptions_tell_the_kinds_apart() {
    let errors = [
        ChatError::Configuration(ConfigError::NotFound),
        ChatError::Configuration(ConfigError::Malformed),
        ChatError::Configuration(ConfigError::InvalidCredential),
        ChatError::Network,
        ChatError::ServiceRejected { status: 500, body: String::new() },
        ChatError::MalformedResponse,
    ];
    for (i, a) in errors.iter().enumerate() {
        assert!(!a.describe().is_empty());
        for b in &errors[i + 1..] {
            assert_ne!(a.describe(), b.describe());
        }
    }
}
