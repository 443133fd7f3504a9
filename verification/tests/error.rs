use utc_fetcher::error::OneLineFormatter;
use utc_fetcher::http::ReadError;
use utc_fetcher::server::{Error as ServerError, FormError};

#[test]
fn an_error_and_its_causes_are_joined_by_colons() {
    let line = OneLineFormatter::new(vec![
        "Wi-Fi error".to_string(),
        "Failed to start WiFi".to_string(),
        "ESP_ERR_TIMEOUT".to_string(),
    ]);
    assert_eq!(line.to_string(), "Wi-Fi error: Failed to start WiFi: ESP_ERR_TIMEOUT");
}

#[test]
fn an_error_without_causes_is_its_own_message() {
    let line = OneLineFormatter::new(vec!["Failed to get credentials".to_string()]);
    assert_eq!(line.to_string(), "Failed to get credentials");
}

#[test]
fn no_message_gives_an_empty_line() {
    assert_eq!(OneLineFormatter::new(vec![]).to_string(), "");
}

#[test]
fn an_empty_message_still_gets_its_colon() {
    let line = OneLineFormatter::new(vec!["a".to_string(), String::new(), "c".to_string()]);
    assert_eq!(line.to_string(), "a: : c");
}

#[test]
fn a_cause_is_put_behind_its_error() {
    let messages = utc_fetcher::error::caused("outer", vec!["inner".to_string(), "root".to_string()]);
    assert_eq!(messages, vec!["outer".to_string(), "inner".to_string(), "root".to_string()]);
    assert_eq!(utc_fetcher::error::uncaused("alone"), vec!["alone".to_string()]);
}

#[test]
fn the_failures_of_the_interface_say_what_failed() {
    assert_eq!(utc_fetcher::wifi::Error::Setup(1).message(), "Failed to set up ESP WiFi");
    assert_eq!(utc_fetcher::wifi::Error::Wrap(1).message(), "Failed to wrap ESP WiFi");
    assert_eq!(utc_fetcher::wifi::Error::Scan(1).message(), "Failed to scan WiFi");
    assert_eq!(utc_fetcher::wifi::Error::Start(1).message(), "Failed to start WiFi");
    assert_eq!(utc_fetcher::wifi::Error::Connect(1).message(), "Failed to connect to WiFi");
    assert_eq!(utc_fetcher::wifi::Error::Configuration(1).message(), "Failed to configure ESP WiFI");
    assert_eq!(utc_fetcher::wifi::Error::WaitStart.message(), "Failed to wait WiFi start");
    assert_eq!(utc_fetcher::wifi::Error::WaitConnect.message(), "Failed to wait WiFi set up");
    assert_eq!(utc_fetcher::wifi::Error::WaitStart.chain(), vec!["Failed to wait WiFi start".to_string()]);
}

#[test]
fn the_failures_of_the_portal_say_what_failed() {
    assert_eq!(ServerError::HttpHandle(1).message(), "Failed to setup HTTP client");
    assert_eq!(ServerError::SetupEspServer(1).message(), "Failed to setup ESP server");
    assert_eq!(ServerError::NoCredentials.message(), "Failed to get credentials");
    assert_eq!(ServerError::Write(1).message(), "Failed to write a response content");
    assert_eq!(ServerError::OkResp(1).message(), "Failed to initiate a response");
    assert_eq!(ServerError::Serialize(FormError::Malformed).message(), "Failed to serialize credentials");
    assert_eq!(ServerError::Read(ReadError::Empty).message(), "Failed to read a request body");
    assert_eq!(ServerError::Scan(utc_fetcher::wifi::Error::Scan(1)).message(), "Failed to scan WiFi");
    assert_eq!(FormError::MissingName.message(), "missing field `name`");
    assert_eq!(FormError::MissingSecret.message(), "missing field `secret`");
    assert_eq!(FormError::DuplicateName.message(), "duplicate field `name`");
    assert_eq!(FormError::DuplicateSecret.message(), "duplicate field `secret`");
    assert_eq!(FormError::NameTooLong.message(), "the name is longer than 32 bytes");
    assert_eq!(FormError::SecretTooLong.message(), "the secret is longer than 64 bytes");
    assert_eq!(FormError::Malformed.message(), "the body is no form");
    assert_eq!(ReadError::Empty.message(), "The stream held no bytes");
    assert_eq!(ReadError::Source.message(), "The source failed");
}

#[test]
fn the_failures_of_the_time_service_say_what_failed() {
    assert_eq!(utc_fetcher::time::Error::InitiateResponse(1).message(), "Failed to initiate response");
    assert_eq!(utc_fetcher::time::Error::SubmitRequest(1).message(), "Failed to submit request");
    assert_eq!(utc_fetcher::time::Error::Read(ReadError::Empty).message(), "Failed to read response");
    assert_eq!(utc_fetcher::time::Error::TimeResultDeserialize.message(), "Failed to parse response as `TimeResult`");
    assert_eq!(utc_fetcher::time::Error::DateTimeParse.message(), "Failed to parse date/time");
    assert_eq!(
        OneLineFormatter::new(utc_fetcher::time::Error::Read(ReadError::Source).chain()).to_string(),
        "Failed to read response: The source failed"
    );
    assert_eq!(
        OneLineFormatter::new(utc_fetcher::time::Error::DateTimeParse.chain()).to_string(),
        "Failed to parse date/time"
    );
}

#[test]
fn a_failure_of_the_provisioning_is_written_with_its_causes() {
    let e = utc_fetcher::cycle::Error::Server(utc_fetcher::server::Error::Serialize(FormError::MissingSecret));
    assert_eq!(e.message(), "Server error");
    assert_eq!(
        OneLineFormatter::new(e.chain()).to_string(),
        "Server error: Failed to serialize credentials: missing field `secret`"
    );
    let e = utc_fetcher::cycle::Error::WiFi(utc_fetcher::wifi::Error::WaitConnect);
    assert_eq!(e.message(), "Wi-Fi error");
    assert_eq!(OneLineFormatter::new(e.chain()).to_string(), "Wi-Fi error: Failed to wait WiFi set up");
    let e = utc_fetcher::cycle::Error::Server(utc_fetcher::server::Error::Scan(utc_fetcher::wifi::Error::Scan(3)));
    assert_eq!(OneLineFormatter::new(e.chain()).to_string(), "Server error: Failed to scan WiFi");
    let e = utc_fetcher::cycle::Error::Server(utc_fetcher::server::Error::NoCredentials);
    assert_eq!(OneLineFormatter::new(e.chain()).to_string(), "Server error: Failed to get credentials");
}

#[test]
fn a_failure_of_the_platform_keeps_the_code_it_came_with() {
    assert_eq!(utc_fetcher::wifi::Error::Start(259).code(), Some(259));
    assert_eq!(utc_fetcher::wifi::Error::WaitStart.code(), None);
    assert_eq!(utc_fetcher::wifi::Error::WaitConnect.code(), None);
    assert_eq!(ServerError::SetupEspServer(-1).code(), Some(-1));
    assert_eq!(ServerError::Scan(utc_fetcher::wifi::Error::Scan(7)).code(), Some(7));
    assert_eq!(ServerError::NoCredentials.code(), None);
    assert_eq!(ServerError::Serialize(FormError::MissingName).code(), None);
    assert_eq!(utc_fetcher::time::Error::SubmitRequest(5).code(), Some(5));
    assert_eq!(utc_fetcher::time::Error::DateTimeParse.code(), None);
    assert_eq!(utc_fetcher::cycle::Error::WiFi(utc_fetcher::wifi::Error::Connect(3)).code(), Some(3));
    assert_eq!(utc_fetcher::cycle::Error::Server(ServerError::Write(4)).code(), Some(4));
}
