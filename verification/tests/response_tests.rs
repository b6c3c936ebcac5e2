use yup_oauth2::json::{parse_object, Member};
use yup_oauth2::response::{
    decode_code_response, decode_token_response, expiry_after, read_optional_integer,
    read_optional_text, read_reported_error, read_required_integer, read_required_text,
    read_text_if_any, read_verification_address, unsigned_magnitude, DEFAULT_EXPIRES_IN,
};
use yup_oauth2::types::{AuthError, Error, Field, JsonError, PollInformation, Token};

fn members(text: &str) -> Vec<(String, Member)> {
    parse_object(text.as_bytes()).unwrap()
}

fn text(name: &str, value: &str) -> (String, Member) {
    (name.to_string(), Member::Text(value.to_string()))
}

fn number(name: &str, value: i64) -> (String, Member) {
    (name.to_string(), Member::Number(Some(value)))
}

fn code_members(interval: i64) -> Vec<(String, Member)> {
    vec![
        text("device_code", "d"),
        text("user_code", "u"),
        text("verification_uri", "https://x/verify"),
        number("interval", interval),
    ]
}

fn without(mut members: Vec<(String, Member)>, name: &str) -> Vec<(String, Member)> {
    members.retain(|member| member.0 != name);
    members
}

fn with(mut members: Vec<(String, Member)>, name: &str, value: Member) -> Vec<(String, Member)> {
    members.retain(|member| member.0 != name);
    members.push((name.to_string(), value));
    members
}

fn token_members() -> Vec<(String, Member)> {
    vec![text("access_token", "a"), text("token_type", "Bearer"), number("expires_in", 100)]
}

#[test]
fn code_response_decodes_its_members() {
    let response = members(
        r#"{"device_code": "devicecode", "user_code": "usercode", "verification_url": "https://example.com/verify", "expires_in": 1234567, "interval": 1}"#,
    );
    let (information, device_code) = decode_code_response(&response, 1_000_000).unwrap();
    assert_eq!(device_code, "devicecode");
    assert_eq!(
        information,
        PollInformation {
            user_code: "usercode".to_string(),
            verification_url: "https://example.com/verify".to_string(),
            expires_at: 2_234_567,
            interval: 1,
        }
    );
}

#[test]
fn code_response_expires_at_receipt_plus_lifetime() {
    let response = with(code_members(5), "expires_in", Member::Number(Some(100)));
    for now in [0, 1, 1_700_000_000, -50] {
        let (information, _) = decode_code_response(&response, now).unwrap();
        assert_eq!(information.expires_at, now + 100);
    }
}

#[test]
fn code_response_without_lifetime_expires_after_an_hour() {
    assert_eq!(DEFAULT_EXPIRES_IN, 3600);
    let (information, _) = decode_code_response(&code_members(5), 1_700_000_000).unwrap();
    assert_eq!(information.expires_at, 1_700_003_600);
    let null = with(code_members(5), "expires_in", Member::Null);
    let (information, _) = decode_code_response(&null, 10).unwrap();
    assert_eq!(information.expires_at, 3610);
}

#[test]
fn code_response_takes_a_negative_lifetime_as_it_is() {
    let response = with(code_members(5), "expires_in", Member::Number(Some(-10)));
    let (information, _) = decode_code_response(&response, 100).unwrap();
    assert_eq!(information.expires_at, 90);
}

#[test]
fn code_response_stores_the_absolute_interval() {
    for (given, stored) in [(0, 0u64), (1, 1), (-1, 1), (5, 5), (-30, 30), (i64::MAX, 9223372036854775807), (i64::MIN, 9223372036854775808)] {
        let (information, _) = decode_code_response(&code_members(given), 0).unwrap();
        assert_eq!(information.interval, stored);
    }
}

#[test]
fn unsigned_magnitude_is_the_absolute_value() {
    assert_eq!(unsigned_magnitude(0), 0);
    assert_eq!(unsigned_magnitude(7), 7);
    assert_eq!(unsigned_magnitude(-7), 7);
    assert_eq!(unsigned_magnitude(i64::MAX), 9223372036854775807);
    assert_eq!(unsigned_magnitude(i64::MIN + 1), 9223372036854775807);
    assert_eq!(unsigned_magnitude(i64::MIN), 9223372036854775808);
}

#[test]
fn code_response_accepts_either_name_of_the_address() {
    let standard = code_members(1);
    assert_eq!(decode_code_response(&standard, 0).unwrap().0.verification_url, "https://x/verify");
    let legacy = with(without(code_members(1), "verification_uri"), "verification_url", Member::Text("https://legacy".to_string()));
    assert_eq!(decode_code_response(&legacy, 0).unwrap().0.verification_url, "https://legacy");
    let both = with(code_members(1), "verification_url", Member::Text("https://legacy".to_string()));
    assert_eq!(decode_code_response(&both, 0).unwrap().0.verification_url, "https://x/verify");
    assert_eq!(read_verification_address(&both), Ok("https://x/verify".to_string()));
}

#[test]
fn code_response_does_not_fall_back_from_an_invalid_address() {
    let response = with(with(code_members(1), "verification_uri", Member::Number(Some(1))), "verification_url", Member::Text("https://legacy".to_string()));
    assert_eq!(decode_code_response(&response, 0), Err(Error::JSONError(JsonError::InvalidField(Field::VerificationUri))));
    let legacy = with(without(code_members(1), "verification_uri"), "verification_url", Member::Null);
    assert_eq!(decode_code_response(&legacy, 0), Err(Error::JSONError(JsonError::InvalidField(Field::VerificationUrl))));
}

#[test]
fn code_response_names_the_missing_member() {
    for (name, field) in [
        ("device_code", Field::DeviceCode),
        ("user_code", Field::UserCode),
        ("verification_uri", Field::VerificationUri),
        ("interval", Field::Interval),
    ] {
        let response = without(code_members(1), name);
        assert_eq!(decode_code_response(&response, 0), Err(Error::JSONError(JsonError::MissingField(field))));
    }
    assert_eq!(decode_code_response(&vec![], 0), Err(Error::JSONError(JsonError::MissingField(Field::DeviceCode))));
}

#[test]
fn code_response_names_the_invalid_member() {
    for (name, value, field) in [
        ("device_code", Member::Null, Field::DeviceCode),
        ("user_code", Member::Number(Some(1)), Field::UserCode),
        ("verification_uri", Member::Array, Field::VerificationUri),
        ("expires_in", Member::Text("100".to_string()), Field::ExpiresIn),
        ("expires_in", Member::Number(None), Field::ExpiresIn),
        ("interval", Member::Null, Field::Interval),
        ("interval", Member::Number(None), Field::Interval),
        ("interval", Member::Text("5".to_string()), Field::Interval),
        ("interval", Member::Bool(true), Field::Interval),
        ("interval", Member::Object, Field::Interval),
    ] {
        let response = with(code_members(1), name, value);
        assert_eq!(decode_code_response(&response, 0), Err(Error::JSONError(JsonError::InvalidField(field))));
    }
}

#[test]
fn code_response_reports_the_first_failing_member() {
    let response = vec![text("device_code", "d"), number("user_code", 1)];
    assert_eq!(decode_code_response(&response, 0), Err(Error::JSONError(JsonError::InvalidField(Field::UserCode))));
}

#[test]
fn code_response_rejects_an_expiry_out_of_range() {
    let response = with(code_members(1), "expires_in", Member::Number(Some(i64::MAX)));
    assert_eq!(decode_code_response(&response, 1), Err(Error::JSONError(JsonError::ExpiryOutOfRange)));
    assert!(decode_code_response(&response, 0).is_ok());
    let early = with(code_members(1), "expires_in", Member::Number(Some(i64::MIN)));
    assert_eq!(decode_code_response(&early, -1), Err(Error::JSONError(JsonError::ExpiryOutOfRange)));
    assert_eq!(decode_code_response(&code_members(1), i64::MAX - 3599), Err(Error::JSONError(JsonError::ExpiryOutOfRange)));
    assert_eq!(decode_code_response(&code_members(1), i64::MAX - 3600).unwrap().0.expires_at, i64::MAX);
}

#[test]
fn expiry_after_adds_or_fails() {
    assert_eq!(expiry_after(1000, 100), Ok(1100));
    assert_eq!(expiry_after(1000, -100), Ok(900));
    assert_eq!(expiry_after(i64::MAX, 1), Err(JsonError::ExpiryOutOfRange));
    assert_eq!(expiry_after(i64::MIN, -1), Err(JsonError::ExpiryOutOfRange));
}

#[test]
fn code_response_with_error_is_that_error() {
    let response = members(r#"{"error": "invalid_client_id", "error_description": "description"}"#);
    assert_eq!(
        decode_code_response(&response, 0),
        Err(Error::AuthError(AuthError {
            error: "invalid_client_id".to_string(),
            error_description: Some("description".to_string()),
            error_uri: None,
        }))
    );
}

#[test]
fn token_response_decodes_its_members() {
    let response = members(
        r#"{"access_token": "accesstoken", "refresh_token": "refreshtoken", "token_type": "Bearer", "expires_in": 1234567}"#,
    );
    assert_eq!(
        decode_token_response(&response, 1000),
        Ok(Token {
            access_token: "accesstoken".to_string(),
            refresh_token: Some("refreshtoken".to_string()),
            token_type: "Bearer".to_string(),
            expires_at: 1_235_567,
        })
    );
}

#[test]
fn token_response_may_lack_a_refresh_token() {
    assert_eq!(decode_token_response(&token_members(), 5).unwrap().refresh_token, None);
    let null = with(token_members(), "refresh_token", Member::Null);
    assert_eq!(decode_token_response(&null, 5).unwrap().refresh_token, None);
    let invalid = with(token_members(), "refresh_token", Member::Number(Some(1)));
    assert_eq!(decode_token_response(&invalid, 5), Err(Error::JSONError(JsonError::InvalidField(Field::RefreshToken))));
}

#[test]
fn token_response_names_the_missing_member() {
    for (name, field) in [
        ("access_token", Field::AccessToken),
        ("token_type", Field::TokenType),
        ("expires_in", Field::ExpiresIn),
    ] {
        let response = without(token_members(), name);
        assert_eq!(decode_token_response(&response, 0), Err(Error::JSONError(JsonError::MissingField(field))));
    }
}

#[test]
fn token_response_names_the_invalid_member() {
    for (name, value, field) in [
        ("access_token", Member::Null, Field::AccessToken),
        ("token_type", Member::Bool(false), Field::TokenType),
        ("expires_in", Member::Null, Field::ExpiresIn),
        ("expires_in", Member::Number(None), Field::ExpiresIn),
    ] {
        let response = with(token_members(), name, value);
        assert_eq!(decode_token_response(&response, 0), Err(Error::JSONError(JsonError::InvalidField(field))));
    }
}

#[test]
fn token_response_rejects_an_expiry_out_of_range() {
    assert_eq!(decode_token_response(&token_members(), i64::MAX - 99), Err(Error::JSONError(JsonError::ExpiryOutOfRange)));
    assert_eq!(decode_token_response(&token_members(), i64::MAX - 100).unwrap().expires_at, i64::MAX);
}

#[test]
fn error_takes_precedence_over_a_valid_token() {
    let response = members(
        r#"{"access_token": "a", "token_type": "Bearer", "expires_in": 100, "error": "access_denied", "error_uri": "https://x/help"}"#,
    );
    assert_eq!(
        decode_token_response(&response, 0),
        Err(Error::AuthError(AuthError {
            error: "access_denied".to_string(),
            error_description: None,
            error_uri: Some("https://x/help".to_string()),
        }))
    );
}

#[test]
fn error_of_another_kind_than_text_cannot_be_decoded() {
    for value in [Member::Null, Member::Number(Some(1)), Member::Bool(true), Member::Array, Member::Object] {
        let response = with(token_members(), "error", value);
        assert_eq!(decode_token_response(&response, 0), Err(Error::JSONError(JsonError::InvalidField(Field::Error))));
        assert_eq!(read_reported_error(&response), Some(Error::JSONError(JsonError::InvalidField(Field::Error))));
    }
}

#[test]
fn reported_error_ignores_a_description_that_is_no_text() {
    let response = vec![text("error", "slow_down"), number("error_description", 5), ("error_uri".to_string(), Member::Null)];
    assert_eq!(
        read_reported_error(&response),
        Some(Error::AuthError(AuthError { error: "slow_down".to_string(), error_description: None, error_uri: None }))
    );
    assert_eq!(read_reported_error(&token_members()), None);
}

#[test]
fn readers_tell_absent_null_and_invalid_apart() {
    let response = vec![text("access_token", "a"), ("refresh_token".to_string(), Member::Null), number("expires_in", 3), ("interval".to_string(), Member::Number(None))];
    assert_eq!(read_required_text(&response, Field::AccessToken), Ok("a".to_string()));
    assert_eq!(read_required_text(&response, Field::RefreshToken), Err(JsonError::InvalidField(Field::RefreshToken)));
    assert_eq!(read_required_text(&response, Field::TokenType), Err(JsonError::MissingField(Field::TokenType)));
    assert_eq!(read_optional_text(&response, Field::AccessToken), Ok(Some("a".to_string())));
    assert_eq!(read_optional_text(&response, Field::RefreshToken), Ok(None));
    assert_eq!(read_optional_text(&response, Field::TokenType), Ok(None));
    assert_eq!(read_optional_text(&response, Field::ExpiresIn), Err(JsonError::InvalidField(Field::ExpiresIn)));
    assert_eq!(read_text_if_any(&response, Field::AccessToken), Some("a".to_string()));
    assert_eq!(read_text_if_any(&response, Field::ExpiresIn), None);
    assert_eq!(read_text_if_any(&response, Field::TokenType), None);
    assert_eq!(read_required_integer(&response, Field::ExpiresIn), Ok(3));
    assert_eq!(read_required_integer(&response, Field::Interval), Err(JsonError::InvalidField(Field::Interval)));
    assert_eq!(read_required_integer(&response, Field::DeviceCode), Err(JsonError::MissingField(Field::DeviceCode)));
    assert_eq!(read_optional_integer(&response, Field::ExpiresIn), Ok(Some(3)));
    assert_eq!(read_optional_integer(&response, Field::RefreshToken), Ok(None));
    assert_eq!(read_optional_integer(&response, Field::DeviceCode), Ok(None));
    assert_eq!(read_optional_integer(&response, Field::AccessToken), Err(JsonError::InvalidField(Field::AccessToken)));
}

#[test]
fn field_names_are_those_of_the_protocol() {
    let names: Vec<String> = [
        Field::Error, Field::ErrorDescription, Field::ErrorUri, Field::DeviceCode, Field::UserCode,
        Field::VerificationUri, Field::VerificationUrl, Field::ExpiresIn, Field::Interval,
        Field::AccessToken, Field::RefreshToken, Field::TokenType,
    ].iter().map(|field| field.name()).collect();
    assert_eq!(names, vec![
        "error", "error_description", "error_uri", "device_code", "user_code", "verification_uri",
        "verification_url", "expires_in", "interval", "access_token", "refresh_token", "token_type",
    ]);
}

#[test]
fn errors_describe_themselves() {
    let bare = AuthError { error: "access_denied".to_string(), error_description: None, error_uri: None };
    assert_eq!(bare.message(), "access_denied");
    let described = AuthError { error: "invalid_client_id".to_string(), error_description: Some("description".to_string()), error_uri: None };
    assert_eq!(described.message(), "invalid_client_id: description");
    let full = AuthError { error: "e".to_string(), error_description: Some("d".to_string()), error_uri: Some("https://x".to_string()) };
    assert_eq!(full.message(), "e: d; See https://x for more info");
    let located = AuthError { error: "e".to_string(), error_description: None, error_uri: Some("https://x".to_string()) };
    assert_eq!(located.message(), "e; See https://x for more info");
    assert_eq!(Error::AuthError(described).message(), "invalid_client_id: description");
    assert_eq!(Error::HttpError("connection refused".to_string()).message(), "connection refused");
    assert_eq!(JsonError::Syntax.message(), "the response is not a JSON object");
    assert_eq!(JsonError::MissingField(Field::DeviceCode).message(), "missing field `device_code`");
    assert_eq!(JsonError::InvalidField(Field::Interval).message(), "invalid type for field `interval`");
    assert_eq!(JsonError::ExpiryOutOfRange.message(), "the expiry is out of range");
    assert_eq!(
        Error::JSONError(JsonError::MissingField(Field::AccessToken)).message(),
        "JSON Error; this might be a bug with unexpected server responses! missing field `access_token`"
    );
}
