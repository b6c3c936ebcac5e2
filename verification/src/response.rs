//! Decoding what the authorization server answers: either the values asked
//! for, or the error that the server reports in their place.

use vstd::prelude::*;
use crate::json::{find, lookup, member_views, Member, MemberView};
use crate::types::{
    opt_text, outcome_view, AuthError, AuthErrorView, Error, ErrorView, Field, JsonError,
    PollInformation, PollInformationView, Token, TokenView,
};

verus! {

/// The members of an object, by their views.
pub type Members = Seq<(Seq<char>, MemberView)>;

/// The lifetime of the codes, in seconds, where the server declares none.
pub const DEFAULT_EXPIRES_IN: i64 = 3600;

/// The absolute value.
pub open spec fn magnitude(n: int) -> nat {
    if n < 0 {
        (-n) as nat
    } else {
        n as nat
    }
}

/// A text that must be there.
pub open spec fn required_text(members: Members, field: Field) -> Result<Seq<char>, JsonError> {
    match lookup(members, field.key()) {
        None => Err(JsonError::MissingField(field)),
        Some(MemberView::Text(text)) => Ok(text),
        Some(_) => Err(JsonError::InvalidField(field)),
    }
}

/// A text that may be absent or null.
pub open spec fn optional_text(members: Members, field: Field) -> Result<
    Option<Seq<char>>,
    JsonError,
> {
    match lookup(members, field.key()) {
        None | Some(MemberView::Null) => Ok(None),
        Some(MemberView::Text(text)) => Ok(Some(text)),
        Some(_) => Err(JsonError::InvalidField(field)),
    }
}

/// A text where the member holds one, and nothing otherwise.
pub open spec fn text_if_any(members: Members, field: Field) -> Option<Seq<char>> {
    match lookup(members, field.key()) {
        Some(MemberView::Text(text)) => Some(text),
        _ => None,
    }
}

/// A whole number that must be there.
pub open spec fn required_integer(members: Members, field: Field) -> Result<i64, JsonError> {
    match lookup(members, field.key()) {
        None => Err(JsonError::MissingField(field)),
        Some(MemberView::Number(Some(n))) => Ok(n),
        Some(_) => Err(JsonError::InvalidField(field)),
    }
}

/// A whole number that may be absent or null.
pub open spec fn optional_integer(members: Members, field: Field) -> Result<
    Option<i64>,
    JsonError,
> {
    match lookup(members, field.key()) {
        None | Some(MemberView::Null) => Ok(None),
        Some(MemberView::Number(Some(n))) => Ok(Some(n)),
        Some(_) => Err(JsonError::InvalidField(field)),
    }
}

/// The error that a response carries in place of the values asked for. A
/// response with a member `error` is an error whatever else it holds: with a
/// text there, the error that the server reports; with anything else there,
/// a response that cannot be decoded.
pub open spec fn reported_error(members: Members) -> Option<ErrorView> {
    match lookup(members, Field::Error.key()) {
        None => None,
        Some(MemberView::Text(code)) => Some(
            ErrorView::AuthError(
                AuthErrorView {
                    error: code,
                    error_description: text_if_any(members, Field::ErrorDescription),
                    error_uri: text_if_any(members, Field::ErrorUri),
                },
            ),
        ),
        Some(_) => Some(ErrorView::JSONError(JsonError::InvalidField(Field::Error))),
    }
}

/// The address that the user visits: `verification_uri`, or, where the
/// response has no such member, `verification_url`.
pub open spec fn verification_address(members: Members) -> Result<Seq<char>, JsonError> {
    if lookup(members, Field::VerificationUri.key()) is None && lookup(
        members,
        Field::VerificationUrl.key(),
    ) is Some {
        required_text(members, Field::VerificationUrl)
    } else {
        required_text(members, Field::VerificationUri)
    }
}

/// The lifetime that a response to a code request declares, in seconds.
pub open spec fn declared_lifetime(members: Members) -> Result<i64, JsonError> {
    match optional_integer(members, Field::ExpiresIn) {
        Ok(Some(n)) => Ok(n),
        Ok(None) => Ok(DEFAULT_EXPIRES_IN),
        Err(error) => Err(error),
    }
}

/// A time so many seconds after another, where an `i64` holds it.
pub open spec fn expiry(now: i64, lifetime: i64) -> Result<int, JsonError> {
    if i64::MIN <= now + lifetime <= i64::MAX {
        Ok(now + lifetime)
    } else {
        Err(JsonError::ExpiryOutOfRange)
    }
}

/// What a response to a code request holds, apart from a reported error:
/// what to show the user, and the device code. The members are taken in the
/// order `device_code`, `user_code`, the address, `expires_in`, `interval`,
/// and the first that fails decides the error.
pub open spec fn code_payload(members: Members, now: i64) -> Result<
    (PollInformationView, Seq<char>),
    JsonError,
> {
    match required_text(members, Field::DeviceCode) {
        Err(error) => Err(error),
        Ok(device_code) => match required_text(members, Field::UserCode) {
            Err(error) => Err(error),
            Ok(user_code) => match verification_address(members) {
                Err(error) => Err(error),
                Ok(verification_url) => match declared_lifetime(members) {
                    Err(error) => Err(error),
                    Ok(lifetime) => match required_integer(members, Field::Interval) {
                        Err(error) => Err(error),
                        Ok(interval) => match expiry(now, lifetime) {
                            Err(error) => Err(error),
                            Ok(expires_at) => Ok(
                                (
                                    PollInformationView {
                                        user_code,
                                        verification_url,
                                        expires_at,
                                        interval: magnitude(interval as int),
                                    },
                                    device_code,
                                ),
                            ),
                        },
                    },
                },
            },
        },
    }
}

/// What a response to a code request, received at `now`, decodes to.
pub open spec fn code_response(members: Members, now: i64) -> Result<
    (PollInformationView, Seq<char>),
    ErrorView,
> {
    match reported_error(members) {
        Some(error) => Err(error),
        None => match code_payload(members, now) {
            Ok(payload) => Ok(payload),
            Err(error) => Err(ErrorView::JSONError(error)),
        },
    }
}

/// What a response to a poll holds, apart from a reported error: the token.
/// The members are taken in the order `access_token`, `refresh_token`,
/// `token_type`, `expires_in`, and the first that fails decides the error.
pub open spec fn token_payload(members: Members, now: i64) -> Result<TokenView, JsonError> {
    match required_text(members, Field::AccessToken) {
        Err(error) => Err(error),
        Ok(access_token) => match optional_text(members, Field::RefreshToken) {
            Err(error) => Err(error),
            Ok(refresh_token) => match required_text(members, Field::TokenType) {
                Err(error) => Err(error),
                Ok(token_type) => match required_integer(members, Field::ExpiresIn) {
                    Err(error) => Err(error),
                    Ok(lifetime) => match expiry(now, lifetime) {
                        Err(error) => Err(error),
                        Ok(expires_at) => Ok(
                            TokenView { access_token, refresh_token, token_type, expires_at },
                        ),
                    },
                },
            },
        },
    }
}

/// What a response to a poll, received at `now`, decodes to.
pub open spec fn token_response(members: Members, now: i64) -> Result<TokenView, ErrorView> {
    match reported_error(members) {
        Some(error) => Err(error),
        None => match token_payload(members, now) {
            Ok(token) => Ok(token),
            Err(error) => Err(ErrorView::JSONError(error)),
        },
    }
}

/// The view of a decoded response to a code request.
pub open spec fn code_view(decoded: Result<(PollInformation, String), Error>) -> Result<
    (PollInformationView, Seq<char>),
    ErrorView,
> {
    match decoded {
        Ok((information, device_code)) => Ok((information@, device_code@)),
        Err(error) => Err(error@),
    }
}

/// The absolute value of a number, which an `u64` always holds.
pub fn unsigned_magnitude(n: i64) -> (m: u64)
    ensures
        m == magnitude(n as int),
{
    if n >= 0 {
        n as u64
    } else if n == i64::MIN {
        9223372036854775808u64
    } else {
        (-n) as u64
    }
}

/// Reads a text that must be there.
pub fn read_required_text(members: &Vec<(String, Member)>, field: Field) -> (result: Result<
    String,
    JsonError,
>)
    ensures
        match result {
            Ok(text) => required_text(member_views(members@), field) == Ok::<_, JsonError>(text@),
            Err(error) => required_text(member_views(members@), field) == Err::<Seq<char>, _>(
                error,
            ),
        },
{
    match find(members, &field.name()) {
        None => Err(JsonError::MissingField(field)),
        Some(Member::Text(text)) => Ok(text.clone()),
        Some(_) => Err(JsonError::InvalidField(field)),
    }
}

/// Reads a text that may be absent or null.
pub fn read_optional_text(members: &Vec<(String, Member)>, field: Field) -> (result: Result<
    Option<String>,
    JsonError,
>)
    ensures
        match result {
            Ok(text) => optional_text(member_views(members@), field) == Ok::<_, JsonError>(
                opt_text(text),
            ),
            Err(error) => optional_text(member_views(members@), field) == Err::<
                Option<Seq<char>>,
                _,
            >(error),
        },
{
    match find(members, &field.name()) {
        None => Ok(None),
        Some(Member::Null) => Ok(None),
        Some(Member::Text(text)) => Ok(Some(text.clone())),
        Some(_) => Err(JsonError::InvalidField(field)),
    }
}

/// Reads a text where the member holds one.
pub fn read_text_if_any(members: &Vec<(String, Member)>, field: Field) -> (result: Option<String>)
    ensures
        opt_text(result) == text_if_any(member_views(members@), field),
{
    match find(members, &field.name()) {
        Some(Member::Text(text)) => Some(text.clone()),
        _ => None,
    }
}

/// Reads a whole number that must be there.
pub fn read_required_integer(members: &Vec<(String, Member)>, field: Field) -> (result: Result<
    i64,
    JsonError,
>)
    ensures
        result == required_integer(member_views(members@), field),
{
    match find(members, &field.name()) {
        None => Err(JsonError::MissingField(field)),
        Some(Member::Number(Some(n))) => Ok(*n),
        Some(_) => Err(JsonError::InvalidField(field)),
    }
}

/// Reads a whole number that may be absent or null.
pub fn read_optional_integer(members: &Vec<(String, Member)>, field: Field) -> (result: Result<
    Option<i64>,
    JsonError,
>)
    ensures
        result == optional_integer(member_views(members@), field),
{
    match find(members, &field.name()) {
        None => Ok(None),
        Some(Member::Null) => Ok(None),
        Some(Member::Number(Some(n))) => Ok(Some(*n)),
        Some(_) => Err(JsonError::InvalidField(field)),
    }
}

/// Adds a lifetime to the time of receipt.
pub fn expiry_after(now: i64, lifetime: i64) -> (result: Result<i64, JsonError>)
    ensures
        match result {
            Ok(at) => expiry(now, lifetime) == Ok::<int, JsonError>(at as int),
            Err(error) => expiry(now, lifetime) == Err::<int, _>(error),
        },
{
    match now.checked_add(lifetime) {
        Some(at) => Ok(at),
        None => Err(JsonError::ExpiryOutOfRange),
    }
}

/// Tells whether a response is an error in place of the values asked for,
/// and which.
pub fn read_reported_error(members: &Vec<(String, Member)>) -> (result: Option<Error>)
    ensures
        match result {
            Some(error) => reported_error(member_views(members@)) == Some(error@),
            None => reported_error(member_views(members@)) is None,
        },
{
    match find(members, &Field::Error.name()) {
        None => None,
        Some(Member::Text(code)) => Some(
            Error::AuthError(
                AuthError {
                    error: code.clone(),
                    error_description: read_text_if_any(members, Field::ErrorDescription),
                    error_uri: read_text_if_any(members, Field::ErrorUri),
                },
            ),
        ),
        Some(_) => Some(Error::JSONError(JsonError::InvalidField(Field::Error))),
    }
}

/// Reads the address that the user visits.
pub fn read_verification_address(members: &Vec<(String, Member)>) -> (result: Result<
    String,
    JsonError,
>)
    ensures
        match result {
            Ok(text) => verification_address(member_views(members@)) == Ok::<_, JsonError>(
                text@,
            ),
            Err(error) => verification_address(member_views(members@)) == Err::<Seq<char>, _>(
                error,
            ),
        },
{
    let standard = find(members, &Field::VerificationUri.name());
    let legacy = find(members, &Field::VerificationUrl.name());
    if standard.is_none() && legacy.is_some() {
        read_required_text(members, Field::VerificationUrl)
    } else {
        read_required_text(members, Field::VerificationUri)
    }
}

/// Decodes the response to a code request from its members. `now` is the
/// time at which the response was received, in seconds since the Unix epoch.
/// The result is what to show the user, and the device code.
pub fn decode_code_response(members: &Vec<(String, Member)>, now: i64) -> (result: Result<
    (PollInformation, String),
    Error,
>)
    ensures
        code_view(result) == code_response(member_views(members@), now),
{
    if let Some(error) = read_reported_error(members) {
        return Err(error);
    }
    let device_code = match read_required_text(members, Field::DeviceCode) {
        Ok(text) => text,
        Err(error) => {
            return Err(Error::JSONError(error));
        },
    };
    let user_code = match read_required_text(members, Field::UserCode) {
        Ok(text) => text,
        Err(error) => {
            return Err(Error::JSONError(error));
        },
    };
    let verification_url = match read_verification_address(members) {
        Ok(text) => text,
        Err(error) => {
            return Err(Error::JSONError(error));
        },
    };
    let lifetime = match read_optional_integer(members, Field::ExpiresIn) {
        Ok(Some(n)) => n,
        Ok(None) => DEFAULT_EXPIRES_IN,
        Err(error) => {
            return Err(Error::JSONError(error));
        },
    };
    let interval = match read_required_integer(members, Field::Interval) {
        Ok(n) => n,
        Err(error) => {
            return Err(Error::JSONError(error));
        },
    };
    let expires_at = match expiry_after(now, lifetime) {
        Ok(at) => at,
        Err(error) => {
            return Err(Error::JSONError(error));
        },
    };
    let information = PollInformation {
        user_code,
        verification_url,
        expires_at,
        interval: unsigned_magnitude(interval),
    };
    Ok((information, device_code))
}

/// Decodes the response to a poll from its members. `now` is the time at
/// which the response was received, in seconds since the Unix epoch.
pub fn decode_token_response(members: &Vec<(String, Member)>, now: i64) -> (result: Result<
    Token,
    Error,
>)
    ensures
        outcome_view(result) == token_response(member_views(members@), now),
{
    if let Some(error) = read_reported_error(members) {
        return Err(error);
    }
    let access_token = match read_required_text(members, Field::AccessToken) {
        Ok(text) => text,
        Err(error) => {
            return Err(Error::JSONError(error));
        },
    };
    let refresh_token = match read_optional_text(members, Field::RefreshToken) {
        Ok(text) => text,
        Err(error) => {
            return Err(Error::JSONError(error));
        },
    };
    let token_type = match read_required_text(members, Field::TokenType) {
        Ok(text) => text,
        Err(error) => {
            return Err(Error::JSONError(error));
        },
    };
    let lifetime = match read_required_integer(members, Field::ExpiresIn) {
        Ok(n) => n,
        Err(error) => {
            return Err(Error::JSONError(error));
        },
    };
    let expires_at = match expiry_after(now, lifetime) {
        Ok(at) => at,
        Err(error) => {
            return Err(Error::JSONError(error));
        },
    };
    Ok(Token { access_token, refresh_token, token_type, expires_at })
}

/// The codes of a decoded response expire at the time of receipt plus the
/// lifetime that the response declares, and an hour after receipt where it
/// declares none.
pub proof fn lemma_codes_expire_after_lifetime(members: Members, now: i64)
    requires
        code_response(members, now) is Ok,
    ensures
        declared_lifetime(members) is Ok,
        code_response(members, now)->Ok_0.0.expires_at == now + declared_lifetime(members)->Ok_0,
        lookup(members, Field::ExpiresIn.key()) is None ==> declared_lifetime(members) == Ok::<
            i64,
            JsonError,
        >(3600),
        forall|n: i64|
            lookup(members, Field::ExpiresIn.key()) == Some(MemberView::Number(Some(n)))
                ==> declared_lifetime(members) == Ok::<i64, JsonError>(n),
{
}

/// The interval of a decoded response is the absolute value of the number
/// that the response gives, which may be negative.
pub proof fn lemma_interval_is_absolute(members: Members, now: i64)
    requires
        code_response(members, now) is Ok,
    ensures
        lookup(members, Field::Interval.key()) matches Some(MemberView::Number(Some(n)))
            && code_response(members, now)->Ok_0.0.interval == magnitude(n as int),
{
}

/// Every whole number that a response can give as its interval is accepted,
/// the negative ones too: with a device code, a user code, an address and an
/// interval in it, and nothing else, the response decodes for every time of
/// receipt that leaves room for an hour.
pub proof fn lemma_any_interval_is_accepted(
    device_code: Seq<char>,
    user_code: Seq<char>,
    address: Seq<char>,
    interval: i64,
    now: i64,
)
    requires
        now + 3600 <= i64::MAX,
    ensures
        code_response(
            seq![
                (Field::DeviceCode.key(), MemberView::Text(device_code)),
                (Field::UserCode.key(), MemberView::Text(user_code)),
                (Field::VerificationUri.key(), MemberView::Text(address)),
                (Field::Interval.key(), MemberView::Number(Some(interval))),
            ],
            now,
        ) == Ok::<_, ErrorView>(
            (
                PollInformationView {
                    user_code,
                    verification_url: address,
                    expires_at: now + 3600,
                    interval: magnitude(interval as int),
                },
                device_code,
            ),
        ),
{
    let members: Members = seq![
        (Field::DeviceCode.key(), MemberView::Text(device_code)),
        (Field::UserCode.key(), MemberView::Text(user_code)),
        (Field::VerificationUri.key(), MemberView::Text(address)),
        (Field::Interval.key(), MemberView::Number(Some(interval))),
    ];
    lemma_keys_differ();
    reveal_with_fuel(lookup, 5);
    assert(members.drop_first() =~= seq![
        (Field::UserCode.key(), MemberView::Text(user_code)),
        (Field::VerificationUri.key(), MemberView::Text(address)),
        (Field::Interval.key(), MemberView::Number(Some(interval))),
    ]);
    assert(members.drop_first().drop_first() =~= seq![
        (Field::VerificationUri.key(), MemberView::Text(address)),
        (Field::Interval.key(), MemberView::Number(Some(interval))),
    ]);
    assert(members.drop_first().drop_first().drop_first() =~= seq![
        (Field::Interval.key(), MemberView::Number(Some(interval))),
    ]);
    assert(members.drop_first().drop_first().drop_first().drop_first() =~= Seq::empty());
}

/// A response to a poll with an access token, a token type and a lifetime
/// in it, and nothing else, decodes to a token without a refresh token that
/// expires the lifetime after receipt, wherever an `i64` holds that time.
pub proof fn lemma_token_is_accepted(
    access_token: Seq<char>,
    token_type: Seq<char>,
    lifetime: i64,
    now: i64,
)
    requires
        i64::MIN <= now + lifetime <= i64::MAX,
    ensures
        token_response(
            seq![
                (Field::AccessToken.key(), MemberView::Text(access_token)),
                (Field::TokenType.key(), MemberView::Text(token_type)),
                (Field::ExpiresIn.key(), MemberView::Number(Some(lifetime))),
            ],
            now,
        ) == Ok::<_, ErrorView>(
            TokenView { access_token, refresh_token: None, token_type, expires_at: now + lifetime },
        ),
{
    let members: Members = seq![
        (Field::AccessToken.key(), MemberView::Text(access_token)),
        (Field::TokenType.key(), MemberView::Text(token_type)),
        (Field::ExpiresIn.key(), MemberView::Number(Some(lifetime))),
    ];
    lemma_keys_differ();
    reveal_with_fuel(lookup, 4);
    assert(members.drop_first() =~= seq![
        (Field::TokenType.key(), MemberView::Text(token_type)),
        (Field::ExpiresIn.key(), MemberView::Number(Some(lifetime))),
    ]);
    assert(members.drop_first().drop_first() =~= seq![
        (Field::ExpiresIn.key(), MemberView::Number(Some(lifetime))),
    ]);
    assert(members.drop_first().drop_first().drop_first() =~= Seq::empty());
}

/// A response with a member `error` is never a success, whatever else it
/// holds, and with a text there it is the error that the server reports.
pub proof fn lemma_error_takes_precedence(members: Members, now: i64)
    requires
        lookup(members, Field::Error.key()) is Some,
    ensures
        token_response(members, now) is Err,
        code_response(members, now) is Err,
        lookup(members, Field::Error.key()) matches Some(MemberView::Text(code)) ==> {
            let reported = ErrorView::AuthError(
                AuthErrorView {
                    error: code,
                    error_description: text_if_any(members, Field::ErrorDescription),
                    error_uri: text_if_any(members, Field::ErrorUri),
                },
            );
            &&& token_response(members, now) == Err::<TokenView, _>(reported)
            &&& code_response(members, now) == Err::<(PollInformationView, Seq<char>), _>(
                reported,
            )
        },
{
}

/// No two members that the flow reads have the same name.
pub proof fn lemma_keys_differ()
    ensures
        forall|a: Field, b: Field| a != b ==> #[trigger] a.key() != #[trigger] b.key(),
{
    reveal_strlit("error");
    reveal_strlit("error_description");
    reveal_strlit("error_uri");
    reveal_strlit("device_code");
    reveal_strlit("user_code");
    reveal_strlit("verification_uri");
    reveal_strlit("verification_url");
    reveal_strlit("expires_in");
    reveal_strlit("interval");
    reveal_strlit("access_token");
    reveal_strlit("refresh_token");
    reveal_strlit("token_type");
    assert forall|a: Field, b: Field| a != b implies #[trigger] a.key() != #[trigger] b.key() by {
        let ka = a.key();
        let kb = b.key();
        if ka.len() == kb.len() {
            assert(ka[0] != kb[0] || ka[1] != kb[1] || ka[6] != kb[6] || ka[15] != kb[15]);
        }
    }
}

} // verus!
