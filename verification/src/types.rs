//! The values that the flow takes and gives: the client's identity, what the
//! user is shown, the token, and the errors.

use vstd::prelude::*;
use vstd::string::*;

verus! {

/// The view of an optional string.
pub open spec fn opt_text(value: Option<String>) -> Option<Seq<char>> {
    match value {
        Some(text) => Some(text@),
        None => None,
    }
}

/// The identity of the client application, as the authorization server
/// registered it. The flow reads `client_id`, `client_secret` and `token_uri`.
#[derive(Debug, Clone, PartialEq, Eq)]
pub struct ApplicationSecret {
    pub client_id: String,
    pub client_secret: String,
    /// The endpoint that exchanges a device code for a token.
    pub token_uri: String,
    pub auth_uri: String,
    pub redirect_uris: Vec<String>,
    pub project_id: Option<String>,
    pub client_email: Option<String>,
    pub auth_provider_x509_cert_url: Option<String>,
    pub client_x509_cert_url: Option<String>,
}

/// What the user needs in order to approve the request, and how long and how
/// often the client may ask for the outcome. The device code is not part of
/// it: it never reaches whoever presents these values.
#[derive(Debug, Clone, PartialEq, Eq)]
pub struct PollInformation {
    /// The code the user types in at `verification_url`.
    pub user_code: String,
    /// The address the user visits.
    pub verification_url: String,
    /// When the codes stop being valid, in seconds since the Unix epoch.
    pub expires_at: i64,
    /// The number of seconds to wait before each poll.
    pub interval: u64,
}

/// What [`PollInformation`] holds, as mathematical values.
pub struct PollInformationView {
    pub user_code: Seq<char>,
    pub verification_url: Seq<char>,
    pub expires_at: int,
    pub interval: nat,
}

impl View for PollInformation {
    type V = PollInformationView;

    open spec fn view(&self) -> PollInformationView {
        PollInformationView {
            user_code: self.user_code@,
            verification_url: self.verification_url@,
            expires_at: self.expires_at as int,
            interval: self.interval as nat,
        }
    }
}

/// An access token, as issued at the end of a successful flow.
#[derive(Debug, Clone, PartialEq, Eq)]
pub struct Token {
    pub access_token: String,
    pub refresh_token: Option<String>,
    pub token_type: String,
    /// When the token expires, in seconds since the Unix epoch.
    pub expires_at: i64,
}

/// What a [`Token`] holds, as mathematical values.
pub struct TokenView {
    pub access_token: Seq<char>,
    pub refresh_token: Option<Seq<char>>,
    pub token_type: Seq<char>,
    pub expires_at: int,
}

impl View for Token {
    type V = TokenView;

    open spec fn view(&self) -> TokenView {
        TokenView {
            access_token: self.access_token@,
            refresh_token: opt_text(self.refresh_token),
            token_type: self.token_type@,
            expires_at: self.expires_at as int,
        }
    }
}

/// An error that the authorization server reported in its response.
#[derive(Debug, Clone, PartialEq, Eq)]
pub struct AuthError {
    /// The error code, such as `authorization_pending` or `access_denied`.
    pub error: String,
    pub error_description: Option<String>,
    pub error_uri: Option<String>,
}

/// What an [`AuthError`] holds, as mathematical values.
pub struct AuthErrorView {
    pub error: Seq<char>,
    pub error_description: Option<Seq<char>>,
    pub error_uri: Option<Seq<char>>,
}

impl View for AuthError {
    type V = AuthErrorView;

    open spec fn view(&self) -> AuthErrorView {
        AuthErrorView {
            error: self.error@,
            error_description: opt_text(self.error_description),
            error_uri: opt_text(self.error_uri),
        }
    }
}

impl AuthErrorView {
    /// The error in words: its code, then the description and the address
    /// for more information, as far as the server gave them.
    pub open spec fn message(self) -> Seq<char> {
        let described = match self.error_description {
            Some(description) => self.error + ": "@ + description,
            None => self.error,
        };
        match self.error_uri {
            Some(uri) => described + "; See "@ + uri + " for more info"@,
            None => described,
        }
    }
}

impl AuthError {
    /// The error in words.
    pub fn message(&self) -> (text: String)
        ensures
            text@ == self@.message(),
    {
        let mut text = self.error.clone();
        if let Some(description) = &self.error_description {
            text.append(": ");
            text.append(description.as_str());
        }
        if let Some(uri) = &self.error_uri {
            text.append("; See ");
            text.append(uri.as_str());
            text.append(" for more info");
        }
        text
    }
}

/// The members that the flow reads from a response.
#[derive(Debug, Clone, Copy, PartialEq, Eq, Structural)]
pub enum Field {
    Error,
    ErrorDescription,
    ErrorUri,
    DeviceCode,
    UserCode,
    VerificationUri,
    VerificationUrl,
    ExpiresIn,
    Interval,
    AccessToken,
    RefreshToken,
    TokenType,
}

impl Field {
    /// The name of the member in a response.
    pub open spec fn key(self) -> Seq<char> {
        match self {
            Field::Error => "error"@,
            Field::ErrorDescription => "error_description"@,
            Field::ErrorUri => "error_uri"@,
            Field::DeviceCode => "device_code"@,
            Field::UserCode => "user_code"@,
            Field::VerificationUri => "verification_uri"@,
            Field::VerificationUrl => "verification_url"@,
            Field::ExpiresIn => "expires_in"@,
            Field::Interval => "interval"@,
            Field::AccessToken => "access_token"@,
            Field::RefreshToken => "refresh_token"@,
            Field::TokenType => "token_type"@,
        }
    }

    /// The name of the member in a response.
    pub fn name(self) -> (name: String)
        ensures
            name@ == self.key(),
    {
        match self {
            Field::Error => String::from_str("error"),
            Field::ErrorDescription => String::from_str("error_description"),
            Field::ErrorUri => String::from_str("error_uri"),
            Field::DeviceCode => String::from_str("device_code"),
            Field::UserCode => String::from_str("user_code"),
            Field::VerificationUri => String::from_str("verification_uri"),
            Field::VerificationUrl => String::from_str("verification_url"),
            Field::ExpiresIn => String::from_str("expires_in"),
            Field::Interval => String::from_str("interval"),
            Field::AccessToken => String::from_str("access_token"),
            Field::RefreshToken => String::from_str("refresh_token"),
            Field::TokenType => String::from_str("token_type"),
        }
    }
}

/// Why a response could not be decoded.
#[derive(Debug, Clone, Copy, PartialEq, Eq, Structural)]
pub enum JsonError {
    /// The bytes are not the text of one JSON object.
    Syntax,
    /// A member that the response must have is absent.
    MissingField(Field),
    /// A member holds a value of another kind than the one expected.
    InvalidField(Field),
    /// The lifetime that the server declared ends beyond the times that can
    /// be represented.
    ExpiryOutOfRange,
}

impl JsonError {
    /// The error in words.
    pub open spec fn message_view(self) -> Seq<char> {
        match self {
            JsonError::Syntax => "the response is not a JSON object"@,
            JsonError::MissingField(field) => "missing field `"@ + field.key() + "`"@,
            JsonError::InvalidField(field) => "invalid type for field `"@ + field.key() + "`"@,
            JsonError::ExpiryOutOfRange => "the expiry is out of range"@,
        }
    }

    /// The error in words.
    pub fn message(self) -> (text: String)
        ensures
            text@ == self.message_view(),
    {
        match self {
            JsonError::Syntax => String::from_str("the response is not a JSON object"),
            JsonError::MissingField(field) => {
                let mut text = String::from_str("missing field `");
                text.append(field.name().as_str());
                text.append("`");
                text
            },
            JsonError::InvalidField(field) => {
                let mut text = String::from_str("invalid type for field `");
                text.append(field.name().as_str());
                text.append("`");
                text
            },
            JsonError::ExpiryOutOfRange => String::from_str("the expiry is out of range"),
        }
    }
}

/// Why a step of the flow failed.
#[derive(Debug, Clone, PartialEq, Eq)]
pub enum Error {
    /// The request could not be delivered, or no response came back. The
    /// text is the transport's own description.
    HttpError(String),
    /// The response could not be decoded.
    JSONError(JsonError),
    /// The server answered with an error of its own.
    AuthError(AuthError),
}

/// What an [`Error`] holds, as mathematical values.
pub enum ErrorView {
    HttpError(Seq<char>),
    JSONError(JsonError),
    AuthError(AuthErrorView),
}

impl View for Error {
    type V = ErrorView;

    open spec fn view(&self) -> ErrorView {
        match self {
            Error::HttpError(text) => ErrorView::HttpError(text@),
            Error::JSONError(error) => ErrorView::JSONError(*error),
            Error::AuthError(error) => ErrorView::AuthError(error@),
        }
    }
}

impl ErrorView {
    /// The error in words: the transport's own description, the server's
    /// error, or what kept the response from being decoded.
    pub open spec fn message(self) -> Seq<char> {
        match self {
            ErrorView::HttpError(text) => text,
            ErrorView::JSONError(error) =>
                "JSON Error; this might be a bug with unexpected server responses! "@
                    + error.message_view(),
            ErrorView::AuthError(error) => error.message(),
        }
    }
}

impl Error {
    /// The error in words.
    pub fn message(&self) -> (text: String)
        ensures
            text@ == self@.message(),
    {
        match self {
            Error::HttpError(text) => text.clone(),
            Error::JSONError(error) => {
                let mut text = String::from_str(
                    "JSON Error; this might be a bug with unexpected server responses! ",
                );
                text.append(error.message().as_str());
                text
            },
            Error::AuthError(error) => error.message(),
        }
    }
}

/// The view of the outcome of a poll.
pub open spec fn outcome_view(outcome: Result<Token, Error>) -> Result<TokenView, ErrorView> {
    match outcome {
        Ok(token) => Ok(token@),
        Err(error) => Err(error@),
    }
}

} // verus!
