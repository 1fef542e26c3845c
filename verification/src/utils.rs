//! Errors of the bot and the HTTP status each of them is answered with.

use vstd::prelude::*;
use vstd::std_specs::convert::FromSpecImpl;

verus! {

/// The HTTP status an error is reported with.
#[derive(Clone, Copy, Debug, PartialEq, Eq, Structural)]
pub enum HttpStatusCode {
    BadRequest,
    Unauthorized,
    InternalServerError,
}

impl HttpStatusCode {
    /// The numeric HTTP status.
    pub open spec fn spec_code(self) -> u16 {
        match self {
            HttpStatusCode::BadRequest => 400,
            HttpStatusCode::Unauthorized => 401,
            HttpStatusCode::InternalServerError => 500,
        }
    }

    pub fn code(&self) -> (res: u16)
        ensures
            res == self.spec_code(),
            *self == HttpStatusCode::BadRequest ==> res == 400,
            *self == HttpStatusCode::Unauthorized ==> res == 401,
            *self == HttpStatusCode::InternalServerError ==> res == 500,
    {
        match self {
            HttpStatusCode::BadRequest => 400,
            HttpStatusCode::Unauthorized => 401,
            HttpStatusCode::InternalServerError => 500,
        }
    }
}

/// Distinct statuses carry distinct numeric codes.
pub proof fn status_codes_distinct(a: HttpStatusCode, b: HttpStatusCode)
    ensures
        a.spec_code() == b.spec_code() ==> a == b,
{
}

/// Why a hexadecimal string could not be decoded.
#[derive(Clone, Copy, Debug, PartialEq, Eq, Structural)]
pub enum HexError {
    /// The character at `index` is not a hexadecimal digit.
    InvalidHexCharacter { c: char, index: usize },
    /// The string has an odd number of bytes.
    OddLength,
    /// The string has the wrong length for the destination.
    InvalidStringLength,
}

/// Why the signature of a request was refused.
#[derive(Clone, Copy, Debug, PartialEq, Eq, Structural)]
pub enum VerificationError {
    /// A key or a signature is not valid hexadecimal.
    ParseError(HexError),
    /// The public key is not a valid Ed25519 key.
    InvalidKey,
    /// The key or signature was rejected by Ed25519.
    InvalidSignature,
}

/// Why a command could not be answered.
#[derive(Debug, PartialEq, Eq)]
pub enum InteractionError {
    CommandNotFound(String),
    CloudflareError(String),
    DiscordError(String),
    Error(String),
}

/// Why an incoming request could not be handled.
#[derive(Debug, PartialEq, Eq)]
pub enum Error {
    EnvironmentVariableNotFound(String),
    HeaderNotFound(String),
    /// The body is not a well-formed interaction; holds the parser's message.
    JsonFailed(String),
    PayloadError(String),
    VerificationFailed(VerificationError),
    InteractionFailed(InteractionError),
}

/// The status that a request failing with `reason` is answered with.
pub open spec fn status_of(reason: Error) -> HttpStatusCode {
    match reason {
        Error::HeaderNotFound(_) => HttpStatusCode::BadRequest,
        Error::JsonFailed(_) => HttpStatusCode::BadRequest,
        Error::PayloadError(_) => HttpStatusCode::BadRequest,
        Error::VerificationFailed(_) => HttpStatusCode::Unauthorized,
        _ => HttpStatusCode::InternalServerError,
    }
}

/// The HTTP error that reports `reason`.
pub open spec fn http_error_for(reason: Error) -> HttpError {
    HttpError { status: status_of(reason), reason }
}

/// An error together with the HTTP status it is answered with.
#[derive(Debug, PartialEq, Eq)]
pub struct HttpError {
    pub status: HttpStatusCode,
    pub reason: Error,
}

impl From<Error> for HttpError {
    fn from(reason: Error) -> (res: HttpError) {
        let status = match &reason {
            Error::HeaderNotFound(_) => HttpStatusCode::BadRequest,
            Error::JsonFailed(_) => HttpStatusCode::BadRequest,
            Error::PayloadError(_) => HttpStatusCode::BadRequest,
            Error::VerificationFailed(_) => HttpStatusCode::Unauthorized,
            _ => HttpStatusCode::InternalServerError,
        };
        HttpError { status, reason }
    }
}

impl FromSpecImpl<Error> for HttpError {
    open spec fn obeys_from_spec() -> bool {
        true
    }

    open spec fn from_spec(reason: Error) -> HttpError {
        http_error_for(reason)
    }
}

/// Converting an error keeps it as the reason and picks its status by `status_of`:
/// malformed requests are answered 400, refused signatures 401, anything else 500.
pub proof fn http_error_from_law(reason: Error)
    ensures
        http_error_for(reason).reason == reason,
        http_error_for(reason).status == status_of(reason),
        (reason is VerificationFailed) ==> http_error_for(reason).status.spec_code() == 401,
        (reason is HeaderNotFound || reason is JsonFailed || reason is PayloadError)
            ==> http_error_for(reason).status.spec_code() == 400,
        (reason is EnvironmentVariableNotFound || reason is InteractionFailed)
            ==> http_error_for(reason).status.spec_code() == 500,
{
}

} // verus!
