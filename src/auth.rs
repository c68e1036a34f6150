use vstd::prelude::*;

use crate::claims::Claims;
use crate::error::ErrorResponse;
use jsonwebtoken::errors::ErrorKind as K;
use JwtErrorKind as J;

verus! {

/// The audience that every accepted token must name.
pub const REQUIRED_AUDIENCE: &'static str = "authenticated";

/// A request whose bearer token was verified, with the claims it carries.
#[derive(Debug)]
pub struct JwtAuth(pub Claims);

/// Why a bearer token was not accepted.
#[derive(Clone, Copy, Debug, PartialEq, Eq, Structural)]
pub enum JwtFailure {
    /// The signature is valid but the token is past its expiry.
    Expired,
    /// The signature does not match.
    InvalidSignature,
    /// Anything else: bad structure, missing fields, wrong algorithm or audience.
    Malformed,
}

/// The answer to a request whose token was refused.
#[derive(Debug)]
pub enum JwtErrorResponse {
    Unauthorized(ErrorResponse),
    Forbidden(ErrorResponse),
    BadRequest(ErrorResponse),
}

/// The answer owed for a token refused for `kind`, with the decoder's own
/// description `detail`.
pub open spec fn rejection_says(r: JwtErrorResponse, kind: JwtFailure, detail: Seq<char>) -> bool {
    match kind {
        JwtFailure::Expired => match r {
            JwtErrorResponse::Unauthorized(e) => e.says("JWT_EXPIRED"@, "Token has expired"@, None),
            _ => false,
        },
        JwtFailure::InvalidSignature => match r {
            JwtErrorResponse::Unauthorized(e) => e.says("JWT_INVALID"@, "Invalid token signature"@, None),
            _ => false,
        },
        JwtFailure::Malformed => match r {
            JwtErrorResponse::BadRequest(e) => e.says("JWT_MALFORMED"@, "Invalid token format"@, Some(detail)),
            _ => false,
        },
    }
}

impl JwtErrorResponse {
    pub open spec fn status_spec(&self) -> u16 {
        match self {
            JwtErrorResponse::Unauthorized(_) => 401,
            JwtErrorResponse::Forbidden(_) => 403,
            JwtErrorResponse::BadRequest(_) => 400,
        }
    }

    pub fn status(&self) -> (r: u16)
        ensures
            r == self.status_spec(),
    {
        match self {
            JwtErrorResponse::Unauthorized(_) => 401,
            JwtErrorResponse::Forbidden(_) => 403,
            JwtErrorResponse::BadRequest(_) => 400,
        }
    }
}

/// The answer to a token refused for `kind`.
pub fn jwt_rejection(kind: JwtFailure, detail: String) -> (r: JwtErrorResponse)
    ensures
        rejection_says(r, kind, detail@),
{
    match kind {
        JwtFailure::Expired => JwtErrorResponse::Unauthorized(
            ErrorResponse::new("JWT_EXPIRED", "Token has expired", None),
        ),
        JwtFailure::InvalidSignature => JwtErrorResponse::Unauthorized(
            ErrorResponse::new("JWT_INVALID", "Invalid token signature", None),
        ),
        JwtFailure::Malformed => JwtErrorResponse::BadRequest(
            ErrorResponse::new("JWT_MALFORMED", "Invalid token format", Some(detail)),
        ),
    }
}

#[verifier::external_type_specification]
#[verifier::external_body]
pub struct ExJwtError(jsonwebtoken::errors::Error);

/// The kinds of failure that the token decoder reports, one for each kind
/// it names; `Unrecognised` stands for kinds it may add later.
#[derive(Clone, Copy, Debug, PartialEq, Eq, Structural)]
pub enum JwtErrorKind {
    InvalidToken,
    InvalidSignature,
    InvalidEcdsaKey,
    InvalidRsaKey,
    RsaFailedSigning,
    InvalidAlgorithmName,
    InvalidKeyFormat,
    MissingRequiredClaim,
    ExpiredSignature,
    InvalidIssuer,
    InvalidAudience,
    InvalidSubject,
    ImmatureSignature,
    InvalidAlgorithm,
    MissingAlgorithm,
    Base64,
    Json,
    Utf8,
    Crypto,
    Unrecognised,
}

/// The kind of a decoder error.
pub uninterp spec fn kind_of(e: jsonwebtoken::errors::Error) -> JwtErrorKind;

/// The description that a decoder error displays.
pub uninterp spec fn text_of(e: jsonwebtoken::errors::Error) -> Seq<char>;

/// Relies on `jsonwebtoken::errors::Error::kind`: the kind the error was made
/// with, named variant for variant.
#[verifier::external_body]
fn error_kind(e: &jsonwebtoken::errors::Error) -> (r: JwtErrorKind)
    ensures
        r == kind_of(*e),
{
    match e.kind() {
        K::InvalidToken => J::InvalidToken, K::InvalidSignature => J::InvalidSignature,
        K::InvalidEcdsaKey => J::InvalidEcdsaKey, K::InvalidRsaKey(_) => J::InvalidRsaKey,
        K::RsaFailedSigning => J::RsaFailedSigning, K::InvalidAlgorithmName => J::InvalidAlgorithmName,
        K::InvalidKeyFormat => J::InvalidKeyFormat, K::MissingRequiredClaim(_) => J::MissingRequiredClaim,
        K::ExpiredSignature => J::ExpiredSignature, K::InvalidIssuer => J::InvalidIssuer,
        K::InvalidAudience => J::InvalidAudience, K::InvalidSubject => J::InvalidSubject,
        K::ImmatureSignature => J::ImmatureSignature, K::InvalidAlgorithm => J::InvalidAlgorithm,
        K::MissingAlgorithm => J::MissingAlgorithm, K::Base64(_) => J::Base64, K::Json(_) => J::Json,
        K::Utf8(_) => J::Utf8, K::Crypto(_) => J::Crypto, _ => J::Unrecognised,
    }
}

/// Relies on `Display` of `jsonwebtoken::errors::Error`: its description.
#[verifier::external_body]
fn error_text(e: &jsonwebtoken::errors::Error) -> (r: String)
    ensures
        r@ == text_of(*e),
{
    e.to_string()
}

/// Expiry and a bad signature stand apart; every other failure is a malformed token.
pub open spec fn failure_spec(k: JwtErrorKind) -> JwtFailure {
    match k {
        JwtErrorKind::ExpiredSignature => JwtFailure::Expired,
        JwtErrorKind::InvalidSignature => JwtFailure::InvalidSignature,
        _ => JwtFailure::Malformed,
    }
}

/// Groups a decoder error kind into the failures that are answered differently.
pub fn failure_kind(k: JwtErrorKind) -> (r: JwtFailure)
    ensures
        r == failure_spec(k),
{
    match k {
        JwtErrorKind::ExpiredSignature => JwtFailure::Expired,
        JwtErrorKind::InvalidSignature => JwtFailure::InvalidSignature,
        _ => JwtFailure::Malformed,
    }
}

/// The answer to a token that the decoder refused with `e`.
pub fn reject_token(e: &jsonwebtoken::errors::Error) -> (r: JwtErrorResponse)
    ensures
        rejection_says(r, failure_spec(kind_of(*e)), text_of(*e)),
{
    let kind = failure_kind(error_kind(e));
    let detail = error_text(e);
    jwt_rejection(kind, detail)
}

} // verus!
