//! The failures the library reports, as typed values.

use vstd::prelude::*;

verus! {

/// Why a bearer token could not be read for its expiry.
#[derive(Clone, Copy, Debug, PartialEq, Eq)]
pub enum TokenFormatError {
    /// The token does not consist of exactly three dot-separated segments.
    SegmentCount,
    /// The claims segment is not unpadded base64url.
    Encoding,
    /// The decoded claims segment is not a JSON document.
    Claims,
    /// The claims carry no integer `exp` member.
    NoExpiry,
}

/// Why a refresh of the credential failed.
#[derive(Clone, Copy, Debug, PartialEq, Eq)]
pub enum RefreshError {
    /// The token endpoint could not be reached.
    Transport,
    /// The token endpoint answered with a status outside 200..=299.
    Status(u16),
    /// The token endpoint's answer is not a JSON document.
    Body,
    /// The answer has no string member `access_token`.
    NoAccessToken,
    /// The issued token cannot be read for its expiry.
    Token(TokenFormatError),
}

/// Why a read or change endpoint's answer was not accepted.
#[derive(Clone, Copy, Debug, PartialEq, Eq)]
pub enum ApiFailure {
    /// The endpoint answered with a status outside 200..=299.
    Status(u16),
    /// The answer's body is not the expected JSON document.
    Body,
}

/// Any failure of a client operation.
#[derive(Clone, Copy, Debug, PartialEq, Eq)]
pub enum ClientError {
    /// A read or change endpoint could not be reached.
    Transport,
    /// A configured endpoint, or the address built from it, is not a URL.
    InvalidUrl,
    /// No valid credential could be obtained.
    AuthEndpoint(RefreshError),
    /// A read or change endpoint refused the request or answered unreadably.
    ApiEndpoint(ApiFailure),
}

/// Whether an HTTP status code reports success.
pub open spec fn is_success(status: u16) -> bool {
    200 <= status < 300
}

/// Tells whether `status` lies in 200..=299.
pub fn status_is_success(status: u16) -> (ok: bool)
    ensures
        ok == is_success(status),
{
    200 <= status && status < 300
}

} // verus!
