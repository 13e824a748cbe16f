//! The bearer credential: how it is asked for and how an answer is read.

use vstd::prelude::*;
use crate::cache::Credential;
use crate::error::{is_success, status_is_success, RefreshError, TokenFormatError};
use crate::json::{
    integer_member, json_integer_member, json_string_member, member_text, string_member,
};
use crate::jws::{
    has_three_segments, jws_payload, lemma_dot_count_concat, lemma_dot_count_none,
    lemma_dot_count_one, segment_count, unverified_payload,
};
use crate::settings::ClientConfig;

verus! {

/// The body of a client-credentials request, member by member, and the
/// address it is posted to.
pub struct TokenRequest {
    pub endpoint: String,
    pub client_id: String,
    pub client_secret: String,
    pub audience: String,
    pub grant_type: String,
    pub scopes: String,
}

/// Whether `request` asks for a credential under `config`.
pub open spec fn asks_for(request: TokenRequest, config: ClientConfig) -> bool {
    &&& request.endpoint@ == config.token_endpoint@
    &&& request.client_id@ == config.client_id@
    &&& request.client_secret@ == config.client_secret@
    &&& request.audience@ == config.audience@
    &&& request.grant_type@ == "client_credentials"@
    &&& request.scopes@ == config.scopes@
}

/// The request that asks the token endpoint of `config` for a credential.
pub fn token_request(config: &ClientConfig) -> (request: TokenRequest)
    ensures
        asks_for(request, *config),
{
    TokenRequest {
        endpoint: config.token_endpoint.clone(),
        client_id: config.client_id.clone(),
        client_secret: config.client_secret.clone(),
        audience: config.audience.clone(),
        grant_type: "client_credentials".to_owned(),
        scopes: config.scopes.clone(),
    }
}

/// The access token of an answer with `status` whose body holds `member`
/// under `access_token` (see `json_string_member` for the three cases).
///
/// An answer with a status outside 200..=299 is refused unread.
pub open spec fn access_token_in(status: u16, member: Option<Option<Seq<char>>>) -> Result<
    Seq<char>,
    RefreshError,
> {
    if !is_success(status) {
        Err(RefreshError::Status(status))
    } else {
        match member {
            None => Err(RefreshError::Body),
            Some(None) => Err(RefreshError::NoAccessToken),
            Some(Some(token)) => Ok(token),
        }
    }
}

/// The access token a token endpoint's answer carries.
pub open spec fn access_token_of(status: u16, body: Seq<u8>) -> Result<Seq<char>, RefreshError> {
    access_token_in(status, json_string_member(body, "access_token"@))
}

/// The view of a text or a failure.
pub open spec fn text_or<E>(r: Result<String, E>) -> Result<Seq<char>, E> {
    match r {
        Ok(text) => Ok(text@),
        Err(e) => Err(e),
    }
}

/// Decides on an answer of the token endpoint, given what its body holds
/// under `access_token`.
pub fn access_token_from(status: u16, member: Option<Option<String>>) -> (r: Result<
    String,
    RefreshError,
>)
    ensures
        text_or(r) == access_token_in(status, member_text(member)),
{
    if !status_is_success(status) {
        return Err(RefreshError::Status(status));
    }
    match member {
        None => Err(RefreshError::Body),
        Some(None) => Err(RefreshError::NoAccessToken),
        Some(Some(token)) => Ok(token),
    }
}

/// Reads the access token out of the token endpoint's answer.
pub fn get_raw_access_token(status: u16, body: &[u8]) -> (r: Result<String, RefreshError>)
    ensures
        text_or(r) == access_token_of(status, body@),
{
    access_token_from(status, string_member(body, "access_token"))
}

/// The expiry of a token, given whether it has three segments, whether its
/// claims segment decodes, and what the decoded claims hold under `exp` (see
/// `json_integer_member` for the three cases). Each is only looked at where
/// the one before it holds.
pub open spec fn expiry_in(
    three_segments: bool,
    claims_decode: bool,
    exp: Option<Option<i64>>,
) -> Result<i64, TokenFormatError> {
    if !three_segments {
        Err(TokenFormatError::SegmentCount)
    } else if !claims_decode {
        Err(TokenFormatError::Encoding)
    } else {
        match exp {
            None => Err(TokenFormatError::Claims),
            Some(None) => Err(TokenFormatError::NoExpiry),
            Some(Some(expiry)) => Ok(expiry),
        }
    }
}

/// What the claims hold under `exp`, where they decoded at all.
pub open spec fn exp_member(claims: Option<Seq<u8>>) -> Option<Option<i64>> {
    match claims {
        None => None,
        Some(document) => json_integer_member(document, "exp"@),
    }
}

/// The expiry that `token` states for itself, in seconds since the Unix
/// epoch.
///
/// The token has to consist of three dot-separated segments, the second of
/// them unpadded base64url of a JSON document with an integer member `exp`.
/// The signature is not looked at.
pub open spec fn expiry_of(token: Seq<char>) -> Result<i64, TokenFormatError> {
    expiry_in(
        segment_count(token) == 3,
        jws_payload(token) is Some,
        exp_member(jws_payload(token)),
    )
}

/// Decides on a token, given whether it has three segments, whether its
/// claims segment decoded and what the claims hold under `exp`.
pub fn expiry_from(three_segments: bool, claims_decode: bool, exp: Option<Option<i64>>) -> (r:
    Result<i64, TokenFormatError>)
    ensures
        r == expiry_in(three_segments, claims_decode, exp),
{
    if !three_segments {
        return Err(TokenFormatError::SegmentCount);
    }
    if !claims_decode {
        return Err(TokenFormatError::Encoding);
    }
    match exp {
        None => Err(TokenFormatError::Claims),
        Some(None) => Err(TokenFormatError::NoExpiry),
        Some(Some(expiry)) => Ok(expiry),
    }
}

/// Reads the expiry out of the unverified claims of `token`.
///
/// The claims are taken as bytes and `exp` as a plain integer. Read as a
/// calendar date it would have to lie within the calendar's range, which not
/// every integer does.
pub fn get_expiration(token: &str) -> (r: Result<i64, TokenFormatError>)
    ensures
        r == expiry_of(token@),
{
    if !has_three_segments(token) {
        return expiry_from(false, false, None);
    }
    match unverified_payload(token) {
        None => expiry_from(true, false, None),
        Some(claims) => expiry_from(true, true, integer_member(claims.as_slice(), "exp")),
    }
}

/// Reading the expiry back: a token put together from a header, a claims
/// segment and a signature, none of which holds a full stop, has three
/// segments, so its expiry is the integer that its decoded claims hold under
/// `exp`. It has none where the claims segment does not decode, where the
/// claims are not a JSON document, or where they hold no such integer.
pub proof fn lemma_expiry_round_trip(header: Seq<char>, claims: Seq<char>, signature: Seq<char>)
    requires
        forall|i: int| 0 <= i < header.len() ==> header[i] != '.',
        forall|i: int| 0 <= i < claims.len() ==> claims[i] != '.',
        forall|i: int| 0 <= i < signature.len() ==> signature[i] != '.',
    ensures
        ({
            let token = header + seq!['.'] + claims + seq!['.'] + signature;
            &&& segment_count(token) == 3
            &&& expiry_of(token) == match jws_payload(token) {
                None => Err(TokenFormatError::Encoding),
                Some(document) => match json_integer_member(document, "exp"@) {
                    None => Err(TokenFormatError::Claims),
                    Some(None) => Err(TokenFormatError::NoExpiry),
                    Some(Some(expiry)) => Ok(expiry),
                },
            }
        }),
{
    let dot = seq!['.'];
    lemma_dot_count_one();
    lemma_dot_count_none(header);
    lemma_dot_count_none(claims);
    lemma_dot_count_none(signature);
    lemma_dot_count_concat(header, dot);
    lemma_dot_count_concat(header + dot, claims);
    lemma_dot_count_concat(header + dot + claims, dot);
    lemma_dot_count_concat(header + dot + claims + dot, signature);
}

/// A token that is not made of three segments has no expiry, whatever its
/// segments hold. A token without a claims segment, a header and a signature
/// alone, is such a token.
pub proof fn lemma_token_without_claims_is_refused(header: Seq<char>, signature: Seq<char>)
    requires
        forall|i: int| 0 <= i < header.len() ==> header[i] != '.',
        forall|i: int| 0 <= i < signature.len() ==> signature[i] != '.',
    ensures
        forall|token: Seq<char>|
            segment_count(token) != 3 ==> #[trigger] expiry_of(token) == Err::<
                i64,
                TokenFormatError,
            >(TokenFormatError::SegmentCount),
        segment_count(header) == 1,
        segment_count(header + seq!['.'] + signature) == 2,
{
    let dot = seq!['.'];
    lemma_dot_count_one();
    lemma_dot_count_none(header);
    lemma_dot_count_none(signature);
    lemma_dot_count_concat(header, dot);
    lemma_dot_count_concat(header + dot, signature);
}

/// What a token endpoint's answer issues: the access token and the expiry
/// that the token states for itself.
pub open spec fn issued_by(status: u16, body: Seq<u8>) -> Result<(Seq<char>, i64), RefreshError> {
    match access_token_of(status, body) {
        Err(e) => Err(e),
        Ok(token) => match expiry_of(token) {
            Err(e) => Err(RefreshError::Token(e)),
            Ok(expiry) => Ok((token, expiry)),
        },
    }
}

/// A bearer token with its expiry, and the configuration it is renewed with.
pub struct BearerBearer {
    pub bearer_token_str: String,
    /// Seconds since the Unix epoch.
    pub exp: i64,
    pub config: ClientConfig,
}

impl BearerBearer {
    /// The bearer before any token was issued: no token, expired at the
    /// epoch.
    pub fn new(config: ClientConfig) -> (bearer: Self)
        ensures
            bearer.bearer_token_str@ == Seq::<char>::empty(),
            bearer.exp == 0,
            bearer.config == config,
    {
        BearerBearer { bearer_token_str: String::new(), exp: 0, config }
    }

    /// Whether this bearer is what the answer `(status, body)` of the token
    /// endpoint turns `prior` into: the issued token with its own expiry,
    /// under the configuration of `prior`.
    pub open spec fn is_refresh_of(self, prior: BearerBearer, status: u16, body: Seq<u8>) -> bool {
        &&& issued_by(status, body) == Ok::<(Seq<char>, i64), RefreshError>(
            (self.bearer_token_str@, self.exp),
        )
        &&& self.config == prior.config
    }

    /// The bearer that the token endpoint's answer issues. Token and expiry
    /// are taken together or not at all: an answer that cannot be read to the
    /// end yields no bearer.
    pub fn refreshed(&self, status: u16, body: &[u8]) -> (r: Result<BearerBearer, RefreshError>)
        ensures
            match r {
                Ok(bearer) => bearer.is_refresh_of(*self, status, body@),
                Err(e) => issued_by(status, body@) == Err::<(Seq<char>, i64), RefreshError>(e),
            },
    {
        let token = match get_raw_access_token(status, body) {
            Ok(token) => token,
            Err(e) => {
                return Err(e);
            },
        };
        match get_expiration(token.as_str()) {
            Ok(exp) => Ok(
                BearerBearer { bearer_token_str: token, exp, config: self.config.clone() },
            ),
            Err(e) => Err(RefreshError::Token(e)),
        }
    }
}

impl Credential for BearerBearer {
    open spec fn expires_at(&self) -> i64 {
        self.exp
    }

    fn expiry(&self) -> (at: i64) {
        self.exp
    }

    fn duplicate(&self) -> (copy: Self) {
        BearerBearer {
            bearer_token_str: self.bearer_token_str.clone(),
            exp: self.exp,
            config: self.config.clone(),
        }
    }
}

} // verus!
