//! The requests of the profile API and the client that builds them.

use vstd::prelude::*;
use vstd::string::StringExecFns;
use crate::auth::{asks_for, issued_by, token_request, BearerBearer, TokenRequest};
use crate::cache::{CredentialCache, Step};
use crate::encoding::{encoded_id, percent_encode_id};
use crate::error::{is_success, status_is_success, ApiFailure, ClientError, RefreshError};
use crate::settings::CisSettings;
use crate::url::{fits, join, url_joined, url_with_query, with_query, within_limit};

verus! {

/// What a profile is looked up by.
pub enum GetBy {
    Uuid,
    UserId,
    PrimaryEmail,
    PrimaryUsername,
}

impl GetBy {
    /// The path segment of the lookup, with its trailing slash.
    pub open spec fn path(self) -> Seq<char> {
        match self {
            GetBy::Uuid => "uuid/"@,
            GetBy::UserId => "user_id/"@,
            GetBy::PrimaryEmail => "primary_email/"@,
            GetBy::PrimaryUsername => "primary_username/"@,
        }
    }

    pub fn as_str(&self) -> (segment: &'static str)
        ensures
            segment@ == self.path(),
    {
        match self {
            GetBy::Uuid => "uuid/",
            GetBy::UserId => "user_id/",
            GetBy::PrimaryEmail => "primary_email/",
            GetBy::PrimaryUsername => "primary_username/",
        }
    }
}

/// The address a profile is read from: the lookup's segment and the encoded
/// identifier resolved against `endpoint`, with the display filter as query
/// where one is given.
pub open spec fn user_url_of(
    endpoint: Seq<char>,
    by: GetBy,
    id: Seq<char>,
    filter: Option<Seq<char>>,
) -> Option<Seq<char>> {
    match url_joined(endpoint, by.path()) {
        None => None,
        Some(directory) => match url_joined(directory, encoded_id(id)) {
            None => None,
            Some(url) => match filter {
                None => Some(url),
                Some(display) => if fits(url) && fits("filterDisplay="@ + display) {
                    url_with_query(url, "filterDisplay="@ + display)
                } else {
                    None
                },
            },
        },
    }
}

/// Builds the address a profile is read from.
pub fn user_url(endpoint: &str, by: &GetBy, id: &str, filter: Option<&str>) -> (r: Result<
    String,
    ClientError,
>)
    ensures
        match r {
            Ok(url) => user_url_of(endpoint@, *by, id@, view_of(filter)) == Some(url@),
            Err(e) => e == ClientError::InvalidUrl && user_url_of(
                endpoint@,
                *by,
                id@,
                view_of(filter),
            ) is None,
        },
{
    let safe_id = percent_encode_id(id);
    let directory = match join(endpoint, by.as_str()) {
        Some(directory) => directory,
        None => {
            return Err(ClientError::InvalidUrl);
        },
    };
    let url = match join(directory.as_str(), safe_id.as_str()) {
        Some(url) => url,
        None => {
            return Err(ClientError::InvalidUrl);
        },
    };
    match filter {
        None => Ok(url),
        Some(display) => {
            let mut query = String::from_str("filterDisplay=");
            query.append(display);
            if !within_limit(url.as_str()) || !within_limit(query.as_str()) {
                return Err(ClientError::InvalidUrl);
            }
            match with_query(url.as_str(), query.as_str()) {
                Some(url) => Ok(url),
                None => Err(ClientError::InvalidUrl),
            }
        },
    }
}

/// The view of an optional text.
pub open spec fn view_of(text: Option<&str>) -> Option<Seq<char>> {
    match text {
        None => None,
        Some(t) => Some(t@),
    }
}

/// The address a change or a deletion of the profile `id` is sent to:
/// `endpoint` with the encoded identifier as its query.
pub open spec fn change_url_of(endpoint: Seq<char>, id: Seq<char>) -> Option<Seq<char>> {
    if fits(endpoint) && fits("user_id="@ + encoded_id(id)) {
        url_with_query(endpoint, "user_id="@ + encoded_id(id))
    } else {
        None
    }
}

/// Builds the address a change or a deletion is sent to.
pub fn change_url(endpoint: &str, id: &str) -> (r: Result<String, ClientError>)
    ensures
        match r {
            Ok(url) => change_url_of(endpoint@, id@) == Some(url@),
            Err(e) => e == ClientError::InvalidUrl && change_url_of(endpoint@, id@) is None,
        },
{
    let safe_id = percent_encode_id(id);
    let mut query = String::from_str("user_id=");
    query.append(safe_id.as_str());
    if !within_limit(endpoint) || !within_limit(query.as_str()) {
        return Err(ClientError::InvalidUrl);
    }
    match with_query(endpoint, query.as_str()) {
        Some(url) => Ok(url),
        None => Err(ClientError::InvalidUrl),
    }
}

/// The HTTP method of a request.
#[derive(Clone, Copy, Debug, PartialEq, Eq)]
pub enum Method {
    Get,
    Post,
    Delete,
}

/// One authorised request, ready to be sent. `B` is the profile document of
/// a change or a deletion.
pub struct ApiRequest<B> {
    pub method: Method,
    pub url: String,
    /// The bearer token the request is authorised with.
    pub token: String,
    pub body: Option<B>,
}

impl<B> ApiRequest<B> {
    /// The value of the `Authorization` header.
    pub fn authorization(&self) -> (header: String)
        ensures
            header@ == "Bearer "@ + self.token@,
    {
        let mut header = String::from_str("Bearer ");
        header.append(self.token.as_str());
        header
    }
}

/// What a caller who needs a token does next.
pub enum TokenStep {
    /// Use this token.
    Ready(String),
    /// Send this request to the token endpoint and report the answer.
    Refresh(TokenRequest),
    /// Wait until the refresh in flight is reported.
    Wait,
}

/// Who a reported refresh releases, and the one result they all get.
pub struct TokenRelease {
    pub callers: Vec<u64>,
    pub token: Result<String, ClientError>,
}

/// What the token endpoint answered: status and body, or nothing where it
/// could not be reached.
pub struct TokenAnswer {
    pub status: u16,
    pub body: Vec<u8>,
}

/// Whether `step` passes on what the cache answered.
pub open spec fn passes_on(step: TokenStep, answer: Step<BearerBearer>) -> bool {
    match answer {
        Step::Ready(bearer) => step matches TokenStep::Ready(token) && token@
            == bearer.bearer_token_str@,
        Step::Refresh(bearer) => step matches TokenStep::Refresh(request) && asks_for(
            request,
            bearer.config,
        ),
        Step::Wait => step is Wait,
    }
}

/// The profile API client: the credential cache and the two endpoints.
pub struct CisClient {
    pub bearer_store: CredentialCache<BearerBearer>,
    pub person_api_user_endpoint: String,
    pub change_api_user_endpoint: String,
}

impl CisClient {
    /// A client for `settings`, with no credential yet.
    pub fn from_settings(settings: &CisSettings) -> (client: Self)
        ensures
            client.bearer_store@.slot() is None,
            client.bearer_store@.idle(),
            client.bearer_store@.held.config == settings.client_config,
            client.bearer_store@.held.bearer_token_str@ == Seq::<char>::empty(),
            client.bearer_store@.held.exp == 0,
            client.person_api_user_endpoint@ == settings.person_api_user_endpoint@,
            client.change_api_user_endpoint@ == settings.change_api_user_endpoint@,
    {
        let bearer_store = CredentialCache::new(BearerBearer::new(settings.client_config.clone()));
        CisClient {
            bearer_store,
            person_api_user_endpoint: settings.person_api_user_endpoint.clone(),
            change_api_user_endpoint: settings.change_api_user_endpoint.clone(),
        }
    }

    /// Answers `caller`, who needs a bearer token at `now` (seconds since the
    /// Unix epoch): the cached token while it is valid; otherwise the request
    /// to refresh it, for the first caller, and the instruction to wait, for
    /// every other until that refresh is reported.
    pub fn bearer_token(&mut self, caller: u64, now: i64) -> (step: TokenStep)
        ensures
            passes_on(step, old(self).bearer_store@.answer(now)),
            final(self).bearer_store@ == old(self).bearer_store@.after_get(caller, now),
            final(self).person_api_user_endpoint == old(self).person_api_user_endpoint,
            final(self).change_api_user_endpoint == old(self).change_api_user_endpoint,
    {
        match self.bearer_store.get(caller, now) {
            Step::Ready(bearer) => TokenStep::Ready(bearer.bearer_token_str),
            Step::Refresh(bearer) => TokenStep::Refresh(token_request(&bearer.config)),
            Step::Wait => TokenStep::Wait,
        }
    }

    /// Reports how the refresh in flight ended: with `answer` of the token
    /// endpoint, or with `None` where it could not be reached.
    ///
    /// An answer that issues a token replaces the credential; anything else
    /// leaves the credential as it was. The refresher and everyone waiting
    /// are released with the same token or the same failure, and every
    /// failure is of the one kind `AuthEndpoint`.
    pub fn refresh_done(&mut self, answer: Option<TokenAnswer>) -> (release: TokenRelease)
        ensures
            release.callers@ == old(self).bearer_store@.released(),
            final(self).person_api_user_endpoint == old(self).person_api_user_endpoint,
            final(self).change_api_user_endpoint == old(self).change_api_user_endpoint,
            match refresh_outcome(answer) {
                Ok((token, expiry)) => {
                    &&& release.token matches Ok(handed)
                    &&& handed@ == token
                    &&& final(self).bearer_store@ == old(self).bearer_store@.after_complete(
                        Ok(final(self).bearer_store@.held),
                    )
                    &&& final(self).bearer_store@.held.bearer_token_str@ == token
                    &&& final(self).bearer_store@.held.exp == expiry
                    &&& final(self).bearer_store@.held.config == old(self).bearer_store@.held.config
                },
                Err(e) => {
                    &&& release.token == Err::<String, ClientError>(ClientError::AuthEndpoint(e))
                    &&& final(self).bearer_store@ == old(self).bearer_store@.after_complete(Err(e))
                },
            },
    {
        let outcome = match answer {
            None => Err(RefreshError::Transport),
            Some(answer) => self.bearer_store.held().refreshed(
                answer.status,
                answer.body.as_slice(),
            ),
        };
        let release = self.bearer_store.complete(outcome);
        let token = match release.outcome {
            Ok(bearer) => Ok(bearer.bearer_token_str),
            Err(e) => Err(ClientError::AuthEndpoint(e)),
        };
        TokenRelease { callers: release.callers, token }
    }

    /// The request that reads the profile `id`, looked up by `by`, with the
    /// display filter where one is given, authorised with `token`.
    pub fn get_user_by(&self, id: &str, by: &GetBy, filter: Option<&str>, token: &str) -> (r:
        Result<ApiRequest<()>, ClientError>)
        ensures
            match r {
                Ok(request) => {
                    &&& request.method == Method::Get
                    &&& user_url_of(self.person_api_user_endpoint@, *by, id@, view_of(filter))
                        == Some(request.url@)
                    &&& request.token@ == token@
                    &&& request.body is None
                },
                Err(e) => e == ClientError::InvalidUrl && user_url_of(
                    self.person_api_user_endpoint@,
                    *by,
                    id@,
                    view_of(filter),
                ) is None,
            },
    {
        match user_url(self.person_api_user_endpoint.as_str(), by, id, filter) {
            Ok(url) => Ok(
                ApiRequest { method: Method::Get, url, token: token.to_owned(), body: None },
            ),
            Err(e) => Err(e),
        }
    }

    /// The request that posts `profile` as a change of the profile `id`,
    /// authorised with `token`.
    pub fn update_user<P>(&self, id: &str, profile: P, token: &str) -> (r: Result<
        ApiRequest<P>,
        ClientError,
    >)
        ensures
            match r {
                Ok(request) => {
                    &&& request.method == Method::Post
                    &&& change_url_of(self.change_api_user_endpoint@, id@) == Some(request.url@)
                    &&& request.token@ == token@
                    &&& request.body == Some(profile)
                },
                Err(e) => e == ClientError::InvalidUrl && change_url_of(
                    self.change_api_user_endpoint@,
                    id@,
                ) is None,
            },
    {
        match change_url(self.change_api_user_endpoint.as_str(), id) {
            Ok(url) => Ok(
                ApiRequest {
                    method: Method::Post,
                    url,
                    token: token.to_owned(),
                    body: Some(profile),
                },
            ),
            Err(e) => Err(e),
        }
    }

    /// The request that deletes from the profile `id` what `profile` names,
    /// authorised with `token`. It differs from a change in its method only.
    pub fn delete_user<P>(&self, id: &str, profile: P, token: &str) -> (r: Result<
        ApiRequest<P>,
        ClientError,
    >)
        ensures
            match r {
                Ok(request) => {
                    &&& request.method == Method::Delete
                    &&& change_url_of(self.change_api_user_endpoint@, id@) == Some(request.url@)
                    &&& request.token@ == token@
                    &&& request.body == Some(profile)
                },
                Err(e) => e == ClientError::InvalidUrl && change_url_of(
                    self.change_api_user_endpoint@,
                    id@,
                ) is None,
            },
    {
        match change_url(self.change_api_user_endpoint.as_str(), id) {
            Ok(url) => Ok(
                ApiRequest {
                    method: Method::Delete,
                    url,
                    token: token.to_owned(),
                    body: Some(profile),
                },
            ),
            Err(e) => Err(e),
        }
    }
}

/// What a reported refresh amounts to: the issued token and its expiry, or
/// why there is none.
pub open spec fn refresh_outcome(answer: Option<TokenAnswer>) -> Result<
    (Seq<char>, i64),
    RefreshError,
> {
    match answer {
        None => Err(RefreshError::Transport),
        Some(answer) => issued_by(answer.status, answer.body@),
    }
}

/// What a read or change endpoint answered: the status, and the body as the
/// JSON document it was read as, or nothing where it could not be read as
/// one.
pub struct ApiAnswer<D> {
    pub status: u16,
    pub document: Option<D>,
}

/// The result of reading a profile. Only an answer of status 200..=299
/// carries one; the status is looked at before the body.
pub open spec fn read_result<D>(answer: Option<ApiAnswer<D>>) -> Result<D, ClientError> {
    match answer {
        None => Err(ClientError::Transport),
        Some(answer) => if !is_success(answer.status) {
            Err(ClientError::ApiEndpoint(ApiFailure::Status(answer.status)))
        } else {
            match answer.document {
                None => Err(ClientError::ApiEndpoint(ApiFailure::Body)),
                Some(profile) => Ok(profile),
            }
        },
    }
}

/// The result of a change or a deletion: the answer's document whatever the
/// status, for the caller to inspect.
pub open spec fn change_result<D>(answer: Option<ApiAnswer<D>>) -> Result<D, ClientError> {
    match answer {
        None => Err(ClientError::Transport),
        Some(answer) => match answer.document {
            None => Err(ClientError::ApiEndpoint(ApiFailure::Body)),
            Some(document) => Ok(document),
        },
    }
}

/// Maps the read endpoint's answer, or `None` where the endpoint could not
/// be reached, to the profile or the failure.
pub fn user_response<D>(answer: Option<ApiAnswer<D>>) -> (r: Result<D, ClientError>)
    ensures
        r == read_result(answer),
{
    match answer {
        None => Err(ClientError::Transport),
        Some(answer) => {
            if !status_is_success(answer.status) {
                return Err(ClientError::ApiEndpoint(ApiFailure::Status(answer.status)));
            }
            match answer.document {
                None => Err(ClientError::ApiEndpoint(ApiFailure::Body)),
                Some(profile) => Ok(profile),
            }
        },
    }
}

/// Maps the change endpoint's answer, or `None` where the endpoint could not
/// be reached, to the answer's document or the failure.
pub fn change_response<D>(answer: Option<ApiAnswer<D>>) -> (r: Result<D, ClientError>)
    ensures
        r == change_result(answer),
{
    match answer {
        None => Err(ClientError::Transport),
        Some(answer) => match answer.document {
            None => Err(ClientError::ApiEndpoint(ApiFailure::Body)),
            Some(document) => Ok(document),
        },
    }
}

} // verus!
