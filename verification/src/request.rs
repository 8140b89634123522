//! The requests that a backup makes, and how an answer is judged.
//!
//! A request is described by plain values. The program that drives a run
//! turns the description into a call of its HTTP client and hands back the
//! status and body that came.

use crate::error::{lemma_bytes_view, result_view, BackupError, BackupErrorView};
use crate::repository::{Owner, Repository, RepositoryView};
use crate::text::{decimal, decimal_string};
use vstd::prelude::*;
use vstd::string::StringExecFns;

verus! {

/// The method of a request. A backup only reads.
#[derive(Debug, Clone, Copy, PartialEq, Eq, Structural)]
pub enum Method {
    Get,
}

/// A name with its value: a header or a query parameter.
#[derive(Debug, PartialEq, Eq)]
pub struct Field {
    pub name: String,
    pub value: String,
}

/// What a [`Field`] stands for in contracts.
pub struct FieldView {
    pub name: Seq<char>,
    pub value: Seq<char>,
}

impl View for Field {
    type V = FieldView;

    open spec fn view(&self) -> FieldView {
        FieldView { name: self.name@, value: self.value@ }
    }
}

impl DeepView for Field {
    type V = FieldView;

    open spec fn deep_view(&self) -> FieldView {
        self@
    }
}

/// One request to the platform.
#[derive(Debug, PartialEq, Eq)]
pub struct ApiRequest {
    pub method: Method,
    pub url: String,
    pub headers: Vec<Field>,
    pub query: Vec<Field>,
}

/// What an [`ApiRequest`] stands for in contracts.
pub struct ApiRequestView {
    pub method: Method,
    pub url: Seq<char>,
    pub headers: Seq<FieldView>,
    pub query: Seq<FieldView>,
}

impl View for ApiRequest {
    type V = ApiRequestView;

    open spec fn view(&self) -> ApiRequestView {
        ApiRequestView {
            method: self.method,
            url: self.url@,
            headers: self.headers.deep_view(),
            query: self.query.deep_view(),
        }
    }
}

impl DeepView for ApiRequest {
    type V = ApiRequestView;

    open spec fn deep_view(&self) -> ApiRequestView {
        self@
    }
}

/// The answer to a request: its status code and its whole body.
#[derive(Debug, PartialEq, Eq)]
pub struct RawResponse {
    pub status: u16,
    pub body: Vec<u8>,
}

/// What a [`RawResponse`] stands for in contracts.
pub struct RawResponseView {
    pub status: u16,
    pub body: Seq<u8>,
}

impl View for RawResponse {
    type V = RawResponseView;

    open spec fn view(&self) -> RawResponseView {
        RawResponseView { status: self.status, body: self.body@ }
    }
}

impl DeepView for RawResponse {
    type V = RawResponseView;

    open spec fn deep_view(&self) -> RawResponseView {
        self@
    }
}

/// How many repositories one page of the listing holds at most.
pub const PAGE_SIZE: usize = 100;

/// How many pages of the listing a run asks for at most, so that it lists
/// at most `PAGE_SIZE * MAX_PAGES` repositories.
pub const MAX_PAGES: u64 = 100;

/// The value of the authorization header for `token`.
pub open spec fn bearer(token: Seq<char>) -> Seq<char> {
    "Bearer "@ + token
}

/// The client name that is sent where the account's login is not.
pub open spec fn default_agent() -> Seq<char> {
    "Lorenzobattistela"@
}

/// The headers that every request carries: the credential, the accepted
/// media type and the name of the client, in this order.
pub open spec fn common_headers(token: Seq<char>, agent: Seq<char>) -> Seq<FieldView> {
    seq![
        FieldView { name: "Authorization"@, value: bearer(token) },
        FieldView { name: "Accept"@, value: "application/vnd.github+json"@ },
        FieldView { name: "user-agent"@, value: agent },
    ]
}

/// The request that asks which account the credential belongs to.
pub open spec fn owner_request_view(token: Seq<char>) -> ApiRequestView {
    ApiRequestView {
        method: Method::Get,
        url: "https://api.github.com/user"@,
        headers: common_headers(token, default_agent()),
        query: Seq::empty(),
    }
}

/// The query of the listing request for page `page`, counted from 1. The
/// first page is asked for by the page size alone.
pub open spec fn page_query(page: nat) -> Seq<FieldView> {
    if page <= 1 {
        seq![FieldView { name: "per_page"@, value: decimal(PAGE_SIZE as nat) }]
    } else {
        seq![
            FieldView { name: "per_page"@, value: decimal(PAGE_SIZE as nat) },
            FieldView { name: "page"@, value: decimal(page) },
        ]
    }
}

/// The request that lists page `page` of the repositories that the
/// credential can see. It names the account `login` as the client.
pub open spec fn repos_request_view(token: Seq<char>, login: Seq<char>, page: nat) -> ApiRequestView {
    ApiRequestView {
        method: Method::Get,
        url: "https://api.github.com/user/repos"@,
        headers: common_headers(token, login),
        query: page_query(page),
    }
}

/// Where the archive of the default branch of `repo` is fetched from.
pub open spec fn archive_url(repo: RepositoryView) -> Seq<char> {
    "https://api.github.com/repos/"@ + repo.owner.login + "/"@ + repo.name + "/zipball/"@
        + repo.default_branch
}

/// The request that fetches the archive of the default branch of `repo`.
/// Besides the common headers it names the version of the interface.
pub open spec fn archive_request_view(token: Seq<char>, repo: RepositoryView) -> ApiRequestView {
    ApiRequestView {
        method: Method::Get,
        url: archive_url(repo),
        headers: common_headers(token, default_agent()).push(
            FieldView { name: "X-GitHub-Api-Version"@, value: "2022-11-28"@ },
        ),
        query: Seq::empty(),
    }
}

/// Whether the status `code` reports a client or a server error.
pub open spec fn is_error_status(code: u16) -> bool {
    400 <= code < 600
}

/// The name of the header that identifies the client, in the spelling of
/// `reqwest::header::USER_AGENT`. Trusted: that constant's `as_str` gives
/// the lower-case name `user-agent`.
#[verifier::external_body]
fn user_agent_name() -> (name: String)
    ensures
        name@ == "user-agent"@,
{
    reqwest::header::USER_AGENT.as_str().to_string()
}

fn common_headers_for(token: &str, agent: &str) -> (headers: Vec<Field>)
    ensures
        headers.deep_view() == common_headers(token@, agent@),
{
    let mut credential = String::from_str("Bearer ");
    credential.append(token);
    let mut headers: Vec<Field> = Vec::new();
    headers.push(Field { name: String::from_str("Authorization"), value: credential });
    headers.push(
        Field {
            name: String::from_str("Accept"),
            value: String::from_str("application/vnd.github+json"),
        },
    );
    headers.push(Field { name: user_agent_name(), value: String::from_str(agent) });
    assert(headers.deep_view() =~= common_headers(token@, agent@));
    headers
}

/// The client name that is sent where the account's login is not.
pub fn default_agent_name() -> (agent: &'static str)
    ensures
        agent@ == default_agent(),
{
    "Lorenzobattistela"
}

/// Builds the request that asks which account `token` belongs to.
pub fn owner_request(token: &str) -> (request: ApiRequest)
    ensures
        request@ == owner_request_view(token@),
{
    let request = ApiRequest {
        method: Method::Get,
        url: String::from_str("https://api.github.com/user"),
        headers: common_headers_for(token, default_agent_name()),
        query: Vec::new(),
    };
    assert(request.query.deep_view() =~= Seq::empty());
    request
}

/// Builds the request that lists page `page` of the repositories that
/// `token` can see, on behalf of `owner`.
pub fn repos_request(token: &str, owner: &Owner, page: u64) -> (request: ApiRequest)
    ensures
        request@ == repos_request_view(token@, owner@.login, page as nat),
{
    let mut query: Vec<Field> = Vec::new();
    query.push(
        Field { name: String::from_str("per_page"), value: decimal_string(PAGE_SIZE as u64) },
    );
    if page > 1 {
        query.push(Field { name: String::from_str("page"), value: decimal_string(page) });
    }
    assert(query.deep_view() =~= page_query(page as nat));
    ApiRequest {
        method: Method::Get,
        url: String::from_str("https://api.github.com/user/repos"),
        headers: common_headers_for(token, owner.login.as_str()),
        query,
    }
}

/// Builds the address from which the archive of the default branch of
/// `repository` is fetched.
pub fn archive_address(repository: &Repository) -> (url: String)
    ensures
        url@ == archive_url(repository@),
{
    let mut url = String::from_str("https://api.github.com/repos/");
    url.append(repository.owner.login.as_str());
    url.append("/");
    url.append(repository.name.as_str());
    url.append("/zipball/");
    url.append(repository.default_branch.as_str());
    url
}

/// Builds the request that fetches the archive of the default branch of
/// `repository`.
pub fn archive_request(token: &str, repository: &Repository) -> (request: ApiRequest)
    ensures
        request@ == archive_request_view(token@, repository@),
{
    let mut headers = common_headers_for(token, default_agent_name());
    let ghost common = headers.deep_view();
    headers.push(
        Field {
            name: String::from_str("X-GitHub-Api-Version"),
            value: String::from_str("2022-11-28"),
        },
    );
    assert(headers.deep_view() =~= common.push(
        FieldView { name: "X-GitHub-Api-Version"@, value: "2022-11-28"@ },
    ));
    let request = ApiRequest {
        method: Method::Get,
        url: archive_address(repository),
        headers,
        query: Vec::new(),
    };
    assert(request.query.deep_view() =~= Seq::empty());
    request
}

/// Judges a status code: a client or server error is an error of the
/// request, every other status lets the answer through.
pub fn check_status(code: u16) -> (outcome: Result<(), BackupError>)
    ensures
        result_view(outcome) == if is_error_status(code) {
            Err::<(), BackupErrorView>(BackupErrorView::HttpStatus { code })
        } else {
            Ok::<(), BackupErrorView>(())
        },
{
    if 400 <= code && code < 600 {
        Err(BackupError::HttpStatus { code })
    } else {
        Ok(())
    }
}

/// What an answer is worth: its body, unless its status reports an error.
pub open spec fn accepted(response: RawResponseView) -> Result<Seq<u8>, BackupErrorView> {
    if is_error_status(response.status) {
        Err(BackupErrorView::HttpStatus { code: response.status })
    } else {
        Ok(response.body)
    }
}

/// Hands out the body of `response`, or the error that its status reports.
pub fn accept_response(response: RawResponse) -> (outcome: Result<Vec<u8>, BackupError>)
    ensures
        result_view(outcome) == accepted(response@),
{
    proof {
        lemma_bytes_view(response.body);
    }
    match check_status(response.status) {
        Ok(()) => Ok(response.body),
        Err(error) => Err(error),
    }
}

} // verus!
