use repo_backup::archive::{get_zipped_repo, ZippedRepository};
use repo_backup::error::BackupError;
use repo_backup::repository::{Owner, Repository};
use repo_backup::request::{
    accept_response, archive_address, archive_request, check_status, default_agent_name,
    owner_request, repos_request, ApiRequest, Field, Method, RawResponse, MAX_PAGES, PAGE_SIZE,
};

fn field(name: &str, value: &str) -> Field {
    Field { name: name.to_string(), value: value.to_string() }
}

fn repo(login: &str, name: &str, branch: &str) -> Repository {
    Repository {
        owner: Owner { login: login.to_string() },
        name: name.to_string(),
        default_branch: branch.to_string(),
    }
}

#[test]
fn owner_request_is_the_identity_call() {
    let request = owner_request("secret");
    assert_eq!(
        request,
        ApiRequest {
            method: Method::Get,
            url: "https://api.github.com/user".to_string(),
            headers: vec![
                field("Authorization", "Bearer secret"),
                field("Accept", "application/vnd.github+json"),
                field("user-agent", "Lorenzobattistela"),
            ],
            query: vec![],
        }
    );
}

#[test]
fn user_agent_header_has_the_name_the_client_gives_it() {
    let request = owner_request("t");
    assert_eq!(request.headers[2].name, reqwest::header::USER_AGENT.as_str());
    assert_eq!(request.headers[2].name, "user-agent");
    assert_eq!(request.headers[2].value, default_agent_name());
}

#[test]
fn listing_request_for_the_first_page() {
    let request = repos_request("secret", &Owner { login: "alice".to_string() }, 1);
    assert_eq!(
        request,
        ApiRequest {
            method: Method::Get,
            url: "https://api.github.com/user/repos".to_string(),
            headers: vec![
                field("Authorization", "Bearer secret"),
                field("Accept", "application/vnd.github+json"),
                field("user-agent", "alice"),
            ],
            query: vec![field("per_page", "100")],
        }
    );
    let zero = repos_request("secret", &Owner { login: "alice".to_string() }, 0);
    assert_eq!(zero.query, vec![field("per_page", "100")]);
}

#[test]
fn listing_request_for_a_later_page() {
    let request = repos_request("secret", &Owner { login: "alice".to_string() }, 3);
    assert_eq!(request.query, vec![field("per_page", "100"), field("page", "3")]);
    assert_eq!(request.url, "https://api.github.com/user/repos");
}

#[test]
fn page_limits() {
    assert_eq!(PAGE_SIZE, 100);
    assert_eq!(MAX_PAGES, 100);
}

#[test]
fn archive_address_names_owner_repository_and_branch() {
    assert_eq!(
        archive_address(&repo("alice", "tool", "main")),
        "https://api.github.com/repos/alice/tool/zipball/main"
    );
    assert_eq!(
        archive_address(&repo("bob", "x.y", "release/1.0")),
        "https://api.github.com/repos/bob/x.y/zipball/release/1.0"
    );
}

#[test]
fn archive_request_names_the_interface_version() {
    let request = archive_request("secret", &repo("alice", "tool", "trunk"));
    assert_eq!(
        request,
        ApiRequest {
            method: Method::Get,
            url: "https://api.github.com/repos/alice/tool/zipball/trunk".to_string(),
            headers: vec![
                field("Authorization", "Bearer secret"),
                field("Accept", "application/vnd.github+json"),
                field("user-agent", "Lorenzobattistela"),
                field("X-GitHub-Api-Version", "2022-11-28"),
            ],
            query: vec![],
        }
    );
}

#[test]
fn status_below_400_passes() {
    for code in [0u16, 100, 200, 204, 301, 304, 399] {
        assert_eq!(check_status(code), Ok(()));
    }
}

#[test]
fn status_from_400_to_599_is_an_error() {
    for code in [400u16, 401, 403, 404, 422, 499, 500, 502, 599] {
        assert_eq!(check_status(code), Err(BackupError::HttpStatus { code }));
    }
}

#[test]
fn status_from_600_passes() {
    for code in [600u16, 999, u16::MAX] {
        assert_eq!(check_status(code), Ok(()));
    }
}

#[test]
fn accepted_response_hands_out_its_body() {
    let response = RawResponse { status: 200, body: vec![1, 2, 3] };
    assert_eq!(accept_response(response), Ok(vec![1, 2, 3]));
    let empty = RawResponse { status: 204, body: vec![] };
    assert_eq!(accept_response(empty), Ok(vec![]));
}

#[test]
fn rejected_response_is_a_status_error() {
    let response = RawResponse { status: 404, body: b"not found".to_vec() };
    assert_eq!(accept_response(response), Err(BackupError::HttpStatus { code: 404 }));
}

#[test]
fn zipped_repo_holds_name_and_body() {
    let answer = Ok(RawResponse { status: 200, body: vec![80, 75, 3, 4, 0, 255] });
    assert_eq!(
        get_zipped_repo(&repo("alice", "tool", "main"), answer),
        Ok(ZippedRepository { name: "tool".to_string(), zip: vec![80, 75, 3, 4, 0, 255] })
    );
}

#[test]
fn zipped_repo_keeps_the_error_of_the_request() {
    let answer = Err(BackupError::Transport { detail: "connection refused".to_string() });
    assert_eq!(
        get_zipped_repo(&repo("alice", "tool", "main"), answer),
        Err(BackupError::Transport { detail: "connection refused".to_string() })
    );
}

#[test]
fn zipped_repo_turns_an_error_status_into_an_error() {
    let answer = Ok(RawResponse { status: 500, body: vec![1] });
    assert_eq!(
        get_zipped_repo(&repo("alice", "tool", "main"), answer),
        Err(BackupError::HttpStatus { code: 500 })
    );
}
