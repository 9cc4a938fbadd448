//! The backend's address, its endpoints, and the requests the client sends.

use vstd::prelude::*;

use crate::login::LoginBody;
use crate::todos::CreateTodosRequest;

verus! {

/// Where the backend listens.
pub const BASE_URL: &'static str = "http://localhost:8001";

/// The full address of an endpoint path of the backend.
pub open spec fn endpoint(path: Seq<char>) -> Seq<char> {
    BASE_URL@ + path
}

/// The HTTP method of a request.
#[derive(PartialEq, Eq, Structural, Clone, Copy, Debug)]
pub enum Method {
    Get,
    Post,
    Delete,
}

/// The JSON body that a request carries.
#[derive(Clone, Debug, PartialEq, Eq)]
pub enum RequestBody {
    Login(LoginBody),
    CreateTodo(CreateTodosRequest),
}

/// A request to the backend, as plain values: the caller performs it.
#[derive(Clone, Debug, PartialEq, Eq)]
pub struct ApiRequest {
    pub method: Method,
    pub url: String,
    /// The value of the `Authorization` header, if any.
    pub authorization: Option<String>,
    pub body: Option<RequestBody>,
}

/// The text of an optional string.
pub open spec fn opt_text(o: Option<String>) -> Option<Seq<char>> {
    match o {
        Some(s) => Some(s@),
        None => None,
    }
}

/// Whether `r` is the request with this method, address, authorization and body.
pub open spec fn is_request(
    r: ApiRequest,
    method: Method,
    url: Seq<char>,
    authorization: Option<Seq<char>>,
    body: Option<RequestBody>,
) -> bool {
    &&& r.method == method
    &&& r.url@ == url
    &&& opt_text(r.authorization) == authorization
    &&& r.body == body
}

fn url_for(path: &str) -> (url: String)
    ensures
        url@ == endpoint(path@),
{
    let mut url = String::from_str(BASE_URL);
    url.append(path);
    url
}

/// The address that lists and creates todos.
pub fn todos_url() -> (url: String)
    ensures
        url@ == endpoint("/api/todos"@),
{
    url_for("/api/todos")
}

/// The address of one todo.
pub fn todo_url(todo_id: &str) -> (url: String)
    ensures
        url@ == endpoint("/api/todos/"@ + todo_id@),
{
    let mut url = url_for("/api/todos/");
    url.append(todo_id);
    proof {
        assert(endpoint("/api/todos/"@) + todo_id@ =~= endpoint("/api/todos/"@ + todo_id@));
    }
    url
}

/// The address of the signed-in account.
pub fn account_url() -> (url: String)
    ensures
        url@ == endpoint("/api/accounts/@me"@),
{
    url_for("/api/accounts/@me")
}

/// The address that signs a user in.
pub fn login_url() -> (url: String)
    ensures
        url@ == endpoint("/api/accounts/login"@),
{
    url_for("/api/accounts/login")
}

/// `reqwest::StatusCode::OK` as a number: the http crate defines it as 200.
#[verifier::external_body]
fn ok_code() -> (code: u16)
    ensures
        code == 200,
{
    reqwest::StatusCode::OK.as_u16()
}

/// `reqwest::StatusCode::NO_CONTENT` as a number: the http crate defines it as 204.
#[verifier::external_body]
fn no_content_code() -> (code: u16)
    ensures
        code == 204,
{
    reqwest::StatusCode::NO_CONTENT.as_u16()
}

/// Whether a response status is `200 OK`.
pub fn is_ok_status(status: u16) -> (ok: bool)
    ensures
        ok == (status == 200),
{
    status == ok_code()
}

/// Whether a response status is `204 No Content`.
pub fn is_no_content_status(status: u16) -> (no_content: bool)
    ensures
        no_content == (status == 204),
{
    status == no_content_code()
}

} // verus!
