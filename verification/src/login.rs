//! Signing in.

use vstd::prelude::*;

use crate::api::{endpoint, is_ok_status, is_request, login_url, ApiRequest, Method, RequestBody};
use crate::pages::{page_path, Page};
use crate::session::{
    cookies_after, is_navigation, navigate, startup_token, token_after, Effect, NAME_COOKIE,
    TOKEN_COOKIE,
};

verus! {

/// What the sign-in form sends.
#[derive(Clone, Debug, PartialEq, Eq)]
pub struct LoginBody {
    pub username: String,
    pub password: String,
}

/// What the backend answers to a successful sign-in.
#[derive(Clone, Debug, PartialEq, Eq)]
pub struct LoginResponse {
    pub name: String,
    pub user_id: u64,
    pub token: String,
}

/// What happens while signing in.
#[derive(Clone, Debug, PartialEq, Eq)]
pub enum LoginEvent {
    /// The form was submitted.
    Submitted { username: String, password: String },
    /// The request could not be sent or answered; the message describes why.
    SendFailed(String),
    /// The backend answered with this status.
    Responded { status: u16 },
    /// The body of a successful answer was read.
    Decoded(LoginResponse),
    /// The body of a successful answer could not be read; the message describes why.
    DecodeFailed(String),
}

/// The message shown when the backend refuses the credentials.
pub open spec fn refused_message() -> Seq<char> {
    "Incorrect login details."@
}

/// The effects of a successful sign-in with `response`: store the name and
/// token cookies, hold the token, and go to the account page.
pub open spec fn is_sign_in(effects: Seq<Effect>, response: LoginResponse) -> bool {
    &&& effects.len() == 4
    &&& effects[0] matches Effect::SetCookie { name, value } && name@ == NAME_COOKIE@ && value
        == response.name
    &&& effects[1] matches Effect::SetCookie { name, value } && name@ == TOKEN_COOKIE@ && value
        == response.token
    &&& effects[2] == Effect::StoreToken(Some(response.token))
    &&& is_navigation(effects[3], page_path(Page::Account), Some("Account"@))
}

/// What the sign-in page does for each event.
pub open spec fn login_effects(event: LoginEvent, effects: Seq<Effect>) -> bool {
    match event {
        LoginEvent::Submitted { username, password } => {
            &&& effects.len() == 1
            &&& effects[0] matches Effect::Request(r) && is_request(
                r,
                Method::Post,
                endpoint("/api/accounts/login"@),
                None,
                Some(RequestBody::Login(LoginBody { username, password })),
            )
        },
        LoginEvent::SendFailed(message) => effects == seq![Effect::ShowError(message)],
        LoginEvent::Responded { status } => if status == 200 {
            effects == seq![Effect::ReadBody]
        } else {
            &&& effects.len() == 1
            &&& effects[0] matches Effect::ShowError(m) && m@ == refused_message()
        },
        LoginEvent::Decoded(response) => is_sign_in(effects, response),
        LoginEvent::DecodeFailed(message) => effects == seq![Effect::ShowError(message)],
    }
}

/// The sign-in page's reaction to one event: a submitted form is posted to
/// the backend without authorization; a failure shows its message; an answer
/// other than `200 OK` shows that the credentials were refused; a `200 OK`
/// answer is read; and a read answer signs the user in.
pub fn login_step(event: LoginEvent) -> (effects: Vec<Effect>)
    ensures
        login_effects(event, effects@),
{
    let mut effects: Vec<Effect> = Vec::new();
    match event {
        LoginEvent::Submitted { username, password } => {
            effects.push(
                Effect::Request(
                    ApiRequest {
                        method: Method::Post,
                        url: login_url(),
                        authorization: None,
                        body: Some(RequestBody::Login(LoginBody { username, password })),
                    },
                ),
            );
        },
        LoginEvent::SendFailed(message) => {
            effects.push(Effect::ShowError(message));
        },
        LoginEvent::Responded { status } => {
            if is_ok_status(status) {
                effects.push(Effect::ReadBody);
            } else {
                effects.push(Effect::ShowError(String::from_str("Incorrect login details.")));
            }
        },
        LoginEvent::Decoded(response) => {
            let LoginResponse { name, user_id: _, token } = response;
            effects.push(Effect::SetCookie { name: String::from_str(NAME_COOKIE), value: name });
            effects.push(
                Effect::SetCookie { name: String::from_str(TOKEN_COOKIE), value: token.clone() },
            );
            effects.push(Effect::StoreToken(Some(token)));
            effects.push(navigate(Page::Account.path(), Some("Account")));
        },
        LoginEvent::DecodeFailed(message) => {
            effects.push(Effect::ShowError(message));
        },
    }
    effects
}

/// After a successful sign-in the session holds the returned token, and a
/// reload starts with that same token.
pub proof fn lemma_sign_in_starts_session(
    effects: Seq<Effect>,
    response: LoginResponse,
    token: Option<Seq<char>>,
    jar: Map<Seq<char>, Seq<char>>,
)
    requires
        is_sign_in(effects, response),
    ensures
        token_after(token, effects) == Some(response.token@),
        startup_token(cookies_after(jar, effects)) == Some(response.token@),
        cookies_after(jar, effects)[NAME_COOKIE@] == response.name@,
{
    reveal_with_fuel(token_after, 5);
    reveal_with_fuel(cookies_after, 5);
    assert(effects.drop_last().drop_last().drop_last().drop_last() =~= Seq::<Effect>::empty());
    reveal_strlit("user_token");
    reveal_strlit("user_name");
    assert(TOKEN_COOKIE@ != NAME_COOKIE@) by {
        assert(TOKEN_COOKIE@[5] != NAME_COOKIE@[5]);
    }
}

/// A sign-in that fails, at whatever point, leaves the token and the
/// cookies as they were.
pub proof fn lemma_failed_sign_in_keeps_session(
    event: LoginEvent,
    effects: Seq<Effect>,
    token: Option<Seq<char>>,
    jar: Map<Seq<char>, Seq<char>>,
)
    requires
        !(event is Decoded),
        login_effects(event, effects),
    ensures
        token_after(token, effects) == token,
        cookies_after(jar, effects) == jar,
{
    reveal_with_fuel(token_after, 2);
    reveal_with_fuel(cookies_after, 2);
    assert(effects.drop_last() =~= Seq::<Effect>::empty());
}

} // verus!
