use std::collections::HashMap;

use todo_client::account::account_entry;
use todo_client::api::{ApiRequest, Method, RequestBody};
use todo_client::login::{login_step, LoginBody, LoginEvent, LoginResponse};
use todo_client::session::{logout_effects, reroute_to_login, Effect, NAME_COOKIE, TOKEN_COOKIE};

/// Carries out the session effects on a token and a cookie jar.
fn run(token: &mut Option<String>, jar: &mut HashMap<String, String>, effects: &[Effect]) {
    for e in effects {
        match e {
            Effect::SetCookie { name, value } => {
                jar.insert(name.clone(), value.clone());
            },
            Effect::DeleteCookie(name) => {
                jar.remove(name);
            },
            Effect::StoreToken(t) => *token = t.clone(),
            _ => {},
        }
    }
}

fn response() -> LoginResponse {
    LoginResponse { name: "ada".to_string(), user_id: 7, token: "tok-123".to_string() }
}

#[test]
fn submitting_posts_the_credentials_without_authorization() {
    let effects = login_step(LoginEvent::Submitted {
        username: "ada".to_string(),
        password: "pw".to_string(),
    });
    assert_eq!(
        effects,
        vec![Effect::Request(ApiRequest {
            method: Method::Post,
            url: "http://localhost:8001/api/accounts/login".to_string(),
            authorization: None,
            body: Some(RequestBody::Login(LoginBody {
                username: "ada".to_string(),
                password: "pw".to_string(),
            })),
        })]
    );
}

#[test]
fn refused_credentials_show_a_message() {
    for status in [401u16, 403, 500, 201] {
        assert_eq!(
            login_step(LoginEvent::Responded { status }),
            vec![Effect::ShowError("Incorrect login details.".to_string())]
        );
    }
    assert_eq!(login_step(LoginEvent::Responded { status: 200 }), vec![Effect::ReadBody]);
}

#[test]
fn failures_show_their_message() {
    assert_eq!(
        login_step(LoginEvent::SendFailed("connection refused".to_string())),
        vec![Effect::ShowError("connection refused".to_string())]
    );
    assert_eq!(
        login_step(LoginEvent::DecodeFailed("missing field `token`".to_string())),
        vec![Effect::ShowError("missing field `token`".to_string())]
    );
}

#[test]
fn signing_in_stores_token_and_cookies_then_opens_the_account() {
    let effects = login_step(LoginEvent::Decoded(response()));
    assert_eq!(
        effects,
        vec![
            Effect::SetCookie { name: "user_name".to_string(), value: "ada".to_string() },
            Effect::SetCookie { name: "user_token".to_string(), value: "tok-123".to_string() },
            Effect::StoreToken(Some("tok-123".to_string())),
            Effect::Navigate { path: "/account".to_string(), title: Some("Account".to_string()) },
        ]
    );
}

#[test]
fn a_reload_after_signing_in_keeps_the_token() {
    let mut token = None;
    let mut jar = HashMap::new();
    run(&mut token, &mut jar, &login_step(LoginEvent::Decoded(response())));
    assert_eq!(token.as_deref(), Some("tok-123"));
    assert_eq!(jar.get(TOKEN_COOKIE).cloned(), token);
    assert_eq!(jar.get(NAME_COOKIE).map(String::as_str), Some("ada"));
}

#[test]
fn a_failed_sign_in_leaves_the_session_alone() {
    let mut token = Some("old".to_string());
    let mut jar = HashMap::new();
    jar.insert("user_token".to_string(), "old".to_string());
    run(&mut token, &mut jar, &login_step(LoginEvent::Responded { status: 401 }));
    run(&mut token, &mut jar, &login_step(LoginEvent::SendFailed("x".to_string())));
    assert_eq!(token.as_deref(), Some("old"));
    assert_eq!(jar.len(), 1);
}

#[test]
fn signing_out_ends_the_session() {
    let effects = logout_effects();
    assert_eq!(
        effects,
        vec![
            Effect::DeleteCookie("user_token".to_string()),
            Effect::DeleteCookie("user_name".to_string()),
            Effect::StoreToken(None),
            Effect::Navigate { path: "/".to_string(), title: Some("Home".to_string()) },
        ]
    );
    let mut token = None;
    let mut jar = HashMap::new();
    run(&mut token, &mut jar, &login_step(LoginEvent::Decoded(response())));
    run(&mut token, &mut jar, &effects);
    assert_eq!(token, None);
    assert!(jar.is_empty());
}

#[test]
fn the_account_page_needs_a_session() {
    assert_eq!(account_entry(&None), reroute_to_login());
    assert_eq!(
        reroute_to_login(),
        Effect::Navigate { path: "/login".to_string(), title: None }
    );
    assert_eq!(
        account_entry(&Some("tok".to_string())),
        Effect::Request(ApiRequest {
            method: Method::Get,
            url: "http://localhost:8001/api/accounts/@me".to_string(),
            authorization: Some("tok".to_string()),
            body: None,
        })
    );
}
