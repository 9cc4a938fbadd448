//! The effects that pages ask the browser side to perform, and what they
//! do to the session: its token and its cookies.

use vstd::prelude::*;

use crate::api::{opt_text, ApiRequest};
use crate::pages::{page_path, Page};

verus! {

/// The cookie that keeps the session token across reloads.
pub const TOKEN_COOKIE: &'static str = "user_token";

/// The cookie that keeps the name of the signed-in user.
pub const NAME_COOKIE: &'static str = "user_name";

/// Something a page asks its host to do.
#[derive(Clone, Debug, PartialEq, Eq)]
pub enum Effect {
    /// Send this request to the backend.
    Request(ApiRequest),
    /// Read the body of the response that just arrived.
    ReadBody,
    /// Show this error message on the page.
    ShowError(String),
    /// Store a cookie.
    SetCookie { name: String, value: String },
    /// Remove a cookie.
    DeleteCookie(String),
    /// Replace the session token that all pages read.
    StoreToken(Option<String>),
    /// Go to another page, with the title to show for it.
    Navigate { path: String, title: Option<String> },
}

/// The session token after the effects, in order, starting from `token`.
pub open spec fn token_after(token: Option<Seq<char>>, effects: Seq<Effect>) -> Option<Seq<char>>
    decreases effects.len(),
{
    if effects.len() == 0 {
        token
    } else {
        let before = token_after(token, effects.drop_last());
        match effects.last() {
            Effect::StoreToken(t) => opt_text(t),
            _ => before,
        }
    }
}

/// The cookies, by name, after the effects, in order, starting from `jar`.
pub open spec fn cookies_after(jar: Map<Seq<char>, Seq<char>>, effects: Seq<Effect>) -> Map<Seq<char>, Seq<char>>
    decreases effects.len(),
{
    if effects.len() == 0 {
        jar
    } else {
        let before = cookies_after(jar, effects.drop_last());
        match effects.last() {
            Effect::SetCookie { name, value } => before.insert(name@, value@),
            Effect::DeleteCookie(name) => before.remove(name@),
            _ => before,
        }
    }
}

/// The token that the application starts with: the token cookie, if any.
pub open spec fn startup_token(jar: Map<Seq<char>, Seq<char>>) -> Option<Seq<char>> {
    if jar.contains_key(TOKEN_COOKIE@) {
        Some(jar[TOKEN_COOKIE@])
    } else {
        None
    }
}

/// Whether `e` goes to `path` with `title`.
pub open spec fn is_navigation(e: Effect, path: Seq<char>, title: Option<Seq<char>>) -> bool {
    e matches Effect::Navigate { path: p, title: t } && p@ == path && opt_text(t) == title
}

/// The effect that goes to `path`, showing `title`.
pub fn navigate(path: &str, title: Option<&str>) -> (e: Effect)
    ensures
        is_navigation(e, path@, match title { Some(t) => Some(t@), None => None }),
{
    let title = match title {
        Some(t) => Some(String::from_str(t)),
        None => None,
    };
    Effect::Navigate { path: String::from_str(path), title }
}

/// The effect that sends an unauthenticated visitor to the sign-in page.
pub fn reroute_to_login() -> (e: Effect)
    ensures
        is_navigation(e, page_path(Page::Login), None),
{
    navigate(Page::Login.path(), None)
}

/// Signing out: remove the token cookie, then the name cookie, forget the
/// token, and go to the home page.
pub open spec fn is_logout(effects: Seq<Effect>) -> bool {
    &&& effects.len() == 4
    &&& effects[0] matches Effect::DeleteCookie(name) && name@ == TOKEN_COOKIE@
    &&& effects[1] matches Effect::DeleteCookie(name) && name@ == NAME_COOKIE@
    &&& effects[2] == Effect::StoreToken(None)
    &&& is_navigation(effects[3], "/"@, Some("Home"@))
}

/// What signing out does: removes the token and name cookies, forgets the
/// token, and goes to the home page.
pub fn logout_effects() -> (effects: Vec<Effect>)
    ensures
        is_logout(effects@),
{
    let mut effects: Vec<Effect> = Vec::new();
    effects.push(Effect::DeleteCookie(String::from_str(TOKEN_COOKIE)));
    effects.push(Effect::DeleteCookie(String::from_str(NAME_COOKIE)));
    effects.push(Effect::StoreToken(None));
    effects.push(navigate("/", Some("Home")));
    effects
}

/// After signing out no token is held, and a reload starts without one.
pub proof fn lemma_logout_ends_session(
    effects: Seq<Effect>,
    token: Option<Seq<char>>,
    jar: Map<Seq<char>, Seq<char>>,
)
    requires
        is_logout(effects),
    ensures
        token_after(token, effects) is None,
        startup_token(cookies_after(jar, effects)) is None,
        !cookies_after(jar, effects).contains_key(NAME_COOKIE@),
{
    reveal_with_fuel(token_after, 5);
    reveal_with_fuel(cookies_after, 5);
    assert(effects.drop_last().drop_last().drop_last().drop_last() =~= Seq::<Effect>::empty());
    reveal_strlit("user_token");
    reveal_strlit("user_name");
    assert(TOKEN_COOKIE@ != NAME_COOKIE@) by {
        assert(TOKEN_COOKIE@[5] != NAME_COOKIE@[5]);
    }
}

} // verus!
