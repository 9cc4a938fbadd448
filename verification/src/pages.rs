//! The pages of the application, their addresses, and the navigation bar.

use vstd::prelude::*;

verus! {

/// A page that the router shows.
#[derive(Clone, Copy, Debug, PartialEq, Eq, Structural)]
pub enum Page {
    Todos,
    Account,
    Login,
    Register,
    Logout,
}

/// The address of a page.
pub open spec fn page_path(page: Page) -> Seq<char> {
    match page {
        Page::Todos => "/todos"@,
        Page::Account => "/account"@,
        Page::Login => "/login"@,
        Page::Register => "/register"@,
        Page::Logout => "/logout"@,
    }
}

/// The text of a page's link in the navigation bar.
pub open spec fn page_label(page: Page) -> Seq<char> {
    match page {
        Page::Todos => "Todos"@,
        Page::Account => "Account"@,
        Page::Login => "Login"@,
        Page::Register => "Register"@,
        Page::Logout => "Logout"@,
    }
}

/// No two pages share an address.
pub proof fn lemma_page_paths_distinct(a: Page, b: Page)
    ensures
        page_path(a) == page_path(b) <==> a == b,
{
    reveal_strlit("/todos");
    reveal_strlit("/account");
    reveal_strlit("/login");
    reveal_strlit("/register");
    reveal_strlit("/logout");
    if a != b {
        assert(page_path(a).len() != page_path(b).len() || page_path(a)[1] != page_path(b)[1]);
    }
}

impl Page {
    /// The address of this page.
    pub fn path(&self) -> (path: &'static str)
        ensures
            path@ == page_path(*self),
    {
        match self {
            Page::Todos => "/todos",
            Page::Account => "/account",
            Page::Login => "/login",
            Page::Register => "/register",
            Page::Logout => "/logout",
        }
    }

    /// The text of this page's link.
    pub fn label(&self) -> (label: &'static str)
        ensures
            label@ == page_label(*self),
    {
        match self {
            Page::Todos => "Todos",
            Page::Account => "Account",
            Page::Login => "Login",
            Page::Register => "Register",
            Page::Logout => "Logout",
        }
    }
}

/// The links of the navigation bar: the todo list always, then the account
/// page and signing out for a signed-in user, or signing in otherwise.
pub open spec fn nav_pages(signed_in: bool) -> Seq<Page> {
    if signed_in {
        seq![Page::Todos, Page::Account, Page::Logout]
    } else {
        seq![Page::Todos, Page::Login]
    }
}

/// The links of the navigation bar, in order, for a user who is signed in or not.
pub fn nav_links(signed_in: bool) -> (links: Vec<Page>)
    ensures
        links@ == nav_pages(signed_in),
{
    let mut links: Vec<Page> = Vec::new();
    links.push(Page::Todos);
    if signed_in {
        links.push(Page::Account);
        links.push(Page::Logout);
    } else {
        links.push(Page::Login);
    }
    links
}

/// A signed-in user is offered signing out and never signing in; a visitor
/// is offered signing in and neither the account page nor signing out.
pub proof fn lemma_nav_offers_one_way(signed_in: bool)
    ensures
        nav_pages(signed_in).contains(Page::Logout) == signed_in,
        nav_pages(signed_in).contains(Page::Account) == signed_in,
        nav_pages(signed_in).contains(Page::Login) == !signed_in,
        nav_pages(signed_in).contains(Page::Todos),
{
    let links = nav_pages(signed_in);
    if signed_in {
        assert(links[2] == Page::Logout);
        assert(links[1] == Page::Account);
        assert(links[0] == Page::Todos);
        assert(!links.contains(Page::Login)) by {
            if links.contains(Page::Login) {
                let i = choose|i: int| 0 <= i < links.len() && links[i] == Page::Login;
            }
        }
    } else {
        assert(links[1] == Page::Login);
        assert(links[0] == Page::Todos);
        assert(!links.contains(Page::Logout) && !links.contains(Page::Account)) by {
            if links.contains(Page::Logout) {
                let i = choose|i: int| 0 <= i < links.len() && links[i] == Page::Logout;
            }
            if links.contains(Page::Account) {
                let i = choose|i: int| 0 <= i < links.len() && links[i] == Page::Account;
            }
        }
    }
}

} // verus!
