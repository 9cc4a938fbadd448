//! The account page.

use vstd::prelude::*;

use crate::api::{account_url, endpoint, is_request, ApiRequest, Method};
use crate::decimal::{decimal, digits_value, is_digits, lemma_decimal_reads_back, u64_to_decimal};
use crate::pages::{page_path, Page};
use crate::session::{is_navigation, reroute_to_login, Effect};

verus! {

/// The signed-in account, as the backend describes it.
#[derive(Clone, Debug, PartialEq, Eq)]
pub struct Account {
    pub id: String,
    pub name: String,
    pub todo_count: u64,
}

/// What the account page does when it opens with the session token `token`.
pub open spec fn account_entry_effect(token: Option<String>, e: Effect) -> bool {
    match token {
        None => is_navigation(e, page_path(Page::Login), None),
        Some(t) => e matches Effect::Request(r) && is_request(
            r,
            Method::Get,
            endpoint("/api/accounts/@me"@),
            Some(t@),
            None,
        ),
    }
}

/// Opening the account page: without a session it goes to the sign-in
/// page; with one it asks the backend for the signed-in account.
pub fn account_entry(token: &Option<String>) -> (e: Effect)
    ensures
        account_entry_effect(*token, e),
{
    match token {
        None => reroute_to_login(),
        Some(t) => Effect::Request(
            ApiRequest {
                method: Method::Get,
                url: account_url(),
                authorization: Some(t.clone()),
                body: None,
            },
        ),
    }
}

/// The line under the account name: `You have <count> todos`.
pub open spec fn todo_count_line(count: nat) -> Seq<char> {
    "You have "@ + decimal(count) + " todos"@
}

/// Whether `line` reads `You have <digits> todos` where the digits read as `count`.
pub open spec fn shows_count(line: Seq<char>, count: int) -> bool {
    &&& line.len() > 15
    &&& line.subrange(0, 9) == "You have "@
    &&& line.subrange(line.len() - 6, line.len() as int) == " todos"@
    &&& is_digits(line.subrange(9, line.len() - 6))
    &&& digits_value(line.subrange(9, line.len() - 6)) == count
}

/// The line for `count` todos is `You have `, then digits that read back as
/// `count`, then ` todos`.
pub proof fn lemma_todo_count_line_reads_back(count: nat)
    ensures
        shows_count(todo_count_line(count), count as int),
{
    reveal_strlit("You have ");
    reveal_strlit(" todos");
    lemma_decimal_reads_back(count);
    let line = todo_count_line(count);
    let d = decimal(count);
    assert(line.subrange(0, 9) =~= "You have "@);
    assert(line.subrange(line.len() - 6, line.len() as int) =~= " todos"@);
    assert(line.subrange(9, line.len() - 6) =~= d);
}

/// The line under the account name, for an account with `count` todos.
pub fn todo_count_text(count: u64) -> (line: String)
    ensures
        line@ == todo_count_line(count as nat),
        shows_count(line@, count as int),
{
    proof {
        lemma_todo_count_line_reads_back(count as nat);
    }
    let mut line = String::from_str("You have ");
    line.append(u64_to_decimal(count).as_str());
    line.append(" todos");
    line
}

} // verus!
