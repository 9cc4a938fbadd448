//! The todo list: the requests its worker sends and how the replies change the list.

use vstd::prelude::*;

use crate::api::{
    is_no_content_status, is_request, todo_url, todos_url, ApiRequest, Method,
    RequestBody, endpoint,
};
use crate::datetime::Timestamp;
use crate::pages::{page_path, Page};
use crate::session::{is_navigation, reroute_to_login, Effect};

verus! {

/// A todo as the backend stores it.
#[derive(Clone, Debug, PartialEq, Eq)]
pub struct Todo {
    pub title: String,
    pub id: String,
    pub completed: bool,
    pub created_at: Timestamp,
    pub description: Option<String>,
}

/// What the backend answers when asked for all todos.
#[derive(Clone, Debug, PartialEq, Eq)]
pub struct TodosResponse {
    pub todo: Vec<Todo>,
}

/// What the form that creates a todo sends.
#[derive(Clone, Debug, PartialEq, Eq)]
pub struct CreateTodosRequest {
    pub title: String,
}

/// A message to the worker that talks to the backend about todos.
#[derive(Clone, Debug, PartialEq, Eq)]
pub enum TodoAction {
    GetAll,
    Edit { todo_id: String, title: String, description: String },
    Delete(String),
    Create(String),
}

/// What the worker does with one message.
#[derive(Clone, Debug, PartialEq, Eq)]
pub enum WorkerStep {
    /// The worker ends: the channel is closed or nobody is signed in.
    Stop,
    /// Nothing is sent for this message.
    Skip,
    /// This request is sent.
    Send(ApiRequest),
}

/// The answer that the worker hands back after a request.
#[derive(Clone, Debug, PartialEq, Eq)]
pub enum TodoReply {
    /// The list of all todos arrived.
    Fetched(TodosResponse),
    /// The backend answered the deletion of `todo_id` with `status`.
    Deleted { todo_id: String, status: u16 },
    /// A new todo was created.
    Created(Todo),
}

/// What the todo page does when it opens.
#[derive(Clone, Debug, PartialEq, Eq)]
pub enum TodosEntry {
    /// Hand this message to the worker and show the list.
    Load(TodoAction),
    /// Leave the page.
    Reroute(Effect),
}

/// Opening the todo page: with a session it asks the worker for all todos;
/// without one it goes to the sign-in page.
pub fn todos_entry(token: &Option<String>) -> (entry: TodosEntry)
    ensures
        token is Some ==> (entry matches TodosEntry::Load(action) && action is GetAll),
        token is None ==> (entry matches TodosEntry::Reroute(e) && is_navigation(e, page_path(Page::Login), None)),
{
    match token {
        Some(_) => TodosEntry::Load(TodoAction::GetAll),
        None => TodosEntry::Reroute(reroute_to_login()),
    }
}

/// Whether `t` is not the todo with the given id.
pub open spec fn keeps(id: Seq<char>) -> spec_fn(Todo) -> bool {
    |t: Todo| t.id@ != id
}

/// The list without the todos that carry `id`, in the same order.
pub open spec fn without_todo(todos: Seq<Todo>, id: Seq<char>) -> Seq<Todo> {
    todos.filter(keeps(id))
}

/// What the worker does for `message` when the session holds `token`.
pub open spec fn worker_step_spec(message: Option<TodoAction>, token: Option<String>, step: WorkerStep) -> bool {
    match (message, token) {
        (Some(action), Some(token)) => match action {
            TodoAction::GetAll => step matches WorkerStep::Send(r) && is_request(
                r, Method::Get, endpoint("/api/todos"@), Some(token@), None),
            TodoAction::Edit { .. } => step is Skip,
            TodoAction::Delete(id) => step matches WorkerStep::Send(r) && is_request(
                r, Method::Delete, endpoint("/api/todos/"@ + id@), Some(token@), None),
            TodoAction::Create(title) => step matches WorkerStep::Send(r) && is_request(
                r, Method::Post, endpoint("/api/todos"@), Some(token@),
                Some(RequestBody::CreateTodo(CreateTodosRequest { title }))),
        },
        _ => step is Stop,
    }
}

/// Decides what the todo worker does with the next message: it stops when
/// the channel is closed or no token is held, sends nothing for an edit,
/// and otherwise sends the matching authorized request.
pub fn worker_step(message: Option<TodoAction>, token: &Option<String>) -> (step: WorkerStep)
    ensures
        worker_step_spec(message, *token, step),
{
    match token {
        None => WorkerStep::Stop,
        Some(token) => match message {
            None => WorkerStep::Stop,
            Some(TodoAction::GetAll) => WorkerStep::Send(
                ApiRequest {
                    method: Method::Get,
                    url: todos_url(),
                    authorization: Some(token.clone()),
                    body: None,
                },
            ),
            Some(TodoAction::Edit { .. }) => WorkerStep::Skip,
            Some(TodoAction::Delete(todo_id)) => WorkerStep::Send(
                ApiRequest {
                    method: Method::Delete,
                    url: todo_url(todo_id.as_str()),
                    authorization: Some(token.clone()),
                    body: None,
                },
            ),
            Some(TodoAction::Create(title)) => WorkerStep::Send(
                ApiRequest {
                    method: Method::Post,
                    url: todos_url(),
                    authorization: Some(token.clone()),
                    body: Some(RequestBody::CreateTodo(CreateTodosRequest { title })),
                },
            ),
        },
    }
}

impl Todo {
    /// A copy of this todo.
    pub fn duplicate(&self) -> (copy: Todo)
        ensures
            copy == *self,
    {
        let description = match &self.description {
            Some(d) => Some(d.clone()),
            None => None,
        };
        Todo {
            title: self.title.clone(),
            id: self.id.clone(),
            completed: self.completed,
            created_at: self.created_at,
            description,
        }
    }
}

/// The todos without the one whose id is `todo_id`, in their order.
pub fn remove_todo(todos: &Vec<Todo>, todo_id: &String) -> (kept: Vec<Todo>)
    ensures
        kept@ == without_todo(todos@, todo_id@),
{
    let mut kept: Vec<Todo> = Vec::new();
    let mut i: usize = 0;
    while i < todos.len()
        invariant
            i <= todos.len(),
            kept@ == without_todo(todos@.take(i as int), todo_id@),
        decreases todos.len() - i,
    {
        let t = &todos[i];
        proof {
            reveal(Seq::filter);
            assert(todos@.take(i + 1).drop_last() =~= todos@.take(i as int));
            assert(todos@.take(i + 1).last() == todos@[i as int]);
        }
        if !(t.id == *todo_id) {
            kept.push(t.duplicate());
        }
        i = i + 1;
    }
    proof {
        assert(todos@.take(todos@.len() as int) =~= todos@);
    }
    kept
}

/// How a reply changes the shown list: a fetched list replaces it, a
/// deletion answered with `204 No Content` removes that todo, any other
/// answer to a deletion leaves the list as it is, and a created todo is
/// added at the end.
pub fn apply_reply(todos: &mut Vec<Todo>, reply: TodoReply)
    ensures
        match reply {
            TodoReply::Fetched(response) => final(todos)@ == response.todo@,
            TodoReply::Deleted { todo_id, status } => final(todos)@ == if status == 204 {
                without_todo(old(todos)@, todo_id@)
            } else {
                old(todos)@
            },
            TodoReply::Created(todo) => final(todos)@ == old(todos)@.push(todo),
        },
{
    match reply {
        TodoReply::Fetched(response) => {
            *todos = response.todo;
        },
        TodoReply::Deleted { todo_id, status } => {
            if is_no_content_status(status) {
                let kept = remove_todo(todos, &todo_id);
                *todos = kept;
            }
        },
        TodoReply::Created(todo) => {
            todos.push(todo);
        },
    }
}


/// After a deletion no todo with the deleted id is left.
pub proof fn lemma_deleted_todo_is_gone(todos: Seq<Todo>, id: Seq<char>)
    ensures
        forall|i: int|
            0 <= i < without_todo(todos, id).len() ==> (#[trigger] without_todo(todos, id)[i]).id@
                != id,
{
    assert forall|i: int| 0 <= i < without_todo(todos, id).len() implies (
    #[trigger] without_todo(todos, id)[i]).id@ != id by {
        todos.lemma_filter_pred(keeps(id), i);
    }
}

/// A deletion keeps every todo whose id differs from the deleted one.
pub proof fn lemma_deletion_keeps_other_todos(todos: Seq<Todo>, id: Seq<char>, i: int)
    requires
        0 <= i < todos.len(),
        todos[i].id@ != id,
    ensures
        without_todo(todos, id).contains(todos[i]),
{
    todos.lemma_filter_contains(keeps(id), i);
}

/// A list in which no todo carries `id` is left as it is by deleting `id`.
pub proof fn lemma_delete_absent_id(todos: Seq<Todo>, id: Seq<char>)
    requires
        forall|i: int| 0 <= i < todos.len() ==> (#[trigger] todos[i]).id@ != id,
    ensures
        without_todo(todos, id) == todos,
    decreases todos.len(),
{
    reveal(Seq::filter);
    if todos.len() > 0 {
        let rest = todos.drop_last();
        assert forall|i: int| 0 <= i < rest.len() implies (#[trigger] rest[i]).id@ != id by {
            assert(rest[i] == todos[i]);
        }
        lemma_delete_absent_id(rest, id);
        assert(todos.last().id@ != id);
        assert(rest.push(todos.last()) =~= todos);
    }
}

/// Deleting twice deletes no more than deleting once.
pub proof fn lemma_delete_idempotent(todos: Seq<Todo>, id: Seq<char>)
    ensures
        without_todo(without_todo(todos, id), id) == without_todo(todos, id),
{
    lemma_deleted_todo_is_gone(todos, id);
    lemma_delete_absent_id(without_todo(todos, id), id);
}

/// Creating a todo with an id that no listed todo carries and then
/// deleting that id gives back the list as it was.
pub proof fn lemma_delete_undoes_create(todos: Seq<Todo>, created: Todo)
    requires
        forall|i: int| 0 <= i < todos.len() ==> (#[trigger] todos[i]).id@ != created.id@,
    ensures
        without_todo(todos.push(created), created.id@) == todos,
{
    reveal(Seq::filter);
    assert(todos.push(created).drop_last() =~= todos);
    lemma_delete_absent_id(todos, created.id@);
}

} // verus!
