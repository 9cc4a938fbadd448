use todo_client::api::{ApiRequest, Method, RequestBody};
use todo_client::datetime::Timestamp;
use todo_client::modal::{modal_heading, modal_is_open, modal_step, ModalEvent, ModalState};
use todo_client::session::Effect;
use todo_client::todos::{
    apply_reply, remove_todo, todos_entry, worker_step, CreateTodosRequest, Todo, TodoAction,
    TodoReply, TodosEntry, TodosResponse, WorkerStep,
};

fn todo(id: &str, title: &str) -> Todo {
    Todo {
        title: title.to_string(),
        id: id.to_string(),
        completed: false,
        created_at: Timestamp { year: 2022, month: 5, day: 1, hour: 10, minute: 0 },
        description: None,
    }
}

fn ids(todos: &[Todo]) -> Vec<&str> {
    todos.iter().map(|t| t.id.as_str()).collect()
}

#[test]
fn the_worker_stops_without_a_token_or_a_channel() {
    assert_eq!(worker_step(Some(TodoAction::GetAll), &None), WorkerStep::Stop);
    assert_eq!(worker_step(None, &Some("tok".to_string())), WorkerStep::Stop);
    assert_eq!(worker_step(None, &None), WorkerStep::Stop);
}

#[test]
fn the_worker_sends_authorized_requests() {
    let token = Some("tok".to_string());
    assert_eq!(
        worker_step(Some(TodoAction::GetAll), &token),
        WorkerStep::Send(ApiRequest {
            method: Method::Get,
            url: "http://localhost:8001/api/todos".to_string(),
            authorization: Some("tok".to_string()),
            body: None,
        })
    );
    assert_eq!(
        worker_step(Some(TodoAction::Delete("42".to_string())), &token),
        WorkerStep::Send(ApiRequest {
            method: Method::Delete,
            url: "http://localhost:8001/api/todos/42".to_string(),
            authorization: Some("tok".to_string()),
            body: None,
        })
    );
    assert_eq!(
        worker_step(Some(TodoAction::Create("milk".to_string())), &token),
        WorkerStep::Send(ApiRequest {
            method: Method::Post,
            url: "http://localhost:8001/api/todos".to_string(),
            authorization: Some("tok".to_string()),
            body: Some(RequestBody::CreateTodo(CreateTodosRequest { title: "milk".to_string() })),
        })
    );
    assert_eq!(
        worker_step(
            Some(TodoAction::Edit {
                todo_id: "1".to_string(),
                title: "t".to_string(),
                description: "d".to_string(),
            }),
            &token
        ),
        WorkerStep::Skip
    );
}

#[test]
fn fetching_replaces_the_list() {
    let mut list = vec![todo("a", "old")];
    apply_reply(&mut list, TodoReply::Fetched(TodosResponse { todo: vec![todo("b", "x"), todo("c", "y")] }));
    assert_eq!(ids(&list), vec!["b", "c"]);
}

#[test]
fn creating_appends() {
    let mut list = vec![todo("a", "x")];
    apply_reply(&mut list, TodoReply::Created(todo("b", "y")));
    assert_eq!(ids(&list), vec!["a", "b"]);
}

#[test]
fn a_confirmed_deletion_removes_only_that_todo() {
    let mut list = vec![todo("a", "1"), todo("b", "2"), todo("a", "3"), todo("c", "4")];
    apply_reply(&mut list, TodoReply::Deleted { todo_id: "a".to_string(), status: 204 });
    assert_eq!(ids(&list), vec!["b", "c"]);
    assert_eq!(list[0].title, "2");
}

#[test]
fn an_unconfirmed_deletion_changes_nothing() {
    let before = vec![todo("a", "1"), todo("b", "2")];
    for status in [200u16, 404, 500] {
        let mut list = before.clone();
        apply_reply(&mut list, TodoReply::Deleted { todo_id: "a".to_string(), status });
        assert_eq!(list, before);
    }
}

#[test]
fn deleting_twice_is_deleting_once() {
    let list = vec![todo("a", "1"), todo("b", "2"), todo("a", "3")];
    let once = remove_todo(&list, &"a".to_string());
    let twice = remove_todo(&once, &"a".to_string());
    assert_eq!(once, twice);
    assert_eq!(remove_todo(&list, &"zzz".to_string()), list);
    assert_eq!(remove_todo(&Vec::new(), &"a".to_string()), Vec::new());
}

#[test]
fn deleting_a_created_todo_restores_the_list() {
    let before = vec![todo("a", "1"), todo("b", "2")];
    let mut list = before.clone();
    apply_reply(&mut list, TodoReply::Created(todo("new", "3")));
    apply_reply(&mut list, TodoReply::Deleted { todo_id: "new".to_string(), status: 204 });
    assert_eq!(list, before);
}

#[test]
fn a_copy_is_equal() {
    let mut t = todo("a", "x");
    t.description = Some("d".to_string());
    t.completed = true;
    assert_eq!(t.duplicate(), t);
}

#[test]
fn the_todo_page_needs_a_session() {
    assert_eq!(todos_entry(&Some("t".to_string())), TodosEntry::Load(TodoAction::GetAll));
    assert_eq!(
        todos_entry(&None),
        TodosEntry::Reroute(Effect::Navigate { path: "/login".to_string(), title: None })
    );
}

#[test]
fn typing_a_title_and_pressing_done_creates_it() {
    let (state, action) = modal_step(ModalState::Closed, ModalEvent::OpenCreate);
    assert_eq!(state, ModalState::CreateTodo(String::new()));
    assert_eq!(action, None);
    assert_eq!(modal_heading(&state), "Create Todo");
    assert!(modal_is_open(&state));
    let (state, action) = modal_step(state, ModalEvent::CreateTitleInput("buy milk".to_string()));
    assert_eq!(action, None);
    let (state, action) = modal_step(state, ModalEvent::Done);
    assert_eq!(state, ModalState::Closed);
    assert_eq!(action, Some(TodoAction::Create("buy milk".to_string())));
    assert!(!modal_is_open(&state));
    assert_eq!(modal_heading(&state), "");
}

#[test]
fn editing_keeps_the_other_field() {
    let state = ModalState::EditTodo {
        todo_id: "7".to_string(),
        title: "a".to_string(),
        description: "b".to_string(),
    };
    assert_eq!(modal_heading(&state), "Edit Todo");
    let (state, _) = modal_step(
        state,
        ModalEvent::EditTitleInput { todo_id: "7".to_string(), description: "b".to_string(), value: "A".to_string() },
    );
    let (state, _) = modal_step(
        state,
        ModalEvent::EditDescriptionInput { todo_id: "7".to_string(), title: "A".to_string(), value: "B".to_string() },
    );
    let (state, action) = modal_step(state, ModalEvent::Done);
    assert_eq!(state, ModalState::Closed);
    assert_eq!(
        action,
        Some(TodoAction::Edit { todo_id: "7".to_string(), title: "A".to_string(), description: "B".to_string() })
    );
}

#[test]
fn closing_discards_the_dialog() {
    let (state, action) = modal_step(ModalState::CreateTodo("x".to_string()), ModalEvent::Close);
    assert_eq!(state, ModalState::Closed);
    assert_eq!(action, None);
    let (state, _) = modal_step(ModalState::Closed, ModalEvent::Close);
    assert_eq!(state, ModalState::Closed);
}
