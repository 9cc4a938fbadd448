//! The dialog of the todo page that creates or edits a todo.

use vstd::prelude::*;

use crate::todos::TodoAction;

verus! {

/// What the dialog shows.
#[derive(Clone, Debug, PartialEq, Eq)]
pub enum ModalState {
    /// No dialog.
    Closed,
    /// The dialog that creates a todo, with the title typed so far.
    CreateTodo(String),
    /// The dialog that edits a todo, with the values typed so far.
    EditTodo { todo_id: String, title: String, description: String },
}

/// What the user does with the dialog.
#[derive(Clone, Debug, PartialEq, Eq)]
pub enum ModalEvent {
    /// The "+ New" button.
    OpenCreate,
    /// Typing in the title field of the create dialog.
    CreateTitleInput(String),
    /// Typing in the title field of the edit dialog that shows `todo_id` and `description`.
    EditTitleInput { todo_id: String, description: String, value: String },
    /// Typing in the description field of the edit dialog that shows `todo_id` and `title`.
    EditDescriptionInput { todo_id: String, title: String, value: String },
    /// The "Close" button.
    Close,
    /// The "Done" button.
    Done,
}

/// Whether `next` is the dialog after `event` in `state`, together with the
/// message the dialog hands to the todo worker.
pub open spec fn modal_next(state: ModalState, event: ModalEvent, next: (ModalState, Option<TodoAction>)) -> bool {
    match event {
        ModalEvent::OpenCreate => next.0 matches ModalState::CreateTodo(title) && title@.len() == 0
            && next.1 is None,
        ModalEvent::CreateTitleInput(value) => next == (ModalState::CreateTodo(value), None::<TodoAction>),
        ModalEvent::EditTitleInput { todo_id, description, value } => next == (
            ModalState::EditTodo { todo_id, title: value, description },
            None::<TodoAction>,
        ),
        ModalEvent::EditDescriptionInput { todo_id, title, value } => next == (
            ModalState::EditTodo { todo_id, title, description: value },
            None::<TodoAction>,
        ),
        ModalEvent::Close => next == (ModalState::Closed, None::<TodoAction>),
        ModalEvent::Done => match state {
            ModalState::CreateTodo(title) => next == (ModalState::Closed, Some(TodoAction::Create(title))),
            ModalState::EditTodo { todo_id, title, description } => next == (
                ModalState::Closed,
                Some(TodoAction::Edit { todo_id, title, description }),
            ),
            ModalState::Closed => false,
        },
    }
}

/// Moves the dialog on by one user event. "Done" submits what the dialog
/// holds to the todo worker and closes it; it is only shown while a dialog
/// is open.
pub fn modal_step(state: ModalState, event: ModalEvent) -> (next: (ModalState, Option<TodoAction>))
    requires
        event is Done ==> !(state is Closed),
    ensures
        modal_next(state, event, next),
{
    match event {
        ModalEvent::OpenCreate => (ModalState::CreateTodo(String::new()), None),
        ModalEvent::CreateTitleInput(value) => (ModalState::CreateTodo(value), None),
        ModalEvent::EditTitleInput { todo_id, description, value } => (
            ModalState::EditTodo { todo_id, title: value, description },
            None,
        ),
        ModalEvent::EditDescriptionInput { todo_id, title, value } => (
            ModalState::EditTodo { todo_id, title, description: value },
            None,
        ),
        ModalEvent::Close => (ModalState::Closed, None),
        ModalEvent::Done => match state {
            ModalState::CreateTodo(title) => (ModalState::Closed, Some(TodoAction::Create(title))),
            ModalState::EditTodo { todo_id, title, description } => (
                ModalState::Closed,
                Some(TodoAction::Edit { todo_id, title, description }),
            ),
            ModalState::Closed => (ModalState::Closed, None),
        },
    }
}

/// The heading of the dialog.
pub open spec fn heading_text(state: ModalState) -> Seq<char> {
    match state {
        ModalState::Closed => ""@,
        ModalState::CreateTodo(_) => "Create Todo"@,
        ModalState::EditTodo { .. } => "Edit Todo"@,
    }
}

/// The heading the dialog shows.
pub fn modal_heading(state: &ModalState) -> (heading: &'static str)
    ensures
        heading@ == heading_text(*state),
{
    match state {
        ModalState::Closed => "",
        ModalState::CreateTodo(_) => "Create Todo",
        ModalState::EditTodo { .. } => "Edit Todo",
    }
}

/// Whether a dialog is shown.
pub fn modal_is_open(state: &ModalState) -> (open: bool)
    ensures
        open == !(*state is Closed),
{
    match state {
        ModalState::Closed => false,
        _ => true,
    }
}

/// Typing a title into the create dialog and pressing "Done" closes the
/// dialog and asks the worker to create a todo with exactly that title.
pub proof fn lemma_done_creates_typed_title(
    state: ModalState,
    title: String,
    typed: (ModalState, Option<TodoAction>),
    done: (ModalState, Option<TodoAction>),
)
    requires
        modal_next(state, ModalEvent::CreateTitleInput(title), typed),
        modal_next(typed.0, ModalEvent::Done, done),
    ensures
        typed.1 is None,
        done == (ModalState::Closed, Some(TodoAction::Create(title))),
{
}

/// Every event that closes the dialog, "Close" or "Done", leaves no dialog.
pub proof fn lemma_close_and_done_close(state: ModalState, event: ModalEvent, next: (ModalState, Option<TodoAction>))
    requires
        event is Close || event is Done,
        modal_next(state, event, next),
    ensures
        next.0 is Closed,
{
}

} // verus!
