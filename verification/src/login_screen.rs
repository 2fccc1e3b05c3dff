//! The sign-in form: its state, its events and its reducer.

use vstd::prelude::*;
use crate::task::{Task, TaskView};
use crate::utils::auth::{result_view, AuthResponse, AuthResponseView, AuthResult, Request, RequestView};
use crate::{CurrentScreen, CurrentScreenView};

verus! {

/// What the sign-in form holds between two events.
#[derive(Debug, Clone)]
pub struct State {
    pub identifier: String,
    pub password: String,
    pub is_loading: bool,
    pub identifier_error: Option<String>,
    pub password_error: Option<String>,
}

/// Mathematical model of the form's [`State`].
pub struct StateView {
    pub identifier: Seq<char>,
    pub password: Seq<char>,
    pub is_loading: bool,
    pub identifier_error: Option<Seq<char>>,
    pub password_error: Option<Seq<char>>,
}

impl View for State {
    type V = StateView;

    open spec fn view(&self) -> StateView {
        StateView {
            identifier: self.identifier@,
            password: self.password@,
            is_loading: self.is_loading,
            identifier_error: self.identifier_error.deep_view(),
            password_error: self.password_error.deep_view(),
        }
    }
}

impl StateView {
    /// The form as it is first shown: empty fields, no error, nothing in flight.
    pub open spec fn initial() -> StateView {
        StateView {
            identifier: Seq::empty(),
            password: Seq::empty(),
            is_loading: false,
            identifier_error: None,
            password_error: None,
        }
    }
}

impl State {
    /// A freshly initialised form.
    pub fn new() -> (state: Self)
        ensures
            state@ == StateView::initial(),
    {
        Self {
            identifier: String::new(),
            password: String::new(),
            is_loading: false,
            identifier_error: None,
            password_error: None,
        }
    }
}

impl Default for State {
    fn default() -> (state: Self)
        ensures
            state@ == StateView::initial(),
    {
        State::new()
    }
}

impl StateView {
    /// The caption of the submit button: it says so while a sign-in is in flight.
    pub open spec fn submit_label(self) -> Seq<char> {
        if self.is_loading {
            "Loging in\u{2026}"@
        } else {
            "Login"@
        }
    }
}

impl State {
    /// The caption to show on the submit button.
    pub fn submit_label(&self) -> (label: &'static str)
        ensures
            label@ == self@.submit_label(),
    {
        if self.is_loading {
            "Loging in\u{2026}"
        } else {
            "Login"
        }
    }
}

/// The events of the sign-in form.
#[derive(Debug, Clone)]
pub enum Message<U> {
    UsernameInputChanged(String),
    PasswordInputChanged(String),
    LoginButtonPressed,
    LoginSuccess(AuthResponse<U>),
    LoginFailed(String),
    RegisterInstead,
    RequestScreenChange(CurrentScreen),
}

/// Model of the form's [`Message`].
pub enum MessageView<U> {
    UsernameInputChanged(Seq<char>),
    PasswordInputChanged(Seq<char>),
    LoginButtonPressed,
    LoginSuccess(AuthResponseView<U>),
    LoginFailed(Seq<char>),
    RegisterInstead,
    RequestScreenChange(CurrentScreenView),
}

impl<U> View for Message<U> {
    type V = MessageView<U>;

    open spec fn view(&self) -> MessageView<U> {
        match self {
            Message::UsernameInputChanged(value) => MessageView::UsernameInputChanged(value@),
            Message::PasswordInputChanged(value) => MessageView::PasswordInputChanged(value@),
            Message::LoginButtonPressed => MessageView::LoginButtonPressed,
            Message::LoginSuccess(response) => MessageView::LoginSuccess(response@),
            Message::LoginFailed(error) => MessageView::LoginFailed(error@),
            Message::RegisterInstead => MessageView::RegisterInstead,
            Message::RequestScreenChange(screen) => MessageView::RequestScreenChange(screen@),
        }
    }
}

/// The form after one event.
///
/// An edit overwrites its field and clears that field's error. A submission
/// marks the form as in flight. Either answer to a submission ends the flight;
/// a failure puts its text on both fields. Asking for the registration form
/// ends the flight too. A screen change request leaves the form as it is.
pub open spec fn next_state<U>(state: StateView, message: MessageView<U>) -> StateView {
    match message {
        MessageView::UsernameInputChanged(value) => StateView {
            identifier: value,
            identifier_error: None,
            ..state
        },
        MessageView::PasswordInputChanged(value) => StateView {
            password: value,
            password_error: None,
            ..state
        },
        MessageView::LoginButtonPressed => StateView { is_loading: true, ..state },
        MessageView::LoginSuccess(_) => StateView { is_loading: false, ..state },
        MessageView::LoginFailed(error) => StateView {
            is_loading: false,
            identifier_error: Some(error),
            password_error: Some(error),
            ..state
        },
        MessageView::RegisterInstead => StateView { is_loading: false, ..state },
        MessageView::RequestScreenChange(_) => state,
    }
}

/// What one event asks for.
///
/// A submission asks for the sign-in exchange with the fields as they stand.
/// Asking for the registration form yields the request to show a freshly
/// initialised one. Nothing else asks for anything.
pub open spec fn next_task<U>(state: StateView, message: MessageView<U>) -> TaskView<MessageView<U>> {
    match message {
        MessageView::LoginButtonPressed => TaskView::Perform(
            RequestView::Login { identifier: state.identifier, password: state.password },
        ),
        MessageView::RegisterInstead => TaskView::Done(
            MessageView::RequestScreenChange(
                CurrentScreenView::Register(crate::register_screen::StateView::initial()),
            ),
        ),
        _ => TaskView::Nothing,
    }
}

/// Reduces one event of the sign-in form.
pub fn update<U>(state: &mut State, message: Message<U>) -> (task: Task<Message<U>>)
    ensures
        final(state)@ == next_state(old(state)@, message@),
        task@ == next_task(old(state)@, message@),
{
    match message {
        Message::UsernameInputChanged(value) => {
            state.identifier = value;
            state.identifier_error = None;
            Task::Nothing
        },
        Message::PasswordInputChanged(value) => {
            state.password = value;
            state.password_error = None;
            Task::Nothing
        },
        Message::LoginButtonPressed => {
            state.is_loading = true;
            Task::Perform(
                Request::Login {
                    identifier: state.identifier.clone(),
                    password: state.password.clone(),
                },
            )
        },
        Message::LoginSuccess(_) => {
            state.is_loading = false;
            Task::Nothing
        },
        Message::LoginFailed(error) => {
            state.is_loading = false;
            state.identifier_error = Some(error.clone());
            state.password_error = Some(error);
            Task::Nothing
        },
        Message::RegisterInstead => {
            state.is_loading = false;
            Task::Done(
                Message::RequestScreenChange(
                    CurrentScreen::Register(crate::register_screen::State::new()),
                ),
            )
        },
        Message::RequestScreenChange(_) => Task::Nothing,
    }
}

/// The event that stands for the answer to a sign-in exchange.
pub open spec fn resolution<U>(result: Result<AuthResponseView<U>, Seq<char>>) -> MessageView<U> {
    match result {
        Ok(response) => MessageView::LoginSuccess(response),
        Err(error) => MessageView::LoginFailed(error),
    }
}

/// Wraps the answer to a sign-in exchange into the form's event for it.
pub fn resolved<U>(result: AuthResult<U>) -> (message: Message<U>)
    ensures
        message@ == resolution(result_view(result)),
{
    match result {
        Ok(response) => Message::LoginSuccess(response),
        Err(error) => Message::LoginFailed(error),
    }
}

/// The form after a run of events, reduced in order.
pub open spec fn run<U>(state: StateView, messages: Seq<MessageView<U>>) -> StateView
    decreases messages.len(),
{
    if messages.len() == 0 {
        state
    } else {
        next_state(run(state, messages.drop_last()), messages.last())
    }
}

impl<U> MessageView<U> {
    /// The event is an edit of one of the form's fields.
    pub open spec fn is_edit(self) -> bool {
        self is UsernameInputChanged || self is PasswordInputChanged
    }

    /// Both events are edits of the same field.
    pub open spec fn edits_same_field(self, other: MessageView<U>) -> bool {
        ||| self is UsernameInputChanged && other is UsernameInputChanged
        ||| self is PasswordInputChanged && other is PasswordInputChanged
    }
}

/// After any run of edits, a field holds the value of its last edit and its
/// error slot is empty: `last` is the place of an edit after which the run
/// does not edit the same field again.
pub proof fn lemma_last_edit_wins<U>(state: StateView, messages: Seq<MessageView<U>>, last: int)
    requires
        forall|i: int| 0 <= i < messages.len() ==> (#[trigger] messages[i]).is_edit(),
        0 <= last < messages.len(),
        forall|j: int|
            last < j < messages.len() ==> !(#[trigger] messages[j]).edits_same_field(messages[last]),
    ensures
        messages[last] matches MessageView::UsernameInputChanged(value) ==> {
            &&& run(state, messages).identifier == value
            &&& run(state, messages).identifier_error is None
        },
        messages[last] matches MessageView::PasswordInputChanged(value) ==> {
            &&& run(state, messages).password == value
            &&& run(state, messages).password_error is None
        },
    decreases messages.len(),
{
    let earlier = messages.drop_last();
    if last < messages.len() - 1 {
        assert(!messages[messages.len() - 1].edits_same_field(messages[last]));
        assert(messages.last().is_edit());
        assert forall|i: int| 0 <= i < earlier.len() implies (#[trigger] earlier[i]).is_edit() by {
            assert(earlier[i] == messages[i]);
        }
        assert forall|j: int| last < j < earlier.len() implies !(#[trigger] earlier[j]).edits_same_field(
            earlier[last],
        ) by {
            assert(earlier[j] == messages[j]);
        }
        lemma_last_edit_wins(state, earlier, last);
    }
}

/// A failed sign-in ends the flight and shows the failure's text on both the
/// identifier and the password, whatever the form held before.
pub proof fn lemma_failure_is_shown_on_both_fields<U>(state: StateView, error: Seq<char>)
    ensures
        next_state::<U>(state, MessageView::LoginFailed(error)).identifier_error == Some(error),
        next_state::<U>(state, MessageView::LoginFailed(error)).password_error == Some(error),
        !next_state::<U>(state, MessageView::LoginFailed(error)).is_loading,
        next_state::<U>(state, MessageView::LoginFailed(error)).identifier == state.identifier,
        next_state::<U>(state, MessageView::LoginFailed(error)).password == state.password,
        next_task::<U>(state, MessageView::LoginFailed(error)) is Nothing,
{
}

} // verus!
