//! The registration form: its state, its events and its reducer.

use vstd::prelude::*;
use crate::task::{Task, TaskView};
use crate::utils::auth::{result_view, AuthResponse, AuthResponseView, AuthResult, Request, RequestView};
use crate::{CurrentScreen, CurrentScreenView};

verus! {

/// What the registration form holds between two events.
#[derive(Debug, Clone)]
pub struct State {
    pub username: String,
    pub password: String,
    pub password_confirm: String,
    pub is_loading: bool,
    pub username_error: Option<String>,
    pub password_error: Option<String>,
}

/// Mathematical model of the form's [`State`].
pub struct StateView {
    pub username: Seq<char>,
    pub password: Seq<char>,
    pub password_confirm: Seq<char>,
    pub is_loading: bool,
    pub username_error: Option<Seq<char>>,
    pub password_error: Option<Seq<char>>,
}

impl View for State {
    type V = StateView;

    open spec fn view(&self) -> StateView {
        StateView {
            username: self.username@,
            password: self.password@,
            password_confirm: self.password_confirm@,
            is_loading: self.is_loading,
            username_error: self.username_error.deep_view(),
            password_error: self.password_error.deep_view(),
        }
    }
}

impl StateView {
    /// The form as it is first shown: empty fields, no error, nothing in flight.
    pub open spec fn initial() -> StateView {
        StateView {
            username: Seq::empty(),
            password: Seq::empty(),
            password_confirm: Seq::empty(),
            is_loading: false,
            username_error: None,
            password_error: None,
        }
    }
}

impl State {
    /// A freshly initialised form.
    pub fn new() -> (state: Self)
        ensures
            state@ == StateView::initial(),
    {
        Self {
            username: String::new(),
            password: String::new(),
            password_confirm: String::new(),
            is_loading: false,
            username_error: None,
            password_error: None,
        }
    }
}

impl Default for State {
    fn default() -> (state: Self)
        ensures
            state@ == StateView::initial(),
    {
        State::new()
    }
}

impl State {
    /// The caption to show on the submit button.
    pub fn submit_label(&self) -> (label: &'static str)
        ensures
            label@ == self@.submit_label(),
    {
        if self.is_loading {
            "Registering\u{2026}"
        } else {
            "Register"
        }
    }
}

/// The events of the registration form.
#[derive(Debug, Clone)]
pub enum Message<U> {
    UsernameInputChanged(String),
    PasswordInputChanged(String),
    PasswordConfirmInputChanged(String),
    RegisterButtonPressed,
    RegisterSuccess(AuthResponse<U>),
    RegisterFailed(String),
    LoginInstead,
    RequestScreenChange(CurrentScreen),
}

/// Model of the form's [`Message`].
pub enum MessageView<U> {
    UsernameInputChanged(Seq<char>),
    PasswordInputChanged(Seq<char>),
    PasswordConfirmInputChanged(Seq<char>),
    RegisterButtonPressed,
    RegisterSuccess(AuthResponseView<U>),
    RegisterFailed(Seq<char>),
    LoginInstead,
    RequestScreenChange(CurrentScreenView),
}

impl<U> View for Message<U> {
    type V = MessageView<U>;

    open spec fn view(&self) -> MessageView<U> {
        match self {
            Message::UsernameInputChanged(value) => MessageView::UsernameInputChanged(value@),
            Message::PasswordInputChanged(value) => MessageView::PasswordInputChanged(value@),
            Message::PasswordConfirmInputChanged(value) => MessageView::PasswordConfirmInputChanged(
                value@,
            ),
            Message::RegisterButtonPressed => MessageView::RegisterButtonPressed,
            Message::RegisterSuccess(response) => MessageView::RegisterSuccess(response@),
            Message::RegisterFailed(error) => MessageView::RegisterFailed(error@),
            Message::LoginInstead => MessageView::LoginInstead,
            Message::RequestScreenChange(screen) => MessageView::RequestScreenChange(screen@),
        }
    }
}

/// Fewest characters a user name may have.
pub const USERNAME_MIN: u64 = 2;

/// Most characters a user name may have.
pub const USERNAME_MAX: u64 = 32;

/// Fewest characters a password may have.
pub const PASSWORD_MIN: u64 = 1;

/// Most characters a password may have.
pub const PASSWORD_MAX: u64 = 72;

/// The error shown on a user name whose length is out of bounds.
pub open spec fn username_length_error() -> Seq<char> {
    "Must be between 2 to 32 characters"@
}

/// The error shown on a password whose length is out of bounds.
pub open spec fn password_length_error() -> Seq<char> {
    "Must be between 2 to 72 characters"@
}

/// The error shown when the password and its confirmation differ.
pub open spec fn password_mismatch_error() -> Seq<char> {
    "Passwords need to match."@
}

impl StateView {
    /// The caption of the submit button: it says so while a registration is in
    /// flight.
    pub open spec fn submit_label(self) -> Seq<char> {
        if self.is_loading {
            "Registering\u{2026}"@
        } else {
            "Register"@
        }
    }
}

impl StateView {
    /// The user name has between `USERNAME_MIN` and `USERNAME_MAX` characters.
    pub open spec fn username_in_bounds(self) -> bool {
        USERNAME_MIN <= self.username.len() <= USERNAME_MAX
    }

    /// The password has between `PASSWORD_MIN` and `PASSWORD_MAX` characters.
    pub open spec fn password_in_bounds(self) -> bool {
        PASSWORD_MIN <= self.password.len() <= PASSWORD_MAX
    }

    /// The password and its confirmation are the same text.
    pub open spec fn passwords_match(self) -> bool {
        self.password == self.password_confirm
    }

    /// The form passes local validation: both lengths are in bounds and the
    /// confirmation repeats the password.
    pub open spec fn acceptable(self) -> bool {
        self.username_in_bounds() && self.password_in_bounds() && self.passwords_match()
    }

    /// The form after a submission.
    ///
    /// It is in flight exactly if it passes local validation. A user name out
    /// of bounds gets its length error. The password gets the mismatch error
    /// when the confirmation differs, else its length error when it is out of
    /// bounds. An error slot whose check passes keeps what it held.
    pub open spec fn submitted(self) -> StateView {
        StateView {
            is_loading: self.acceptable(),
            username_error: if self.username_in_bounds() {
                self.username_error
            } else {
                Some(username_length_error())
            },
            password_error: if !self.passwords_match() {
                Some(password_mismatch_error())
            } else if !self.password_in_bounds() {
                Some(password_length_error())
            } else {
                self.password_error
            },
            ..self
        }
    }
}

/// The form after one event.
///
/// An edit overwrites its field and clears that field's error; the password
/// and its confirmation share one error. A submission is validated locally
/// (see [`StateView::submitted`]). Either answer to a submission ends the
/// flight; a failure puts its text on both error slots. Asking for the sign-in
/// form ends the flight too. A screen change request leaves the form as it is.
pub open spec fn next_state<U>(state: StateView, message: MessageView<U>) -> StateView {
    match message {
        MessageView::UsernameInputChanged(value) => StateView {
            username: value,
            username_error: None,
            ..state
        },
        MessageView::PasswordInputChanged(value) => StateView {
            password: value,
            password_error: None,
            ..state
        },
        MessageView::PasswordConfirmInputChanged(value) => StateView {
            password_confirm: value,
            password_error: None,
            ..state
        },
        MessageView::RegisterButtonPressed => state.submitted(),
        MessageView::RegisterSuccess(_) => StateView { is_loading: false, ..state },
        MessageView::RegisterFailed(error) => StateView {
            is_loading: false,
            username_error: Some(error),
            password_error: Some(error),
            ..state
        },
        MessageView::LoginInstead => StateView { is_loading: false, ..state },
        MessageView::RequestScreenChange(_) => state,
    }
}

/// What one event asks for.
///
/// A submission that passes local validation asks for the registration
/// exchange with the user name and password as they stand; one that does not
/// asks for nothing. Asking for the sign-in form yields the request to show a
/// freshly initialised one. Nothing else asks for anything.
pub open spec fn next_task<U>(state: StateView, message: MessageView<U>) -> TaskView<MessageView<U>> {
    match message {
        MessageView::RegisterButtonPressed => if state.acceptable() {
            TaskView::Perform(
                RequestView::Register { username: state.username, password: state.password },
            )
        } else {
            TaskView::Nothing
        },
        MessageView::LoginInstead => TaskView::Done(
            MessageView::RequestScreenChange(
                CurrentScreenView::Login(crate::login_screen::StateView::initial()),
            ),
        ),
        _ => TaskView::Nothing,
    }
}

/// Trusted: calls `validator::ValidateLength::validate_length` on the text with
/// a lower and an upper bound and no exact length. For a `String` the crate
/// counts characters, and accepts the text exactly if the count is neither
/// below the lower bound nor above the upper one.
#[verifier::external_body]
fn length_within(text: &String, min: u64, max: u64) -> (within: bool)
    ensures
        within == (min <= text@.len() <= max),
{
    validator::ValidateLength::validate_length(text, Some(min), Some(max), None)
}

/// Reduces one event of the registration form.
pub fn update<U>(state: &mut State, message: Message<U>) -> (task: Task<Message<U>>)
    ensures
        final(state)@ == next_state(old(state)@, message@),
        task@ == next_task(old(state)@, message@),
{
    match message {
        Message::UsernameInputChanged(value) => {
            state.username = value;
            state.username_error = None;
            Task::Nothing
        },
        Message::PasswordInputChanged(value) => {
            state.password = value;
            state.password_error = None;
            Task::Nothing
        },
        Message::PasswordConfirmInputChanged(value) => {
            state.password_confirm = value;
            state.password_error = None;
            Task::Nothing
        },
        Message::RegisterButtonPressed => {
            let username_in_bounds = length_within(&state.username, USERNAME_MIN, USERNAME_MAX);
            let password_in_bounds = length_within(&state.password, PASSWORD_MIN, PASSWORD_MAX);
            let passwords_match = state.password == state.password_confirm;
            if !username_in_bounds {
                state.username_error = Some(String::from_str("Must be between 2 to 32 characters"));
            }
            if !passwords_match {
                state.password_error = Some(String::from_str("Passwords need to match."));
            } else if !password_in_bounds {
                state.password_error = Some(String::from_str("Must be between 2 to 72 characters"));
            }
            if username_in_bounds && password_in_bounds && passwords_match {
                state.is_loading = true;
                Task::Perform(
                    Request::Register {
                        username: state.username.clone(),
                        password: state.password.clone(),
                    },
                )
            } else {
                state.is_loading = false;
                Task::Nothing
            }
        },
        Message::RegisterSuccess(_) => {
            state.is_loading = false;
            Task::Nothing
        },
        Message::RegisterFailed(error) => {
            state.is_loading = false;
            state.username_error = Some(error.clone());
            state.password_error = Some(error);
            Task::Nothing
        },
        Message::LoginInstead => {
            state.is_loading = false;
            Task::Done(
                Message::RequestScreenChange(CurrentScreen::Login(crate::login_screen::State::new())),
            )
        },
        Message::RequestScreenChange(_) => Task::Nothing,
    }
}

/// The event that stands for the answer to a registration exchange.
pub open spec fn resolution<U>(result: Result<AuthResponseView<U>, Seq<char>>) -> MessageView<U> {
    match result {
        Ok(response) => MessageView::RegisterSuccess(response),
        Err(error) => MessageView::RegisterFailed(error),
    }
}

/// Wraps the answer to a registration exchange into the form's event for it.
pub fn resolved<U>(result: AuthResult<U>) -> (message: Message<U>)
    ensures
        message@ == resolution(result_view(result)),
{
    match result {
        Ok(response) => Message::RegisterSuccess(response),
        Err(error) => Message::RegisterFailed(error),
    }
}

/// The form after a run of events, reduced in order.
pub open spec fn run<U>(state: StateView, messages: Seq<MessageView<U>>) -> StateView
    decreases messages.len(),
{
    if messages.len() == 0 {
        state
    } else {
        next_state(run(state, messages.drop_last()), messages.last())
    }
}

impl<U> MessageView<U> {
    /// The event is an edit of one of the form's fields.
    pub open spec fn is_edit(self) -> bool {
        self is UsernameInputChanged || self is PasswordInputChanged
            || self is PasswordConfirmInputChanged
    }

    /// Both events are edits of the same field.
    pub open spec fn edits_same_field(self, other: MessageView<U>) -> bool {
        ||| self is UsernameInputChanged && other is UsernameInputChanged
        ||| self is PasswordInputChanged && other is PasswordInputChanged
        ||| self is PasswordConfirmInputChanged && other is PasswordConfirmInputChanged
    }
}

/// After any run of edits, a field holds the value of its last edit and its
/// error slot is empty: `last` is the place of an edit after which the run
/// does not edit the same field again. The password and its confirmation
/// share the password's error slot.
pub proof fn lemma_last_edit_wins<U>(state: StateView, messages: Seq<MessageView<U>>, last: int)
    requires
        forall|i: int| 0 <= i < messages.len() ==> (#[trigger] messages[i]).is_edit(),
        0 <= last < messages.len(),
        forall|j: int|
            last < j < messages.len() ==> !(#[trigger] messages[j]).edits_same_field(messages[last]),
    ensures
        messages[last] matches MessageView::UsernameInputChanged(value) ==> {
            &&& run(state, messages).username == value
            &&& run(state, messages).username_error is None
        },
        messages[last] matches MessageView::PasswordInputChanged(value) ==> {
            &&& run(state, messages).password == value
            &&& run(state, messages).password_error is None
        },
        messages[last] matches MessageView::PasswordConfirmInputChanged(value) ==> {
            &&& run(state, messages).password_confirm == value
            &&& run(state, messages).password_error is None
        },
    decreases messages.len(),
{
    let earlier = messages.drop_last();
    if last < messages.len() - 1 {
        assert(!messages[messages.len() - 1].edits_same_field(messages[last]));
        assert(messages.last().is_edit());
        assert forall|i: int| 0 <= i < earlier.len() implies (#[trigger] earlier[i]).is_edit() by {
            assert(earlier[i] == messages[i]);
        }
        assert forall|j: int| last < j < earlier.len() implies !(#[trigger] earlier[j]).edits_same_field(
            earlier[last],
        ) by {
            assert(earlier[j] == messages[j]);
        }
        lemma_last_edit_wins(state, earlier, last);
    }
}

/// A submission whose confirmation differs from the password stays local: it
/// asks for nothing, leaves the form out of flight, and shows the mismatch
/// error on the password, whatever else the form holds.
pub proof fn lemma_mismatch_stays_local<U>(state: StateView)
    requires
        state.password != state.password_confirm,
    ensures
        next_task::<U>(state, MessageView::RegisterButtonPressed) is Nothing,
        !next_state::<U>(state, MessageView::RegisterButtonPressed).is_loading,
        next_state::<U>(state, MessageView::RegisterButtonPressed).password_error == Some(
            password_mismatch_error(),
        ),
{
}

/// A submission whose user name is shorter than `USERNAME_MIN` characters, as
/// one of a single character is, or longer than `USERNAME_MAX`, stays local:
/// it asks for nothing, leaves the form out of flight, and shows the length
/// error on the user name.
pub proof fn lemma_username_out_of_bounds_stays_local<U>(state: StateView)
    requires
        state.username.len() < USERNAME_MIN || state.username.len() > USERNAME_MAX,
    ensures
        next_task::<U>(state, MessageView::RegisterButtonPressed) is Nothing,
        !next_state::<U>(state, MessageView::RegisterButtonPressed).is_loading,
        next_state::<U>(state, MessageView::RegisterButtonPressed).username_error == Some(
            username_length_error(),
        ),
{
}

/// A submission reaches the network exactly if it passes local validation,
/// and then it carries the user name and the password as they stand; in
/// either case it changes no field.
pub proof fn lemma_submission_goes_out_iff_acceptable<U>(state: StateView)
    ensures
        next_task::<U>(state, MessageView::RegisterButtonPressed) is Perform <==> state.acceptable(),
        state.acceptable() ==> next_task::<U>(state, MessageView::RegisterButtonPressed)
            == TaskView::<MessageView<U>>::Perform(
            RequestView::Register { username: state.username, password: state.password },
        ),
        next_state::<U>(state, MessageView::RegisterButtonPressed).is_loading == state.acceptable(),
        next_state::<U>(state, MessageView::RegisterButtonPressed).username == state.username,
        next_state::<U>(state, MessageView::RegisterButtonPressed).password == state.password,
        next_state::<U>(state, MessageView::RegisterButtonPressed).password_confirm
            == state.password_confirm,
{
}

/// A failed registration ends the flight and shows the failure's text on both
/// error slots, whatever the form held before.
pub proof fn lemma_failure_is_shown_on_both_fields<U>(state: StateView, error: Seq<char>)
    ensures
        next_state::<U>(state, MessageView::RegisterFailed(error)).username_error == Some(error),
        next_state::<U>(state, MessageView::RegisterFailed(error)).password_error == Some(error),
        !next_state::<U>(state, MessageView::RegisterFailed(error)).is_loading,
        next_task::<U>(state, MessageView::RegisterFailed(error)) is Nothing,
{
}

} // verus!
