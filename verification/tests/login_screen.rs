use fictional_potato::login_screen::{resolved, update, Message, State};
use fictional_potato::task::Task;
use fictional_potato::utils::auth::{AuthResponse, Request};
use fictional_potato::CurrentScreen;

fn response(name: &str, token: &str) -> AuthResponse<String> {
    AuthResponse { user: name.to_string(), refresh_token: token.to_string() }
}

#[test]
fn new_login_form_is_empty() {
    let state = State::new();
    assert_eq!(state.identifier, "");
    assert_eq!(state.password, "");
    assert!(!state.is_loading);
    assert_eq!(state.identifier_error, None);
    assert_eq!(state.password_error, None);
}

#[test]
fn default_login_form_is_the_new_one() {
    let state = State::default();
    assert_eq!(state.identifier, "");
    assert_eq!(state.password, "");
    assert!(!state.is_loading);
    assert_eq!(state.identifier_error, None);
    assert_eq!(state.password_error, None);
}

#[test]
fn identifier_edit_overwrites_and_clears_its_error() {
    let mut state = State::new();
    state.identifier_error = Some("bad".to_string());
    state.password_error = Some("worse".to_string());
    let task = update::<String>(&mut state, Message::UsernameInputChanged("alice".to_string()));
    assert!(matches!(task, Task::Nothing));
    assert_eq!(state.identifier, "alice");
    assert_eq!(state.identifier_error, None);
    assert_eq!(state.password, "");
    assert_eq!(state.password_error, Some("worse".to_string()));
}

#[test]
fn password_edit_overwrites_and_clears_its_error() {
    let mut state = State::new();
    state.identifier_error = Some("bad".to_string());
    state.password_error = Some("worse".to_string());
    let task = update::<String>(&mut state, Message::PasswordInputChanged("hunter2".to_string()));
    assert!(matches!(task, Task::Nothing));
    assert_eq!(state.password, "hunter2");
    assert_eq!(state.password_error, None);
    assert_eq!(state.identifier_error, Some("bad".to_string()));
}

#[test]
fn last_edit_of_each_field_wins() {
    let mut state = State::new();
    state.identifier_error = Some("e".to_string());
    let edits = vec![
        Message::<String>::UsernameInputChanged("a".to_string()),
        Message::PasswordInputChanged("p".to_string()),
        Message::UsernameInputChanged("al".to_string()),
        Message::PasswordInputChanged("pw".to_string()),
        Message::UsernameInputChanged("alice".to_string()),
    ];
    for edit in edits {
        let task = update(&mut state, edit);
        assert!(matches!(task, Task::Nothing));
    }
    assert_eq!(state.identifier, "alice");
    assert_eq!(state.password, "pw");
    assert_eq!(state.identifier_error, None);
    assert_eq!(state.password_error, None);
    assert!(!state.is_loading);
}

#[test]
fn login_submission_asks_for_the_exchange() {
    let mut state = State::new();
    update::<String>(&mut state, Message::UsernameInputChanged("alice".to_string()));
    update::<String>(&mut state, Message::PasswordInputChanged("hunter2".to_string()));
    let task = update::<String>(&mut state, Message::LoginButtonPressed);
    assert!(state.is_loading);
    match task {
        Task::Perform(Request::Login { identifier, password }) => {
            assert_eq!(identifier, "alice");
            assert_eq!(password, "hunter2");
        }
        other => panic!("unexpected task {:?}", other),
    }
    assert_eq!(state.identifier, "alice");
    assert_eq!(state.password, "hunter2");
}

#[test]
fn login_submission_of_an_empty_form_still_goes_out() {
    let mut state = State::new();
    let task = update::<String>(&mut state, Message::LoginButtonPressed);
    assert!(state.is_loading);
    match task {
        Task::Perform(Request::Login { identifier, password }) => {
            assert_eq!(identifier, "");
            assert_eq!(password, "");
        }
        other => panic!("unexpected task {:?}", other),
    }
}

#[test]
fn login_resubmission_in_flight_goes_out_again() {
    let mut state = State::new();
    update::<String>(&mut state, Message::LoginButtonPressed);
    let task = update::<String>(&mut state, Message::LoginButtonPressed);
    assert!(state.is_loading);
    assert!(matches!(task, Task::Perform(Request::Login { .. })));
}

#[test]
fn login_failure_is_shown_on_both_fields() {
    let mut state = State::new();
    update::<String>(&mut state, Message::UsernameInputChanged("alice".to_string()));
    update::<String>(&mut state, Message::LoginButtonPressed);
    let task = update::<String>(&mut state, Message::LoginFailed("Invalid credentials".to_string()));
    assert!(matches!(task, Task::Nothing));
    assert!(!state.is_loading);
    assert_eq!(state.identifier_error, Some("Invalid credentials".to_string()));
    assert_eq!(state.password_error, Some("Invalid credentials".to_string()));
    assert_eq!(state.identifier, "alice");
}

#[test]
fn edit_after_failure_clears_only_that_field() {
    let mut state = State::new();
    update::<String>(&mut state, Message::LoginFailed("nope".to_string()));
    update::<String>(&mut state, Message::UsernameInputChanged("bob".to_string()));
    assert_eq!(state.identifier_error, None);
    assert_eq!(state.password_error, Some("nope".to_string()));
}

#[test]
fn login_success_ends_the_flight() {
    let mut state = State::new();
    update::<String>(&mut state, Message::LoginButtonPressed);
    let task = update(&mut state, Message::LoginSuccess(response("alice", "t")));
    assert!(matches!(task, Task::Nothing));
    assert!(!state.is_loading);
    assert_eq!(state.identifier_error, None);
    assert_eq!(state.password_error, None);
}

#[test]
fn register_instead_asks_for_a_fresh_registration_form() {
    let mut state = State::new();
    update::<String>(&mut state, Message::UsernameInputChanged("alice".to_string()));
    update::<String>(&mut state, Message::LoginButtonPressed);
    let task = update::<String>(&mut state, Message::RegisterInstead);
    assert!(!state.is_loading);
    assert_eq!(state.identifier, "alice");
    match task {
        Task::Done(Message::RequestScreenChange(CurrentScreen::Register(form))) => {
            assert_eq!(form.username, "");
            assert_eq!(form.password, "");
            assert_eq!(form.password_confirm, "");
            assert!(!form.is_loading);
            assert_eq!(form.username_error, None);
            assert_eq!(form.password_error, None);
        }
        other => panic!("unexpected task {:?}", other),
    }
}

#[test]
fn screen_change_request_leaves_the_login_form_alone() {
    let mut state = State::new();
    update::<String>(&mut state, Message::UsernameInputChanged("alice".to_string()));
    update::<String>(&mut state, Message::LoginFailed("nope".to_string()));
    update::<String>(&mut state, Message::LoginButtonPressed);
    let task =
        update::<String>(&mut state, Message::RequestScreenChange(CurrentScreen::Loading));
    assert!(matches!(task, Task::Nothing));
    assert_eq!(state.identifier, "alice");
    assert!(state.is_loading);
    assert_eq!(state.identifier_error, Some("nope".to_string()));
    assert_eq!(state.password_error, Some("nope".to_string()));
}

#[test]
fn login_answer_becomes_the_forms_event() {
    match resolved(Ok(response("alice", "token"))) {
        Message::LoginSuccess(got) => {
            assert_eq!(got.user, "alice");
            assert_eq!(got.refresh_token, "token");
        }
        other => panic!("unexpected message {:?}", other),
    }
    match resolved::<String>(Err("down".to_string())) {
        Message::LoginFailed(text) => assert_eq!(text, "down"),
        other => panic!("unexpected message {:?}", other),
    }
}

#[test]
fn login_button_says_when_a_sign_in_is_in_flight() {
    let mut state = State::new();
    assert_eq!(state.submit_label(), "Login");
    state.is_loading = true;
    assert_eq!(state.submit_label(), "Loging in\u{2026}");
}
