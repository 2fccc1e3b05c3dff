//! The navigation core of a desktop chat client: the sign-in and registration
//! forms, the screen router that owns the session, and the decisions made
//! around each authentication exchange.

use vstd::prelude::*;
use crate::task::{Task, TaskView};
use crate::utils::auth::{result_view, AuthResponseView, AuthResult, Request, RequestView};

pub mod colors;
pub mod components;
pub mod login_screen;
pub mod register_screen;
pub mod screens;
pub mod task;
pub mod utils;

verus! {

/// The screen that is shown. Exactly one is active at a time, and a transition
/// replaces the whole value.
#[derive(Debug, Clone)]
pub enum CurrentScreen {
    Loading,
    Register(register_screen::State),
    Login(login_screen::State),
    App(screens::app_screen::State),
}

/// Model of the [`CurrentScreen`].
pub enum CurrentScreenView {
    Loading,
    Register(register_screen::StateView),
    Login(login_screen::StateView),
    App(screens::app_screen::State),
}

impl View for CurrentScreen {
    type V = CurrentScreenView;

    open spec fn view(&self) -> CurrentScreenView {
        match self {
            CurrentScreen::Loading => CurrentScreenView::Loading,
            CurrentScreen::Register(state) => CurrentScreenView::Register(state@),
            CurrentScreen::Login(state) => CurrentScreenView::Login(state@),
            CurrentScreen::App(state) => CurrentScreenView::App(*state),
        }
    }
}

impl Default for CurrentScreen {
    fn default() -> (screen: Self)
        ensures
            screen@ == CurrentScreenView::Loading,
    {
        CurrentScreen::Loading
    }
}

/// The modal windows the application knows.
#[derive(Debug, Clone)]
pub enum ModalType {
    CreateDM,
    AddFriendsToGroupDM,
    CreateGuild,
    CreateChannel,
    ModifyUsername,
    ModifyPassword,
    ModifyEmail,
    ModifyPhone,
}

/// The dialogs the application knows.
#[derive(Debug, Clone)]
pub enum DialogType {
    Logout,
    LogoutAllDevices,
    CallIncoming,
    PinnedMessages,
}

/// What the router reads of an input event of the windowing system.
#[derive(Debug, Clone, Copy)]
pub enum Event {
    /// The Tab key went down, with or without Shift held.
    TabPressed { shift: bool },
    /// Any other event.
    Other,
}

/// The events of the application: those of the router itself, and those of
/// each screen under that screen's tag. The answer to a form's exchange is an
/// event of that form, and carries its tag.
#[derive(Debug, Clone)]
pub enum Message<U> {
    ShowModal(ModalType),
    HideModal,
    ShowDialog(DialogType),
    HideDialog,
    Event(Event),
    RefreshTokenChecked(AuthResult<U>),
    ChangeCurrentScreen(CurrentScreen),
    LoginScreenMessage(login_screen::Message<U>),
    RegisterScreenMessage(register_screen::Message<U>),
    AppScreenMessage(screens::app_screen::Message),
}

/// Model of the application's [`Message`].
pub enum MessageView<U> {
    ShowModal(ModalType),
    HideModal,
    ShowDialog(DialogType),
    HideDialog,
    Event(Event),
    RefreshTokenChecked(Result<AuthResponseView<U>, Seq<char>>),
    ChangeCurrentScreen(CurrentScreenView),
    LoginScreenMessage(login_screen::MessageView<U>),
    RegisterScreenMessage(register_screen::MessageView<U>),
    AppScreenMessage(screens::app_screen::Message),
}

impl<U> View for Message<U> {
    type V = MessageView<U>;

    open spec fn view(&self) -> MessageView<U> {
        match self {
            Message::ShowModal(modal) => MessageView::ShowModal(*modal),
            Message::HideModal => MessageView::HideModal,
            Message::ShowDialog(dialog) => MessageView::ShowDialog(*dialog),
            Message::HideDialog => MessageView::HideDialog,
            Message::Event(event) => MessageView::Event(*event),
            Message::RefreshTokenChecked(result) => MessageView::RefreshTokenChecked(
                result_view(*result),
            ),
            Message::ChangeCurrentScreen(screen) => MessageView::ChangeCurrentScreen(screen@),
            Message::LoginScreenMessage(message) => MessageView::LoginScreenMessage(message@),
            Message::RegisterScreenMessage(message) => MessageView::RegisterScreenMessage(message@),
            Message::AppScreenMessage(message) => MessageView::AppScreenMessage(*message),
        }
    }
}

/// The application router: the session and the screen that is shown.
#[derive(Debug)]
pub struct App<U> {
    pub user: Option<U>,
    pub access_token: Option<String>,
    pub refresh_token: Option<String>,
    pub current_modal: Option<ModalType>,
    pub current_dialog: Option<DialogType>,
    /// When the tokens expire, in seconds since the Unix epoch.
    pub token_expires: i64,
    pub current_screen: CurrentScreen,
}

/// Mathematical model of the [`App`].
pub struct AppView<U> {
    pub user: Option<U>,
    pub access_token: Option<Seq<char>>,
    pub refresh_token: Option<Seq<char>>,
    pub current_modal: Option<ModalType>,
    pub current_dialog: Option<DialogType>,
    pub token_expires: i64,
    pub current_screen: CurrentScreenView,
}

impl<U> View for App<U> {
    type V = AppView<U>;

    open spec fn view(&self) -> AppView<U> {
        AppView {
            user: self.user,
            access_token: self.access_token.deep_view(),
            refresh_token: self.refresh_token.deep_view(),
            current_modal: self.current_modal,
            current_dialog: self.current_dialog,
            token_expires: self.token_expires,
            current_screen: self.current_screen@,
        }
    }
}

/// The router's event for a sign-in form's follow-up event: a screen change
/// request becomes the order to change the screen, and anything else stays an
/// event of the sign-in form, under its tag.
pub open spec fn from_login<U>(message: login_screen::MessageView<U>) -> MessageView<U> {
    match message {
        login_screen::MessageView::RequestScreenChange(screen) => MessageView::ChangeCurrentScreen(
            screen,
        ),
        _ => MessageView::LoginScreenMessage(message),
    }
}

/// The router's event for a registration form's follow-up event, as
/// [`from_login`] for the sign-in form.
pub open spec fn from_register<U>(message: register_screen::MessageView<U>) -> MessageView<U> {
    match message {
        register_screen::MessageView::RequestScreenChange(screen) => MessageView::ChangeCurrentScreen(
            screen,
        ),
        _ => MessageView::RegisterScreenMessage(message),
    }
}

/// A sign-in form's task as a task of the router: a message to deliver is
/// re-wrapped by [`from_login`], anything else is kept.
pub open spec fn lift_login<U>(task: TaskView<login_screen::MessageView<U>>) -> TaskView<
    MessageView<U>,
> {
    match task {
        TaskView::Nothing => TaskView::Nothing,
        TaskView::Perform(request) => TaskView::Perform(request),
        TaskView::Done(message) => TaskView::Done(from_login(message)),
        TaskView::FocusNext => TaskView::FocusNext,
        TaskView::FocusPrevious => TaskView::FocusPrevious,
    }
}

/// A registration form's task as a task of the router.
pub open spec fn lift_register<U>(task: TaskView<register_screen::MessageView<U>>) -> TaskView<
    MessageView<U>,
> {
    match task {
        TaskView::Nothing => TaskView::Nothing,
        TaskView::Perform(request) => TaskView::Perform(request),
        TaskView::Done(message) => TaskView::Done(from_register(message)),
        TaskView::FocusNext => TaskView::FocusNext,
        TaskView::FocusPrevious => TaskView::FocusPrevious,
    }
}

/// The router's event that stands for the answer to an exchange. The answer
/// to a sign-in or a registration, accepted or not, is that form's event for
/// it under the form's tag; the answer to the start-up refresh is the router's
/// own event for it.
pub open spec fn resolution<U>(
    request: RequestView,
    result: Result<AuthResponseView<U>, Seq<char>>,
) -> MessageView<U> {
    match request {
        RequestView::Login { .. } => MessageView::LoginScreenMessage(login_screen::resolution(result)),
        RequestView::Register { .. } => MessageView::RegisterScreenMessage(
            register_screen::resolution(result),
        ),
        RequestView::Refresh => MessageView::RefreshTokenChecked(result),
    }
}

/// The screen waits for the answer to the request: the sign-in form for a
/// sign-in, the registration form for a registration, and the loading screen
/// for the start-up refresh.
pub open spec fn awaits(screen: CurrentScreenView, request: RequestView) -> bool {
    match request {
        RequestView::Login { .. } => screen is Login,
        RequestView::Register { .. } => screen is Register,
        RequestView::Refresh => screen is Loading,
    }
}

impl<U> MessageView<U> {
    /// The event carries the tag of some screen.
    pub open spec fn is_tagged(self) -> bool {
        self is LoginScreenMessage || self is RegisterScreenMessage || self is AppScreenMessage
    }

    /// The event carries the tag of the given screen.
    pub open spec fn is_for(self, screen: CurrentScreenView) -> bool {
        match self {
            MessageView::LoginScreenMessage(_) => screen is Login,
            MessageView::RegisterScreenMessage(_) => screen is Register,
            MessageView::AppScreenMessage(_) => screen is App,
            _ => false,
        }
    }

    /// The response of an accepted exchange, if the event is the accepted
    /// answer that the given screen waits for: a successful sign-in on the
    /// sign-in form, a successful registration on the registration form, or an
    /// accepted refresh on the loading screen.
    pub open spec fn accepted_on(self, screen: CurrentScreenView) -> Option<AuthResponseView<U>> {
        match self {
            MessageView::LoginScreenMessage(login_screen::MessageView::LoginSuccess(response)) => {
                if screen is Login {
                    Some(response)
                } else {
                    None
                }
            },
            MessageView::RegisterScreenMessage(
                register_screen::MessageView::RegisterSuccess(response),
            ) => {
                if screen is Register {
                    Some(response)
                } else {
                    None
                }
            },
            MessageView::RefreshTokenChecked(Ok(response)) => {
                if screen is Loading {
                    Some(response)
                } else {
                    None
                }
            },
            _ => None,
        }
    }
}

impl<U> AppView<U> {
    /// The router at start-up: no session, nothing open, the loading screen.
    pub open spec fn initial() -> AppView<U> {
        AppView {
            user: None,
            access_token: None,
            refresh_token: None,
            current_modal: None,
            current_dialog: None,
            token_expires: 0,
            current_screen: CurrentScreenView::Loading,
        }
    }

    /// The session is whole: an identity is held exactly if a refresh token is,
    /// and an access token is held only with them.
    pub open spec fn well_formed(self) -> bool {
        &&& self.user is Some <==> self.refresh_token is Some
        &&& self.access_token is Some ==> self.refresh_token is Some
    }

    /// Whether a session is established.
    pub open spec fn authenticated(self) -> bool {
        self.user is Some && self.refresh_token is Some
    }

    /// The router with the session that an accepted exchange establishes.
    pub open spec fn with_session(self, response: AuthResponseView<U>) -> AppView<U> {
        AppView { user: Some(response.user), refresh_token: Some(response.refresh_token), ..self }
    }

    /// The router showing a freshly initialised home screen.
    pub open spec fn at_home(self) -> AppView<U> {
        AppView {
            current_screen: CurrentScreenView::App(screens::app_screen::State::initial()),
            ..self
        }
    }

    /// The router after one event.
    ///
    /// An event under a screen's tag counts only while that screen is the
    /// active one; on any other screen it changes nothing. On the active
    /// sign-in or registration form, the accepted answer to its exchange puts
    /// the session in place and shows a freshly initialised home screen, and
    /// any other event is reduced by the form. The answer to the start-up
    /// refresh counts only on the loading screen, where an accepted one puts
    /// the session in place. The order to change the screen replaces the
    /// active screen. No other event changes the router.
    pub open spec fn next(self, message: MessageView<U>) -> AppView<U> {
        match message {
            MessageView::ChangeCurrentScreen(screen) => AppView { current_screen: screen, ..self },
            MessageView::LoginScreenMessage(inner) => match self.current_screen {
                CurrentScreenView::Login(state) => match inner {
                    login_screen::MessageView::LoginSuccess(response) => self.with_session(
                        response,
                    ).at_home(),
                    _ => AppView {
                        current_screen: CurrentScreenView::Login(
                            login_screen::next_state(state, inner),
                        ),
                        ..self
                    },
                },
                _ => self,
            },
            MessageView::RegisterScreenMessage(inner) => match self.current_screen {
                CurrentScreenView::Register(state) => match inner {
                    register_screen::MessageView::RegisterSuccess(response) => self.with_session(
                        response,
                    ).at_home(),
                    _ => AppView {
                        current_screen: CurrentScreenView::Register(
                            register_screen::next_state(state, inner),
                        ),
                        ..self
                    },
                },
                _ => self,
            },
            MessageView::RefreshTokenChecked(Ok(response)) => match self.current_screen {
                CurrentScreenView::Loading => self.with_session(response),
                _ => self,
            },
            _ => self,
        }
    }

    /// What one event asks for.
    ///
    /// An event under the tag of the active sign-in or registration form asks
    /// for what that form's reducer asks, re-wrapped for the router; under the
    /// tag of a screen that is not active it asks for nothing. The Tab key
    /// moves the focus, backwards with Shift. On the loading screen, the
    /// answer to the start-up refresh yields the order to show a freshly
    /// initialised home screen if it was accepted, and a freshly initialised
    /// sign-in form if not; on any other screen it asks for nothing. Nothing
    /// else asks for anything.
    pub open spec fn task(self, message: MessageView<U>) -> TaskView<MessageView<U>> {
        match message {
            MessageView::LoginScreenMessage(inner) => match self.current_screen {
                CurrentScreenView::Login(state) => lift_login(login_screen::next_task(state, inner)),
                _ => TaskView::Nothing,
            },
            MessageView::RegisterScreenMessage(inner) => match self.current_screen {
                CurrentScreenView::Register(state) => lift_register(
                    register_screen::next_task(state, inner),
                ),
                _ => TaskView::Nothing,
            },
            MessageView::Event(Event::TabPressed { shift }) => if shift {
                TaskView::FocusPrevious
            } else {
                TaskView::FocusNext
            },
            MessageView::RefreshTokenChecked(result) => match self.current_screen {
                CurrentScreenView::Loading => TaskView::Done(
                    MessageView::ChangeCurrentScreen(
                        match result {
                            Ok(_) => CurrentScreenView::App(screens::app_screen::State::initial()),
                            Err(_) => CurrentScreenView::Login(login_screen::StateView::initial()),
                        },
                    ),
                ),
                _ => TaskView::Nothing,
            },
            _ => TaskView::Nothing,
        }
    }
}

impl CurrentScreen {
    /// Whether the sign-in form is the active screen.
    pub fn is_login(&self) -> (active: bool)
        ensures
            active == (self@ is Login),
    {
        match self {
            CurrentScreen::Login(_) => true,
            _ => false,
        }
    }

    /// Whether the registration form is the active screen.
    pub fn is_register(&self) -> (active: bool)
        ensures
            active == (self@ is Register),
    {
        match self {
            CurrentScreen::Register(_) => true,
            _ => false,
        }
    }

    /// Whether the loading screen is the active screen.
    pub fn is_loading(&self) -> (active: bool)
        ensures
            active == (self@ is Loading),
    {
        match self {
            CurrentScreen::Loading => true,
            _ => false,
        }
    }
}

impl<U> Message<U> {
    /// Re-wraps a follow-up event of the sign-in form for the router.
    pub fn from_login(message: login_screen::Message<U>) -> (wrapped: Message<U>)
        ensures
            wrapped@ == from_login(message@),
    {
        match message {
            login_screen::Message::RequestScreenChange(screen) => Message::ChangeCurrentScreen(screen),
            other => Message::LoginScreenMessage(other),
        }
    }

    /// Re-wraps a follow-up event of the registration form for the router.
    pub fn from_register(message: register_screen::Message<U>) -> (wrapped: Message<U>)
        ensures
            wrapped@ == from_register(message@),
    {
        match message {
            register_screen::Message::RequestScreenChange(screen) => Message::ChangeCurrentScreen(
                screen,
            ),
            other => Message::RegisterScreenMessage(other),
        }
    }

    /// The event by which the answer to an exchange re-enters the router.
    pub fn resolved(request: &Request, result: AuthResult<U>) -> (message: Message<U>)
        ensures
            message@ == resolution(request@, result_view(result)),
    {
        match request {
            Request::Login { .. } => Message::LoginScreenMessage(login_screen::resolved(result)),
            Request::Register { .. } => Message::RegisterScreenMessage(
                register_screen::resolved(result),
            ),
            Request::Refresh => Message::RefreshTokenChecked(result),
        }
    }
}

impl<U> App<U> {
    /// The router at start-up, with the one task it begins with: the attempt
    /// to restore a session from the persisted refresh token.
    pub fn new() -> (start: (Self, Task<Message<U>>))
        ensures
            start.0@ == AppView::<U>::initial(),
            start.0@.well_formed(),
            start.1@ == TaskView::<MessageView<U>>::Perform(RequestView::Refresh),
    {
        (
            App {
                user: None,
                access_token: None,
                refresh_token: None,
                current_modal: None,
                current_dialog: None,
                token_expires: 0,
                current_screen: CurrentScreen::Loading,
            },
            Task::Perform(Request::Refresh),
        )
    }

    /// Reduces one event: updates the router and says what to do next.
    pub fn update(&mut self, message: Message<U>) -> (task: Task<Message<U>>)
        ensures
            final(self)@ == old(self)@.next(message@),
            task@ == old(self)@.task(message@),
            old(self)@.well_formed() ==> final(self)@.well_formed(),
    {
        proof {
            if old(self)@.well_formed() {
                lemma_session_stays_whole(old(self)@, message@);
            }
        }
        match message {
            Message::ChangeCurrentScreen(screen) => {
                self.current_screen = screen;
                Task::Nothing
            },
            Message::LoginScreenMessage(inner) => match inner {
                login_screen::Message::LoginSuccess(response) => {
                    if self.current_screen.is_login() {
                        self.user = Some(response.user);
                        self.refresh_token = Some(response.refresh_token);
                        self.current_screen = CurrentScreen::App(screens::app_screen::State::new());
                    }
                    Task::Nothing
                },
                inner => match &mut self.current_screen {
                    CurrentScreen::Login(state) => {
                        let command = login_screen::update(state, inner);
                        match command {
                            Task::Nothing => Task::Nothing,
                            Task::Perform(request) => Task::Perform(request),
                            Task::Done(message) => Task::Done(Message::from_login(message)),
                            Task::FocusNext => Task::FocusNext,
                            Task::FocusPrevious => Task::FocusPrevious,
                        }
                    },
                    _ => Task::Nothing,
                },
            },
            Message::RegisterScreenMessage(inner) => match inner {
                register_screen::Message::RegisterSuccess(response) => {
                    if self.current_screen.is_register() {
                        self.user = Some(response.user);
                        self.refresh_token = Some(response.refresh_token);
                        self.current_screen = CurrentScreen::App(screens::app_screen::State::new());
                    }
                    Task::Nothing
                },
                inner => match &mut self.current_screen {
                    CurrentScreen::Register(state) => {
                        let command = register_screen::update(state, inner);
                        match command {
                            Task::Nothing => Task::Nothing,
                            Task::Perform(request) => Task::Perform(request),
                            Task::Done(message) => Task::Done(Message::from_register(message)),
                            Task::FocusNext => Task::FocusNext,
                            Task::FocusPrevious => Task::FocusPrevious,
                        }
                    },
                    _ => Task::Nothing,
                },
            },
            Message::AppScreenMessage(inner) => {
                match &mut self.current_screen {
                    CurrentScreen::App(state) => {
                        let _ = screens::app_screen::update(state, inner);
                        Task::Nothing
                    },
                    _ => Task::Nothing,
                }
            },
            Message::Event(event) => match event {
                Event::TabPressed { shift } => if shift {
                    Task::FocusPrevious
                } else {
                    Task::FocusNext
                },
                Event::Other => Task::Nothing,
            },
            Message::RefreshTokenChecked(result) => {
                if self.current_screen.is_loading() {
                    match result {
                        Ok(response) => {
                            self.user = Some(response.user);
                            self.refresh_token = Some(response.refresh_token);
                            Task::Done(
                                Message::ChangeCurrentScreen(
                                    CurrentScreen::App(screens::app_screen::State::new()),
                                ),
                            )
                        },
                        Err(_) => Task::Done(
                            Message::ChangeCurrentScreen(
                                CurrentScreen::Login(login_screen::State::new()),
                            ),
                        ),
                    }
                } else {
                    Task::Nothing
                }
            },
            Message::ShowModal(_) => Task::Nothing,
            Message::HideModal => Task::Nothing,
            Message::ShowDialog(_) => Task::Nothing,
            Message::HideDialog => Task::Nothing,
        }
    }
}

impl<U> Default for App<U> {
    fn default() -> (app: Self)
        ensures
            app@ == AppView::<U>::initial(),
    {
        App::new().0
    }
}

/// No event breaks the session: if an identity is held exactly when a refresh
/// token is before an event, the same holds after it.
pub proof fn lemma_session_stays_whole<U>(app: AppView<U>, message: MessageView<U>)
    requires
        app.well_formed(),
    ensures
        app.next(message).well_formed(),
{
}

/// The session changes exactly on an accepted answer that the active screen
/// waits for, and then it is the session of that answer; any other event
/// leaves the identity, the tokens and the expiry as they were.
pub proof fn lemma_session_changes_only_on_awaited_answer<U>(
    app: AppView<U>,
    message: MessageView<U>,
)
    ensures
        message.accepted_on(app.current_screen) matches Some(response) ==> {
            &&& app.next(message).user == Some(response.user)
            &&& app.next(message).refresh_token == Some(response.refresh_token)
        },
        message.accepted_on(app.current_screen) is None ==> {
            &&& app.next(message).user == app.user
            &&& app.next(message).refresh_token == app.refresh_token
        },
        app.next(message).access_token == app.access_token,
        app.next(message).token_expires == app.token_expires,
{
}

/// An accepted sign-in or registration that comes back while its form is the
/// active screen shows a freshly initialised home screen and establishes the
/// session: the router then holds the identity and the refresh token of the
/// response, nothing else in it changes, and it asks for nothing.
pub proof fn lemma_accepted_answer_opens_the_app<U>(
    app: AppView<U>,
    request: RequestView,
    response: AuthResponseView<U>,
)
    requires
        request is Login || request is Register,
        awaits(app.current_screen, request),
    ensures
        app.next(resolution(request, Ok(response))) == (AppView {
            user: Some(response.user),
            refresh_token: Some(response.refresh_token),
            current_screen: CurrentScreenView::App(screens::app_screen::State::initial()),
            ..app
        }),
        app.next(resolution(request, Ok(response))).authenticated(),
        app.task(resolution(request, Ok(response))) is Nothing,
{
}

/// An answer that comes back after the user left the screen that waited for
/// it is dropped, whether it was accepted or not: the router stays exactly as
/// it was, with the screen, the session and everything else untouched, and it
/// asks for nothing. This holds of the answer to a sign-in off the sign-in
/// form, of the answer to a registration off the registration form, and of the
/// answer to the start-up refresh off the loading screen.
pub proof fn lemma_late_answer_is_dropped<U>(
    app: AppView<U>,
    request: RequestView,
    result: Result<AuthResponseView<U>, Seq<char>>,
)
    requires
        !awaits(app.current_screen, request),
    ensures
        app.next(resolution(request, result)) == app,
        app.task(resolution(request, result)) is Nothing,
{
}

/// A failed sign-in that comes back while the sign-in form is shown leaves the
/// form in place, out of flight, with the failure's text on both the
/// identifier and the password; the fields, the session and everything else
/// in the router stay as they were, and nothing is asked for.
pub proof fn lemma_failed_login_is_shown<U>(
    app: AppView<U>,
    request: RequestView,
    error: Seq<char>,
)
    requires
        request is Login,
        app.current_screen is Login,
    ensures
        app.next(resolution(request, Err(error))) == (AppView {
            current_screen: CurrentScreenView::Login(
                login_screen::StateView {
                    is_loading: false,
                    identifier_error: Some(error),
                    password_error: Some(error),
                    ..app.current_screen->Login_0
                },
            ),
            ..app
        }),
        app.task(resolution(request, Err(error))) is Nothing,
{
}

/// A failed registration that comes back while the registration form is shown
/// leaves the form in place, out of flight, with the failure's text on both
/// error slots, and changes nothing else.
pub proof fn lemma_failed_registration_is_shown<U>(
    app: AppView<U>,
    request: RequestView,
    error: Seq<char>,
)
    requires
        request is Register,
        app.current_screen is Register,
    ensures
        app.next(resolution(request, Err(error))) == (AppView {
            current_screen: CurrentScreenView::Register(
                register_screen::StateView {
                    is_loading: false,
                    username_error: Some(error),
                    password_error: Some(error),
                    ..app.current_screen->Register_0
                },
            ),
            ..app
        }),
        app.task(resolution(request, Err(error))) is Nothing,
{
}

/// An event under the tag of a screen that is not the active one is inert,
/// whatever it carries: the router stays exactly as it was and nothing is
/// asked for. So an event of the sign-in form that arrives while the home
/// screen is shown is dropped, a successful sign-in among them.
pub proof fn lemma_stale_event_is_inert<U>(app: AppView<U>, message: MessageView<U>)
    requires
        message.is_tagged(),
        !message.is_for(app.current_screen),
    ensures
        app.next(message) == app,
        app.task(message) is Nothing,
{
}

/// An event under a screen's tag, other than the accepted answer that the
/// active form waits for, changes nothing but that screen's own state: the
/// kind of screen shown, the session, the open modal and dialog, and the
/// expiry stay as they were.
pub proof fn lemma_screen_event_stays_in_its_screen<U>(app: AppView<U>, message: MessageView<U>)
    requires
        message.is_tagged(),
        message.accepted_on(app.current_screen) is None,
    ensures
        app.next(message) == (AppView { current_screen: app.next(message).current_screen, ..app }),
        app.next(message).current_screen is Loading <==> app.current_screen is Loading,
        app.next(message).current_screen is Login <==> app.current_screen is Login,
        app.next(message).current_screen is Register <==> app.current_screen is Register,
        app.next(message).current_screen is App <==> app.current_screen is App,
{
}

/// The screen shown is replaced in two ways only: by the order to change the
/// screen, and by the accepted answer that the active form waits for, which
/// shows the home screen. Any other event leaves the router on the kind of
/// screen it was on.
pub proof fn lemma_screen_changes_only_on_order_or_answer<U>(
    app: AppView<U>,
    message: MessageView<U>,
)
    requires
        !(message is ChangeCurrentScreen),
    ensures
        message.accepted_on(app.current_screen) is Some && !(app.current_screen is Loading)
            ==> app.next(message).current_screen == CurrentScreenView::App(
            screens::app_screen::State::initial(),
        ),
        message.accepted_on(app.current_screen) is None || app.current_screen is Loading ==> {
            &&& app.next(message).current_screen is Loading <==> app.current_screen is Loading
            &&& app.next(message).current_screen is Login <==> app.current_screen is Login
            &&& app.next(message).current_screen is Register <==> app.current_screen is Register
            &&& app.next(message).current_screen is App <==> app.current_screen is App
        },
{
}

/// The home screen is left on an explicit order only: while it is shown, every
/// event other than the order to change the screen leaves the router exactly
/// as it was, session included, and asks neither for an exchange nor for the
/// delivery of a message.
pub proof fn lemma_home_screen_is_terminal<U>(app: AppView<U>, message: MessageView<U>)
    requires
        app.current_screen is App,
        !(message is ChangeCurrentScreen),
    ensures
        app.next(message) == app,
        !(app.task(message) is Perform),
        !(app.task(message) is Done),
{
}

/// Every message that the router asks to have delivered is an order to show a
/// freshly initialised screen: the registration form when asked from the
/// sign-in form, the sign-in form when asked from the registration form or
/// after a failed refresh on the loading screen, and the home screen after an
/// accepted refresh on the loading screen.
pub proof fn lemma_issued_orders_show_fresh_screens<U>(app: AppView<U>, message: MessageView<U>)
    requires
        app.task(message) is Done,
    ensures
        app.task(message)->Done_0 is ChangeCurrentScreen,
        ({
            let shown = app.task(message)->Done_0->ChangeCurrentScreen_0;
            ||| {
                &&& shown == CurrentScreenView::Register(register_screen::StateView::initial())
                &&& app.current_screen is Login
                &&& message == MessageView::<U>::LoginScreenMessage(
                    login_screen::MessageView::RegisterInstead,
                )
            }
            ||| {
                &&& shown == CurrentScreenView::Login(login_screen::StateView::initial())
                &&& app.current_screen is Register
                &&& message == MessageView::<U>::RegisterScreenMessage(
                    register_screen::MessageView::LoginInstead,
                )
            }
            ||| {
                &&& shown == CurrentScreenView::Login(login_screen::StateView::initial())
                &&& app.current_screen is Loading
                &&& message matches MessageView::RefreshTokenChecked(Err(_))
            }
            ||| {
                &&& shown == CurrentScreenView::App(screens::app_screen::State::initial())
                &&& app.current_screen is Loading
                &&& message matches MessageView::RefreshTokenChecked(Ok(_))
            }
        }),
{
}

/// The router asks for an exchange only on a submission from the active form:
/// a task to perform an exchange comes from nothing but the submit event of
/// the sign-in form while it is shown, and then is a sign-in, or that of the
/// registration form while it is shown and passes local validation, and then
/// is a registration.
pub proof fn lemma_exchanges_come_from_submissions<U>(app: AppView<U>, message: MessageView<U>)
    requires
        app.task(message) is Perform,
    ensures
        ({
            ||| {
                &&& app.current_screen is Login
                &&& message == MessageView::<U>::LoginScreenMessage(
                    login_screen::MessageView::LoginButtonPressed,
                )
                &&& app.task(message)->Perform_0 is Login
            }
            ||| {
                &&& app.current_screen is Register
                &&& message == MessageView::<U>::RegisterScreenMessage(
                    register_screen::MessageView::RegisterButtonPressed,
                )
                &&& app.current_screen->Register_0.acceptable()
                &&& app.task(message)->Perform_0 is Register
            }
        }),
{
}

/// A registration that fails local validation, because the confirmation
/// differs from the password or because a length is out of bounds, reaches no
/// network: the router asks for nothing and the form is out of flight.
pub proof fn lemma_rejected_registration_stays_local<U>(
    app: AppView<U>,
    state: register_screen::StateView,
)
    requires
        app.current_screen == CurrentScreenView::Register(state),
        !state.acceptable(),
    ensures
        app.task(MessageView::RegisterScreenMessage(register_screen::MessageView::RegisterButtonPressed))
            is Nothing,
        app.next(
            MessageView::RegisterScreenMessage(register_screen::MessageView::RegisterButtonPressed),
        ).current_screen == CurrentScreenView::Register(state.submitted()),
        !state.submitted().is_loading,
{
}

/// Start-up without a usable token ends on the sign-in form without any
/// sign-in or registration exchange. The router starts on the loading screen
/// with no session; the failed refresh, whatever its text, changes nothing and
/// yields the order to show a freshly initialised sign-in form; that order is
/// then carried out and asks for nothing more.
pub proof fn lemma_startup_without_token_shows_login<U>(error: Seq<char>)
    ensures
        ({
            let start = AppView::<U>::initial();
            let answer = resolution::<U>(RequestView::Refresh, Err(error));
            let order = MessageView::<U>::ChangeCurrentScreen(
                CurrentScreenView::Login(login_screen::StateView::initial()),
            );
            &&& start.current_screen is Loading
            &&& !start.authenticated()
            &&& start.next(answer) == start
            &&& start.task(answer) == TaskView::Done(order)
            &&& start.next(answer).next(order) == (AppView {
                current_screen: CurrentScreenView::Login(login_screen::StateView::initial()),
                ..start
            })
            &&& start.next(answer).task(order) is Nothing
        }),
{
}

/// Start-up with an accepted refresh establishes the session and ends on the
/// home screen, in the same two steps.
pub proof fn lemma_startup_with_token_opens_the_app<U>(response: AuthResponseView<U>)
    ensures
        ({
            let start = AppView::<U>::initial();
            let answer = resolution::<U>(RequestView::Refresh, Ok(response));
            let order = MessageView::<U>::ChangeCurrentScreen(
                CurrentScreenView::App(screens::app_screen::State::initial()),
            );
            &&& start.next(answer) == start.with_session(response)
            &&& start.next(answer).authenticated()
            &&& start.task(answer) == TaskView::Done(order)
            &&& start.next(answer).next(order) == start.with_session(response).at_home()
            &&& start.next(answer).task(order) is Nothing
        }),
{
}

/// Switching between the two forms starts each one afresh. From the sign-in
/// form in any state, asking for the registration form yields an order that
/// shows it freshly initialised; from there, whatever was typed meanwhile,
/// asking for the sign-in form yields an order that shows that one freshly
/// initialised. Nothing of either form's earlier state survives, and the
/// session is not touched.
pub proof fn lemma_round_trip_resets_forms<U>(
    app: AppView<U>,
    typed: register_screen::StateView,
)
    requires
        app.current_screen is Login,
    ensures
        ({
            let leave = MessageView::<U>::LoginScreenMessage(login_screen::MessageView::RegisterInstead);
            let to_register = MessageView::<U>::ChangeCurrentScreen(
                CurrentScreenView::Register(register_screen::StateView::initial()),
            );
            let registering = AppView { current_screen: CurrentScreenView::Register(typed), ..app };
            let back = MessageView::<U>::RegisterScreenMessage(
                register_screen::MessageView::LoginInstead,
            );
            let to_login = MessageView::<U>::ChangeCurrentScreen(
                CurrentScreenView::Login(login_screen::StateView::initial()),
            );
            &&& app.task(leave) == TaskView::Done(to_register)
            &&& app.next(leave).next(to_register) == (AppView {
                current_screen: CurrentScreenView::Register(register_screen::StateView::initial()),
                ..app
            })
            &&& registering.task(back) == TaskView::Done(to_login)
            &&& registering.next(back).next(to_login) == (AppView {
                current_screen: CurrentScreenView::Login(login_screen::StateView::initial()),
                ..app
            })
        }),
{
}

} // verus!
