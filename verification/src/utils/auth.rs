//! The authentication exchanges: what is sent, and what each answer means.

use vstd::prelude::*;

verus! {

/// What the server hands back when it accepts an exchange: the authenticated
/// identity and the refresh token issued with it.
#[derive(Debug, Clone)]
pub struct AuthResponse<U> {
    pub user: U,
    pub refresh_token: String,
}

/// Mathematical model of an [`AuthResponse`].
pub struct AuthResponseView<U> {
    pub user: U,
    pub refresh_token: Seq<char>,
}

impl<U> View for AuthResponse<U> {
    type V = AuthResponseView<U>;

    open spec fn view(&self) -> AuthResponseView<U> {
        AuthResponseView { user: self.user, refresh_token: self.refresh_token@ }
    }
}

/// The outcome of an exchange as the screens see it: the accepted response, or
/// one line of text that says why there is none.
pub type AuthResult<U> = Result<AuthResponse<U>, String>;

/// Trusted: `Clone::clone` of the standard library's `Result`, which duplicates
/// the value: the copy is of the same variant as the value cloned, and holds a
/// clone of what that one holds.
pub assume_specification<T, E>[ <Result<T, E> as Clone>::clone ](result: &Result<T, E>) -> (copy:
    Result<T, E>)
    where
        E: Clone,
        T: Clone,
    ensures
        result is Ok ==> copy is Ok && cloned::<T>(result->Ok_0, copy->Ok_0),
        result is Err ==> copy is Err && cloned::<E>(result->Err_0, copy->Err_0),
;

/// Model of an [`AuthResult`].
pub open spec fn result_view<U>(result: AuthResult<U>) -> Result<AuthResponseView<U>, Seq<char>> {
    match result {
        Ok(response) => Ok(response@),
        Err(text) => Err(text@),
    }
}

/// One exchange with the authentication service, with what the user typed for it.
#[derive(Debug, Clone)]
pub enum Request {
    /// Sign in with an identifier (user name or e-mail address) and a password.
    Login { identifier: String, password: String },
    /// Create an account.
    Register { username: String, password: String },
    /// Trade the persisted refresh token for a session.
    Refresh,
}

/// Model of a [`Request`].
pub enum RequestView {
    Login { identifier: Seq<char>, password: Seq<char> },
    Register { username: Seq<char>, password: Seq<char> },
    Refresh,
}

impl View for Request {
    type V = RequestView;

    open spec fn view(&self) -> RequestView {
        match self {
            Request::Login { identifier, password } => RequestView::Login {
                identifier: identifier@,
                password: password@,
            },
            Request::Register { username, password } => RequestView::Register {
                username: username@,
                password: password@,
            },
            Request::Refresh => RequestView::Refresh,
        }
    }
}

/// The five characters that count as ASCII whitespace: space, horizontal tab,
/// line feed, form feed and carriage return.
pub open spec fn is_ascii_whitespace(c: char) -> bool {
    c == ' ' || c == '\t' || c == '\n' || c == '\x0C' || c == '\r'
}

/// The text without its leading ASCII whitespace.
pub open spec fn trim_ascii_start(text: Seq<char>) -> Seq<char>
    decreases text.len(),
{
    if text.len() > 0 && is_ascii_whitespace(text[0]) {
        trim_ascii_start(text.drop_first())
    } else {
        text
    }
}

/// The text without its trailing ASCII whitespace.
pub open spec fn trim_ascii_end(text: Seq<char>) -> Seq<char>
    decreases text.len(),
{
    if text.len() > 0 && is_ascii_whitespace(text.last()) {
        trim_ascii_end(text.drop_last())
    } else {
        text
    }
}

/// The text without leading and trailing ASCII whitespace.
pub open spec fn trim_ascii(text: Seq<char>) -> Seq<char> {
    trim_ascii_end(trim_ascii_start(text))
}

/// Trusted: calls `str::trim_ascii` of the standard library, which returns the
/// slice with leading and trailing ASCII whitespace removed, whitespace being
/// what `u8::is_ascii_whitespace` accepts.
#[verifier::external_body]
fn trimmed(text: &str) -> (slice: &str)
    ensures
        slice@ == trim_ascii(text@),
{
    text.trim_ascii()
}

impl RequestView {
    /// Where the request is posted.
    pub open spec fn url(self) -> Seq<char> {
        match self {
            RequestView::Login { .. } => "http://localhost:8585/auth/login"@,
            RequestView::Register { .. } => "http://localhost:8585/auth/register"@,
            RequestView::Refresh => "http://localhost:8080/auth/refresh"@,
        }
    }

    /// The named fields of the request's body, in order. A user name is sent
    /// without the ASCII whitespace around it; a refresh has no body.
    pub open spec fn fields(self) -> Seq<(Seq<char>, Seq<char>)> {
        match self {
            RequestView::Login { identifier, password } => seq![
                ("identifier"@, identifier),
                ("password"@, password),
            ],
            RequestView::Register { username, password } => seq![
                ("username"@, trim_ascii(username)),
                ("password"@, password),
            ],
            RequestView::Refresh => Seq::empty(),
        }
    }
}

impl Request {
    /// The address the request is posted to.
    pub fn url(&self) -> (url: &'static str)
        ensures
            url@ == self@.url(),
    {
        match self {
            Request::Login { .. } => "http://localhost:8585/auth/login",
            Request::Register { .. } => "http://localhost:8585/auth/register",
            Request::Refresh => "http://localhost:8080/auth/refresh",
        }
    }

    /// The fields of the body to post, each with its name.
    pub fn fields(&self) -> (fields: Vec<(&'static str, String)>)
        ensures
            fields.deep_view() == self@.fields(),
    {
        match self {
            Request::Login { identifier, password } => {
                let mut fields: Vec<(&'static str, String)> = Vec::new();
                fields.push(("identifier", identifier.clone()));
                fields.push(("password", password.clone()));
                fields
            },
            Request::Register { username, password } => {
                let mut fields: Vec<(&'static str, String)> = Vec::new();
                fields.push(("username", trimmed(username.as_str()).to_owned()));
                fields.push(("password", password.clone()));
                fields
            },
            Request::Refresh => Vec::new(),
        }
    }
}

/// What came back from one POST to the authentication service.
#[derive(Debug, Clone)]
pub enum Exchange<U> {
    /// The request never got an answer; the text describes the transport failure.
    Unreachable(String),
    /// A success status whose body held a response.
    Accepted(AuthResponse<U>),
    /// A success status whose body could not be read; the text says why.
    AcceptedUnreadable(String),
    /// Any other status, with the message of the structured error body.
    Rejected(String),
    /// Any other status whose body could not be read; the text says why.
    RejectedUnreadable(String),
}

/// Model of an [`Exchange`].
pub enum ExchangeView<U> {
    Unreachable(Seq<char>),
    Accepted(AuthResponseView<U>),
    AcceptedUnreadable(Seq<char>),
    Rejected(Seq<char>),
    RejectedUnreadable(Seq<char>),
}

impl<U> View for Exchange<U> {
    type V = ExchangeView<U>;

    open spec fn view(&self) -> ExchangeView<U> {
        match self {
            Exchange::Unreachable(text) => ExchangeView::Unreachable(text@),
            Exchange::Accepted(response) => ExchangeView::Accepted(response@),
            Exchange::AcceptedUnreadable(text) => ExchangeView::AcceptedUnreadable(text@),
            Exchange::Rejected(message) => ExchangeView::Rejected(message@),
            Exchange::RejectedUnreadable(text) => ExchangeView::RejectedUnreadable(text@),
        }
    }
}

/// The result that an exchange stands for. A transport failure and an
/// unreadable body are reported with a fixed prefix before the failure's own
/// text; a rejection is reported with the server's message alone.
pub open spec fn outcome<U>(exchange: ExchangeView<U>) -> Result<AuthResponseView<U>, Seq<char>> {
    match exchange {
        ExchangeView::Unreachable(text) => Err("Network error: "@ + text),
        ExchangeView::Accepted(response) => Ok(response),
        ExchangeView::AcceptedUnreadable(text) => Err("Failed to parse successful login: "@ + text),
        ExchangeView::Rejected(message) => Err(message),
        ExchangeView::RejectedUnreadable(text) => Err("Failed to parse error response: "@ + text),
    }
}

/// Turns what came back from the service into the result handed to a screen.
pub fn auth_result<U>(exchange: Exchange<U>) -> (result: AuthResult<U>)
    ensures
        result_view(result) == outcome(exchange@),
{
    match exchange {
        Exchange::Unreachable(text) => Err(String::from_str("Network error: ").concat(text.as_str())),
        Exchange::Accepted(response) => Ok(response),
        Exchange::AcceptedUnreadable(text) => Err(
            String::from_str("Failed to parse successful login: ").concat(text.as_str()),
        ),
        Exchange::Rejected(message) => Err(message),
        Exchange::RejectedUnreadable(text) => Err(
            String::from_str("Failed to parse error response: ").concat(text.as_str()),
        ),
    }
}

} // verus!
