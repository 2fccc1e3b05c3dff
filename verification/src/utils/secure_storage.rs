//! The refresh token in the operating system's credential store: under which
//! name it is kept, when it is written or deleted, and what a failed read
//! means at start-up.

use vstd::prelude::*;
use crate::utils::auth::{Exchange, ExchangeView};

verus! {

/// The service under which the credential store keeps the token.
pub const SERVICE: &'static str = "fictional-potato";

/// The account under which the credential store keeps the token.
pub const ACCOUNT: &'static str = "refresh_token";

/// The step of a credential store operation that failed, with the store's
/// own description of the failure.
#[derive(Debug, Clone)]
pub enum SecureStoreError {
    EntryCreation(String),
    CredentialRetrieving(String),
    CredentialWriting(String),
    CredentialDeletion(String),
}

/// A change to the stored credential.
#[derive(Debug, Clone)]
pub enum StoreAction {
    /// Delete the credential.
    Delete,
    /// Store this token in place of whatever is there.
    Write(String),
}

/// Model of a [`StoreAction`].
pub enum StoreActionView {
    Delete,
    Write(Seq<char>),
}

impl View for StoreAction {
    type V = StoreActionView;

    open spec fn view(&self) -> StoreActionView {
        match self {
            StoreAction::Delete => StoreActionView::Delete,
            StoreAction::Write(token) => StoreActionView::Write(token@),
        }
    }
}

/// The change that puts the store in line with a token: the token is written
/// if there is one, and the credential is deleted if there is none.
pub open spec fn action_for(token: Option<Seq<char>>) -> StoreActionView {
    match token {
        Some(token) => StoreActionView::Write(token),
        None => StoreActionView::Delete,
    }
}

/// The change to make to the store so that it holds `token`, or nothing.
pub fn store_action(token: Option<String>) -> (action: StoreAction)
    ensures
        action@ == action_for(token.deep_view()),
{
    match token {
        Some(token) => StoreAction::Write(token),
        None => StoreAction::Delete,
    }
}

/// What an exchange changes in the store: an accepted one has its refresh
/// token written, any other leaves the store alone.
pub open spec fn persisted<U>(exchange: ExchangeView<U>) -> Option<StoreActionView> {
    match exchange {
        ExchangeView::Accepted(response) => Some(action_for(Some(response.refresh_token))),
        _ => None,
    }
}

/// The change to make to the store once an exchange has come back, if any.
pub fn after_exchange<U>(exchange: &Exchange<U>) -> (action: Option<StoreAction>)
    ensures
        action.deep_view() == persisted(exchange@),
{
    match exchange {
        Exchange::Accepted(response) => Some(store_action(Some(response.refresh_token.clone()))),
        _ => None,
    }
}

impl DeepView for StoreAction {
    type V = StoreActionView;

    open spec fn deep_view(&self) -> StoreActionView {
        self@
    }
}

/// The text that stands for a token that could not be read at start-up.
pub open spec fn no_token_error() -> Seq<char> {
    "No!"@
}

/// The bearer token for the start-up refresh: the stored token if the store
/// gave one, and otherwise a failure that is settled without any exchange.
pub fn bearer_token(lookup: Result<String, SecureStoreError>) -> (bearer: Result<String, String>)
    ensures
        match lookup {
            Ok(token) => bearer is Ok && bearer->Ok_0@ == token@,
            Err(_) => bearer is Err && bearer->Err_0@ == no_token_error(),
        },
{
    match lookup {
        Ok(token) => Ok(token),
        Err(_) => Err(String::from_str("No!")),
    }
}

} // verus!
