//! What a reduction asks its caller to do next.

use vstd::prelude::*;
use crate::utils::auth::{Request, RequestView};

verus! {

/// The follow-up of one reduction. The caller carries it out; nothing in it
/// runs by itself.
#[derive(Debug, Clone)]
pub enum Task<M> {
    /// Nothing to do.
    Nothing,
    /// Run this exchange off the event loop. Its result re-enters as a message.
    Perform(Request),
    /// Deliver this message at once.
    Done(M),
    /// Move the keyboard focus to the next focusable control.
    FocusNext,
    /// Move the keyboard focus to the previous focusable control.
    FocusPrevious,
}

/// Model of a [`Task`], over the model of its messages.
pub enum TaskView<M> {
    Nothing,
    Perform(RequestView),
    Done(M),
    FocusNext,
    FocusPrevious,
}

impl<M: View> View for Task<M> {
    type V = TaskView<M::V>;

    open spec fn view(&self) -> TaskView<M::V> {
        match self {
            Task::Nothing => TaskView::Nothing,
            Task::Perform(request) => TaskView::Perform(request@),
            Task::Done(message) => TaskView::Done(message@),
            Task::FocusNext => TaskView::FocusNext,
            Task::FocusPrevious => TaskView::FocusPrevious,
        }
    }
}

} // verus!
