//! The home screen.

use vstd::prelude::*;
use crate::task::{Task, TaskView};

verus! {

/// What the home screen holds between two events.
#[derive(Debug, Clone)]
pub struct State {
    pub is_loading: bool,
}

impl State {
    /// The state in which the screen is first shown.
    pub open spec fn initial() -> State {
        State { is_loading: false }
    }

    /// A freshly initialised home screen.
    pub fn new() -> (state: Self)
        ensures
            state == State::initial(),
    {
        Self { is_loading: false }
    }
}

impl Default for State {
    fn default() -> (state: Self)
        ensures
            state == State::initial(),
    {
        State::new()
    }
}

/// The events of the home screen.
#[derive(Debug, Clone)]
pub enum Message {
    DoSomething,
}

impl View for Message {
    type V = Message;

    open spec fn view(&self) -> Message {
        *self
    }
}

/// Reduces one event of the home screen: no event changes it or asks for
/// anything yet.
pub fn update(state: &mut State, message: Message) -> (task: Task<Message>)
    ensures
        *final(state) == *old(state),
        task@ == TaskView::<Message>::Nothing,
{
    Task::Nothing
}

} // verus!
