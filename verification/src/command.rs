//! The vocabulary of user intents, and what a view answers to one.

use vstd::prelude::*;
use crate::ui::stack::Screen;

verus! {

/// A user intent, as decoded from input.
#[derive(Clone, Copy, Debug, PartialEq, Eq, Structural)]
pub enum Command {
    Play,
    PlayNext,
    Queue,
    Save,
    Delete,
    Open,
    Back,
    Up,
    Down,
    Confirm,
    Cancel,
}

/// What the view stack is to do once a view has consumed a command.
#[derive(Debug, PartialEq, Eq)]
pub enum FollowUp {
    /// Put this view on top of the stack.
    Push(Screen),
    /// Take the consuming view off the stack.
    Pop,
}

/// A view's answer to a command.
#[derive(Debug, PartialEq, Eq)]
pub enum CommandResult {
    /// The command stops here, with an optional follow-up.
    Consumed(Option<FollowUp>),
    /// The view declines; the next view down is asked.
    Ignored,
}

impl CommandResult {
    /// Whether the command stops at the view that answered.
    pub open spec fn is_consumed(self) -> bool {
        self is Consumed
    }
}

} // verus!
