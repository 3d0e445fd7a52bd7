//! The messages that a supervisor sends to the runtime of its container.

use vstd::prelude::*;
pub use crate::syscall::{Command, CommandView, ExecType};

verus! {

/// Actions that the container performs on itself.
#[derive(Debug, Clone, Copy, PartialEq, Eq, Structural)]
pub enum Action {
    /// Leave the event loop and exit.
    STOP,
}

/// A message to the container.
#[derive(Debug, Clone, PartialEq, Eq)]
pub enum Message {
    /// An action to be performed by the container.
    ACTION(Action),
    /// A command to be executed by the container.
    COMMAND(Command),
}

/// The mathematical content of a [`Message`].
pub enum MessageView {
    ACTION(Action),
    COMMAND(CommandView),
}

impl View for Message {
    type V = MessageView;

    open spec fn view(&self) -> MessageView {
        match self {
            Message::ACTION(action) => MessageView::ACTION(*action),
            Message::COMMAND(command) => MessageView::COMMAND(command@),
        }
    }
}

impl DeepView for Message {
    type V = MessageView;

    open spec fn deep_view(&self) -> MessageView {
        self@
    }
}

} // verus!
