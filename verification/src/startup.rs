//! What the application decides as it starts and while it runs: how it
//! reads its command line, and what it does when a window or the whole
//! application is asked to close.

use crate::text::same_text;
use crate::window::MAIN_WINDOW;
use vstd::prelude::*;

verus! {

/// The option that keeps the application in the background.
pub const BACKGROUND_OPTION: &'static str = "background";

/// The option that lets the application show notifications.
pub const NOTIFICATIONS_OPTION: &'static str = "with-notifications";

/// What the user is told when the application starts in the background.
pub const BACKGROUND_NOTICE: &'static str =
    "Portmaster User Interface is running in the background";

/// The event that tells the user interface that it is asked to exit.
pub const EXIT_REQUESTED_EVENT: &'static str = "exit-requested";

/// The event that a second start of the application sends to the first.
pub const SINGLE_INSTANCE_EVENT: &'static str = "single-instance";

/// Whether a switch of the command line is on. `given` is nothing where
/// the switch is not known to the command line, and holds nothing where
/// its value is no truth value. Only a switch with the value true is on.
pub fn flag(given: Option<Option<bool>>) -> (on: bool)
    ensures
        on == (given == Some(Some(true))),
{
    match given {
        Some(Some(value)) => value,
        _ => false,
    }
}

/// What the application is asked by the system.
pub enum RunEvent<'a> {
    /// The window `label` is asked to close.
    CloseRequested { label: &'a str },
    /// The application is asked to exit.
    ExitRequested,
    /// Anything else.
    Other,
}

/// What the application does about a request.
#[derive(Clone, Copy, PartialEq, Eq, Debug, Structural)]
pub enum Reaction {
    /// Keep the window open, and tell the user interface that it was asked
    /// to exit.
    KeepWindow,
    /// Keep the application running.
    KeepRunning,
    /// Nothing.
    Ignore,
}

/// What the application does about `event`: the main window is not closed
/// but told of the request, and the application does not exit on request.
/// Only the user interface ends the application.
pub open spec fn reaction_to(event: RunEvent) -> Reaction {
    match event {
        RunEvent::CloseRequested { label } => if label@ == MAIN_WINDOW@ {
            Reaction::KeepWindow
        } else {
            Reaction::Ignore
        },
        RunEvent::ExitRequested => Reaction::KeepRunning,
        RunEvent::Other => Reaction::Ignore,
    }
}

/// Decides what the application does about `event`.
pub fn react(event: RunEvent) -> (reaction: Reaction)
    ensures
        reaction == reaction_to(event),
{
    match event {
        RunEvent::CloseRequested { label } => {
            if same_text(label, MAIN_WINDOW) {
                Reaction::KeepWindow
            } else {
                Reaction::Ignore
            }
        },
        RunEvent::ExitRequested => Reaction::KeepRunning,
        RunEvent::Other => Reaction::Ignore,
    }
}

} // verus!
