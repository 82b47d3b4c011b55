//! The commands that embedded content may invoke on the native side.
use vstd::prelude::*;
use crate::window::{Visibility, Window};

verus! {

/// The commands the bridge serves.
#[derive(Clone, Copy, Debug, PartialEq, Eq, Structural)]
pub enum Command {
    /// Put the window on screen.
    ShowWindow,
}

/// A failed invocation, reported to the content that made it.
#[derive(Debug)]
pub enum InvokeError {
    /// No command has this name.
    UnknownCommand(String),
}

/// The command registered under `name`, matched exactly.
pub open spec fn command_named(name: Seq<char>) -> Option<Command> {
    if name == "show_window"@ {
        Some(Command::ShowWindow)
    } else {
        None
    }
}

/// The window after a show request: made visible if there is one.
pub open spec fn shown(window: Option<Window>) -> Option<Window> {
    match window {
        Some(w) => Some(Window { visibility: Visibility::Visible, ..w }),
        None => None,
    }
}

/// Resolves the name under which content invokes a command.
pub fn parse_command(name: &str) -> (r: Result<Command, InvokeError>)
    ensures
        match r {
            Ok(c) => command_named(name@) == Some(c),
            Err(InvokeError::UnknownCommand(n)) => command_named(name@).is_none() && n@ == name@,
        },
{
    let given = name.to_owned();
    if given == "show_window".to_owned() {
        Ok(Command::ShowWindow)
    } else {
        Err(InvokeError::UnknownCommand(given))
    }
}

/// Makes the window visible if it can be found; without one it does nothing
/// and still succeeds. Returns whether the window is to be shown on screen.
pub fn show_window(window: &mut Option<Window>) -> (show: bool)
    ensures
        *final(window) == shown(*old(window)),
        show == old(window).is_some(),
{
    match *window {
        Some(w) => {
            *window = Some(Window { visibility: Visibility::Visible, ..w });
            true
        },
        None => false,
    }
}

/// Runs `command` against the window. Returns whether the window is to be
/// shown on screen.
pub fn run_command(window: &mut Option<Window>, command: Command) -> (show: bool)
    ensures
        *final(window) == shown(*old(window)),
        show == old(window).is_some(),
{
    match command {
        Command::ShowWindow => show_window(window),
    }
}

/// The shell once setup is complete: it serves the content's invocations.
pub struct Shell {
    /// The window, while it can be found.
    pub window: Option<Window>,
}

impl Shell {
    /// Dispatches the invocation `name`. An unknown name fails and leaves the
    /// shell as it was; `show_window` always succeeds, with `Ok(true)` when
    /// there is a window to put on screen.
    pub fn invoke(&mut self, name: &str) -> (r: Result<bool, InvokeError>)
        ensures
            match command_named(name@) {
                Some(Command::ShowWindow) => {
                    &&& r == Ok::<bool, InvokeError>(old(self).window.is_some())
                    &&& final(self).window == shown(old(self).window)
                },
                None => {
                    &&& r matches Err(InvokeError::UnknownCommand(n)) && n@ == name@
                    &&& final(self).window == old(self).window
                },
            },
    {
        match parse_command(name) {
            Ok(command) => Ok(run_command(&mut self.window, command)),
            Err(e) => Err(e),
        }
    }
}

/// Showing a hidden window makes it visible and changes nothing else; showing
/// it again changes nothing; without a window nothing changes.
pub proof fn lemma_show_window_idempotent(window: Option<Window>)
    ensures
        shown(shown(window)) == shown(window),
        window matches Some(w) ==> shown(window) == Some(
            Window { visibility: Visibility::Visible, ..w },
        ),
        window matches Some(w) && w.visibility == Visibility::Visible ==> shown(window) == window,
        window.is_none() ==> shown(window).is_none(),
{
}

} // verus!
