use vstd::prelude::*;

verus! {

/// The operating system family that a paste session drives.
#[derive(Clone, Copy, Debug, PartialEq, Eq, Structural)]
pub enum Platform {
    /// Activates an application by process identifier, then runs a keystroke script.
    MacOs,
    /// Sets the foreground window by handle, then injects a key chord.
    Windows,
    /// Raises and focuses a window through a display connection, then injects a key chord.
    Linux,
}

/// A key used by the paste chord.
#[derive(Clone, Copy, Debug, PartialEq, Eq, Structural)]
pub enum KeyCode {
    Shift,
    Insert,
}

/// One discrete keyboard event.
#[derive(Clone, Copy, Debug, PartialEq, Eq, Structural)]
pub enum KeyEvent {
    Press(KeyCode),
    Release(KeyCode),
}

/// What went wrong in a step.
#[derive(Clone, Copy, Debug, PartialEq, Eq, Structural)]
pub enum Problem {
    /// No previously focused application or window is known.
    NoForegroundApp,
    /// The display server connection could not be opened.
    NoDisplay,
    /// The operating system refused to focus the target.
    FocusRefused,
    /// A simulated input event could not be issued.
    InjectionFailed,
}

/// One thing for the caller to do.
#[derive(Clone, Copy, Debug, PartialEq, Eq, Structural)]
pub enum Action {
    /// Open the display server connection.
    OpenDisplay,
    /// Give input focus to the application or window `id`.
    Focus { id: u64 },
    /// Close the display server connection.
    CloseDisplay,
    /// Log a diagnostic and carry on.
    Report { problem: Problem },
    /// Sleep for `millis` milliseconds.
    Wait { millis: u64 },
    /// Issue one simulated key event.
    Key { event: KeyEvent },
    /// Run the application-level paste keystroke script.
    TypePasteShortcut,
    /// Stop with an unrecoverable fault.
    Abort { problem: Problem },
    /// The paste is complete.
    Finish,
}

/// How the caller's last action went.
#[derive(Clone, Copy, Debug, PartialEq, Eq, Structural)]
pub enum Outcome {
    Succeeded,
    Failed,
}

/// Time given to the window manager to complete a focus change, in milliseconds.
pub const SETTLE_DELAY_MS: u64 = 100;

/// Time between two simulated key events, in milliseconds.
pub const KEY_GAP_MS: u64 = 20;

/// The step that pauses for `millis` milliseconds.
pub fn wait(millis: u64) -> (r: Action)
    ensures
        r == (Action::Wait { millis }),
{
    Action::Wait { millis }
}

/// The identifier of the most recent foreground application, if the list has one.
pub fn first_foreground(apps: &Vec<u64>) -> (r: Option<u64>)
    ensures
        apps@.len() == 0 ==> r is None,
        apps@.len() > 0 ==> r == Some(apps@[0]),
{
    if apps.len() == 0 {
        None
    } else {
        Some(apps[0])
    }
}

} // verus!
