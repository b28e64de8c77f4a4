//! The events the host runtime delivers to the shell, the commands the shell
//! issues back, and the errors the shell can observe.

use vstd::prelude::*;

verus! {

/// Visibility of the application's single main window.
#[derive(Clone, Copy, Debug, PartialEq, Eq, Structural)]
pub enum WindowVisibility {
    Visible,
    Hidden,
}

/// Identity of the mouse button in a tray click.
#[derive(Clone, Copy, Debug, PartialEq, Eq, Structural)]
pub enum TrayButton {
    Primary,
    Other,
}

/// Press or release phase of a tray click.
#[derive(Clone, Copy, Debug, PartialEq, Eq, Structural)]
pub enum TrayButtonState {
    Down,
    Up,
}

/// A cursor position carried by host events, held as the IEEE-754 bit
/// patterns of the host's two coordinates. The shell never interprets the
/// coordinates; it only carries them through to the UI layer, so the bits
/// are stored untouched.
#[derive(Clone, Copy, Debug, PartialEq, Eq, Structural)]
pub struct CursorPoint {
    pub x_bits: u64,
    pub y_bits: u64,
}

/// A pointer event on the tray icon, as the host runtime delivers it.
#[derive(Clone, Copy, Debug, PartialEq, Eq, Structural)]
pub enum TrayEvent {
    Click { button: TrayButton, state: TrayButtonState, position: CursorPoint },
    DoubleClick { button: TrayButton, position: CursorPoint },
    Enter { position: CursorPoint },
    Leave { position: CursorPoint },
    Move { position: CursorPoint },
}

/// A command the shell issues to the host runtime.
#[derive(Clone, Copy, Debug, PartialEq, Eq, Structural)]
pub enum Action {
    /// Re-center the main window over the tray icon.
    MoveToTrayCenter,
    /// Show the main window.
    Show,
    /// Hide the main window.
    Hide,
    /// Bring the main window to foreground focus.
    SetFocus,
    /// Terminate the process with the given status.
    Exit { code: i32 },
}

/// A failure the shell can observe. Each one is a setup or environment
/// defect: a correctly configured desktop never produces any of them.
#[derive(Clone, Copy, Debug, PartialEq, Eq, Structural)]
pub enum ShellError {
    /// The main window handle could not be found.
    MissingWindow,
    /// The platform offers no supported backdrop effect.
    BackdropUnsupported,
    /// A dropped path, at this index of its batch, could not be opened or
    /// read.
    DropReadFailed { index: usize },
}

/// Error policy of the whole shell: every observable failure is fatal. The
/// caller aborts with a diagnostic; nothing is retried or recovered.
pub fn is_fatal(e: &ShellError) -> (r: bool)
    ensures
        r,
{
    match e {
        ShellError::MissingWindow => true,
        ShellError::BackdropUnsupported => true,
        ShellError::DropReadFailed { .. } => true,
    }
}

} // verus!
