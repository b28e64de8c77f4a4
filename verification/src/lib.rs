//! A verified core for a tray-controlled desktop shell.
//!
//! The shell owns one main window. A tray click toggles the window's
//! visibility, a relaunch signal brings it to the foreground, dropped files
//! are read and forwarded to the UI layer as one event per drop batch, and a
//! remote `quit` command ends the process. The host runtime (windowing,
//! tray, drag-and-drop, IPC) delivers events and carries out commands; this
//! crate holds the decisions between the two, as pure functions from state
//! and event to next state and commands, each with a proved contract.

pub mod events;

pub mod controller;

pub mod bridge;
