//! The events that the control loop consumes.
use vstd::prelude::*;
use crate::bluetooth::{BluetoothEvent, BluetoothEventView};

verus! {

/// What the user wants done.
#[derive(Clone, Copy, Debug, PartialEq, Eq, Structural)]
pub enum AppEvent {
    /// End the application.
    Quit,
    /// Select the session before the selected one.
    PrevMitch,
    /// Select the session after the selected one.
    NextMitch,
    /// Connect the selected session.
    Connect,
    /// Disconnect the selected session.
    Disconnect,
    /// Start the telemetry stream of the selected session.
    StartRecord,
    /// Stop the telemetry stream of the selected session.
    StopRecord,
}

/// The key of a key event, as far as the application tells keys apart.
#[derive(Clone, Copy, Debug, PartialEq, Eq, Structural)]
pub enum KeyCode {
    Esc,
    Enter,
    Up,
    Down,
    Char(char),
    /// Any other key.
    Other,
}

/// Whether a key went down, is held, or came up.
#[derive(Clone, Copy, Debug, PartialEq, Eq, Structural)]
pub enum KeyEventKind {
    Press,
    Repeat,
    Release,
}

/// A key event of the terminal.
#[derive(Clone, Copy, Debug, PartialEq, Eq, Structural)]
pub struct KeyEvent {
    pub code: KeyCode,
    /// Whether the control key, and no other modifier, is held.
    pub control: bool,
    pub kind: KeyEventKind,
}

/// What the control loop waits for.
#[derive(Debug)]
pub enum Event {
    /// The periodic tick.
    Tick,
    /// A key event of the terminal.
    Key(KeyEvent),
    /// An intent of the user.
    App(AppEvent),
    /// News from the device subsystem.
    Bluetooth(BluetoothEvent),
}

/// `Event` as the contracts see it.
pub enum EventView {
    Tick,
    Key(KeyEvent),
    App(AppEvent),
    Bluetooth(BluetoothEventView),
}

impl View for Event {
    type V = EventView;

    open spec fn view(&self) -> EventView {
        match self {
            Event::Tick => EventView::Tick,
            Event::Key(key) => EventView::Key(*key),
            Event::App(intent) => EventView::App(*intent),
            Event::Bluetooth(news) => EventView::Bluetooth(news@),
        }
    }
}

} // verus!
