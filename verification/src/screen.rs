//! The screens of the tracker and what a terminal event does on each.
//!
//! The terminal itself is not touched here: the caller reads an event, says
//! in a [`TerminalEvent`] what it was, and does what the [`LoopAction`]
//! tells.

use vstd::prelude::*;

verus! {

/// The screen that is shown.
#[derive(Debug, Clone, Copy, PartialEq, Eq, Structural)]
pub enum CurrentScreen {
    /// The list of combatants.
    Main,
    /// The form in which a combatant is entered.
    Editing(CurrentlyEditing),
}

/// The kind of combatant that is being entered.
#[derive(Debug, Clone, Copy, PartialEq, Eq, Structural)]
pub enum CurrentlyEditing {
    Player,
    Monster,
}

/// A key, as far as the tracker tells keys apart.
#[derive(Debug, Clone, Copy, PartialEq, Eq, Structural)]
pub enum Key {
    Esc,
    Other,
}

/// What came from the terminal.
#[derive(Debug, Clone, Copy, PartialEq, Eq, Structural)]
pub enum TerminalEvent {
    /// A key event. `released` is set where the event reports that the key
    /// was let go, not that it was pressed or held.
    Key { key: Key, released: bool },
    /// Anything else: the window was resized, the mouse moved.
    Other,
}

/// What the event loop does next.
#[derive(Debug, Clone, Copy, PartialEq, Eq, Structural)]
pub enum LoopAction {
    /// Draw again and wait for the next event.
    Continue,
    /// Leave the loop and restore the terminal.
    Quit,
}

/// Whether `event` ends the session on `screen`: only pressing Esc on the
/// main screen does.
pub open spec fn ends_session(screen: CurrentScreen, event: TerminalEvent) -> bool {
    &&& screen is Main
    &&& event matches TerminalEvent::Key { key, released }
    &&& key is Esc
    &&& !released
}

/// Decides what the event loop does after `event` came in while `screen`
/// was shown.
pub fn on_event(screen: &CurrentScreen, event: &TerminalEvent) -> (action: LoopAction)
    ensures
        ends_session(*screen, *event) ==> action == LoopAction::Quit,
        !ends_session(*screen, *event) ==> action == LoopAction::Continue,
{
    if let TerminalEvent::Key { key, released } = event {
        if *released {
            return LoopAction::Continue;
        }
        match screen {
            CurrentScreen::Main => match key {
                Key::Esc => LoopAction::Quit,
                _ => LoopAction::Continue,
            },
            _ => LoopAction::Continue,
        }
    } else {
        LoopAction::Continue
    }
}

} // verus!
