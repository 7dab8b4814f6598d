use initiative_tracker::screen::{
    on_event, CurrentScreen, CurrentlyEditing, Key, LoopAction, TerminalEvent,
};

fn key(key: Key, released: bool) -> TerminalEvent {
    TerminalEvent::Key { key, released }
}

#[test]
fn escape_on_the_main_screen_quits() {
    assert_eq!(
        on_event(&CurrentScreen::Main, &key(Key::Esc, false)),
        LoopAction::Quit
    );
}

#[test]
fn letting_escape_go_does_nothing() {
    assert_eq!(
        on_event(&CurrentScreen::Main, &key(Key::Esc, true)),
        LoopAction::Continue
    );
}

#[test]
fn other_keys_and_events_do_nothing() {
    for screen in [
        CurrentScreen::Main,
        CurrentScreen::Editing(CurrentlyEditing::Player),
        CurrentScreen::Editing(CurrentlyEditing::Monster),
    ] {
        assert_eq!(on_event(&screen, &key(Key::Other, false)), LoopAction::Continue);
        assert_eq!(on_event(&screen, &key(Key::Other, true)), LoopAction::Continue);
        assert_eq!(on_event(&screen, &TerminalEvent::Other), LoopAction::Continue);
    }
}

#[test]
fn escape_while_editing_does_not_quit() {
    for editing in [CurrentlyEditing::Player, CurrentlyEditing::Monster] {
        let screen = CurrentScreen::Editing(editing);
        assert_eq!(on_event(&screen, &key(Key::Esc, false)), LoopAction::Continue);
        assert_eq!(on_event(&screen, &key(Key::Esc, true)), LoopAction::Continue);
    }
}
