use friday::hotkey::{
    mode_change_clears_listening, HotkeyAction, HotkeyState, KeyEvent, INITIAL_MIC_MODE,
    PUSH_TO_TALK_MODE,
};

#[test]
fn holding_ctrl_and_alt_records() {
    let mut s = HotkeyState::new();
    assert!(matches!(s.on_key(KeyEvent::CtrlDown, 2), HotkeyAction::Nothing));
    assert!(matches!(s.on_key(KeyEvent::AltDown, 2), HotkeyAction::StartListening));
    assert!(s.listening);
    assert!(matches!(s.on_key(KeyEvent::Other, 2), HotkeyAction::Nothing));
    match s.on_key(KeyEvent::AltUp, 2) {
        HotkeyAction::StopListening { prompt } => {
            assert_eq!(prompt, "Check system info and give me status.")
        }
        _ => panic!("expected a stop"),
    }
    assert!(!s.listening);
    assert!(s.ctrl && !s.alt);
}

#[test]
fn other_modes_only_track_modifiers() {
    let mut s = HotkeyState::new();
    assert!(matches!(s.on_key(KeyEvent::CtrlDown, 1), HotkeyAction::Nothing));
    assert!(matches!(s.on_key(KeyEvent::AltDown, 0), HotkeyAction::Nothing));
    assert!(s.ctrl && s.alt && !s.listening);
    assert!(matches!(s.on_key(KeyEvent::Other, 2), HotkeyAction::StartListening));
}

#[test]
fn starts_and_stops_alternate() {
    let mut s = HotkeyState::new();
    let events = [
        KeyEvent::AltDown, KeyEvent::CtrlDown, KeyEvent::CtrlDown, KeyEvent::CtrlUp,
        KeyEvent::CtrlDown, KeyEvent::AltUp, KeyEvent::AltUp,
    ];
    let mut kinds = Vec::new();
    for e in events {
        match s.on_key(e, PUSH_TO_TALK_MODE) {
            HotkeyAction::StartListening => kinds.push('+'),
            HotkeyAction::StopListening { .. } => kinds.push('-'),
            HotkeyAction::Nothing => {}
        }
        assert_eq!(s.listening, s.ctrl && s.alt);
    }
    assert_eq!(kinds, vec!['+', '-', '+', '-']);
}

#[test]
fn mode_changes() {
    assert_eq!(INITIAL_MIC_MODE, 2);
    assert!(!mode_change_clears_listening(1));
    assert!(mode_change_clears_listening(0));
    assert!(mode_change_clears_listening(2));
}
