use friday::desktop::{
    centered_x, detect_dark_theme, elevenlabs_key_header, elevenlabs_user_url, gemini_models_url,
    hud_window_title, is_success_status, key_accepted, menu_event_quits, placement_step,
    quit_label, theme_query_args, tray_icon_rgba, tray_tooltip, PlacementAction, HUD_HEIGHT,
    HUD_TOP, HUD_WIDTH, PLACEMENT_ATTEMPTS,
};

#[test]
fn success_statuses() {
    assert!(is_success_status(200));
    assert!(is_success_status(299));
    assert!(!is_success_status(199));
    assert!(!is_success_status(300));
    assert!(!is_success_status(401));
}

#[test]
fn key_checks() {
    assert!(key_accepted(Some(204)));
    assert!(!key_accepted(Some(403)));
    assert!(!key_accepted(None));
    assert_eq!(
        gemini_models_url("abc"),
        "https://generativelanguage.googleapis.com/v1beta/models?key=abc"
    );
    assert_eq!(elevenlabs_user_url(), "https://api.elevenlabs.io/v1/user");
    assert_eq!(elevenlabs_key_header(), "xi-api-key");
}

#[test]
fn theme_detection() {
    assert!(!detect_dark_theme(&Some(b"1\r\n".to_vec())));
    assert!(detect_dark_theme(&Some(b"0\r\n".to_vec())));
    assert!(detect_dark_theme(&Some(b"".to_vec())));
    assert!(detect_dark_theme(&None));
    let args = theme_query_args();
    assert_eq!(args[0], "-Command");
    assert!(args[1].contains("'HKCU:\\Software\\Microsoft\\Windows\\CurrentVersion\\Themes\\Personalize'"));
}

#[test]
fn window_is_centred() {
    assert_eq!(centered_x(1920, HUD_WIDTH), 820);
    assert_eq!(centered_x(1921, 280), 820);
    assert_eq!(centered_x(100, 281), -90);
    assert_eq!((HUD_WIDTH, HUD_HEIGHT, HUD_TOP), (280, 70, 16));
    assert_eq!(hud_window_title(), "F.R.I.D.A.Y. HUD");
}

#[test]
fn window_search_gives_up_after_ten_looks() {
    assert_eq!(PLACEMENT_ATTEMPTS, 10);
    assert!(placement_step(0, true) == PlacementAction::Place);
    assert!(placement_step(0, false) == PlacementAction::PauseAndRetry);
    assert!(placement_step(8, false) == PlacementAction::PauseAndRetry);
    assert!(placement_step(9, false) == PlacementAction::PauseAndStop);
}

#[test]
fn tray_icon() {
    assert_eq!(tray_icon_rgba(), vec![0, 210, 255, 255, 0, 210, 255, 255, 0, 210, 255, 255, 0, 210, 255, 255]);
    assert_eq!(tray_tooltip(), "F.R.I.D.A.Y. Core");
    assert_eq!(quit_label(), "Quit F.R.I.D.A.Y.");
    assert!(menu_event_quits(&"1".to_string(), &"1".to_string()));
    assert!(!menu_event_quits(&"2".to_string(), &"1".to_string()));
}
