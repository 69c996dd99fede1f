use friday::setup::{submit_keys, KeyCheck, SetupAction};

fn msg(a: &SetupAction) -> String {
    match a {
        SetupAction::Reject(m) | SetupAction::Fail(m) => m.clone(),
        _ => panic!("expected an error"),
    }
}

#[test]
fn empty_gemini_key_is_refused() {
    let (s, a) = submit_keys("   ", "eleven");
    assert!(matches!(s, KeyCheck::Done));
    assert!(matches!(a, SetupAction::Reject(_)));
    assert_eq!(msg(&a), "Gemini API key is required.");
}

#[test]
fn keys_are_trimmed_and_gemini_checked_first() {
    let (s, a) = submit_keys("  g-key \n", "  ");
    match a {
        SetupAction::ValidateGemini(k) => assert_eq!(k, "g-key"),
        _ => panic!("expected a Gemini check"),
    }
    let (s, a) = s.key_checked(true);
    assert!(matches!(s, KeyCheck::Done));
    match a {
        SetupAction::Launch(k) => assert_eq!(k, "g-key"),
        _ => panic!("expected a launch"),
    }
}

#[test]
fn invalid_gemini_key_fails() {
    let (s, _) = submit_keys("bad", "");
    let (s, a) = s.key_checked(false);
    assert!(matches!(s, KeyCheck::Done));
    assert!(matches!(a, SetupAction::Fail(_)));
    assert_eq!(msg(&a), "Invalid Gemini API key.");
    assert!(matches!(s.key_checked(true).1, SetupAction::Nothing));
}

#[test]
fn eleven_key_is_checked_when_given() {
    let (s, _) = submit_keys("g", " e ");
    let (s, a) = s.key_checked(true);
    match a {
        SetupAction::ValidateEleven(k) => assert_eq!(k, "e"),
        _ => panic!("expected an ElevenLabs check"),
    }
    let (_, a) = s.key_checked(true);
    assert!(matches!(a, SetupAction::Launch(ref k) if k == "g"));
}

#[test]
fn invalid_eleven_key_fails() {
    let (s, _) = submit_keys("g", "e");
    let (s, _) = s.key_checked(true);
    let (_, a) = s.key_checked(false);
    assert_eq!(msg(&a), "Invalid ElevenLabs API key.");
}
