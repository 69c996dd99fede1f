//! The first-run form: the keys a user submits, and the checks that decide
//! whether the assistant starts.
use vstd::prelude::*;
use crate::text::{trim, trim_spec};

verus! {

/// Where one submission of the form stands.
pub enum KeyCheck {
    /// The Gemini key is being checked; the ElevenLabs key, possibly empty,
    /// waits its turn.
    CheckingGemini { gemini: String, eleven: String },
    /// The Gemini key passed; the ElevenLabs key is being checked.
    CheckingEleven { gemini: String },
    /// The submission has its outcome.
    Done,
}

/// A submission's stage, as a value of the specification.
pub enum KeyCheckView {
    CheckingGemini { gemini: Seq<char>, eleven: Seq<char> },
    CheckingEleven { gemini: Seq<char> },
    Done,
}

impl View for KeyCheck {
    type V = KeyCheckView;

    open spec fn view(&self) -> KeyCheckView {
        match self {
            KeyCheck::CheckingGemini { gemini, eleven } => KeyCheckView::CheckingGemini {
                gemini: gemini@,
                eleven: eleven@,
            },
            KeyCheck::CheckingEleven { gemini } => KeyCheckView::CheckingEleven { gemini: gemini@ },
            KeyCheck::Done => KeyCheckView::Done,
        }
    }
}

/// What the form does next.
pub enum SetupAction {
    /// Show `0` as the form's error; nothing was being checked.
    Reject(String),
    /// Show the form as checking, clear its error, and check this Gemini key.
    ValidateGemini(String),
    /// Check this ElevenLabs key.
    ValidateEleven(String),
    /// Stop showing the form as checking and show `0` as its error.
    Fail(String),
    /// Stop showing the form as checking and start the assistant with this Gemini key.
    Launch(String),
    /// Nothing: the submission already has its outcome.
    Nothing,
}

/// A form action, as a value of the specification.
pub enum SetupActionView {
    Reject(Seq<char>),
    ValidateGemini(Seq<char>),
    ValidateEleven(Seq<char>),
    Fail(Seq<char>),
    Launch(Seq<char>),
    Nothing,
}

impl View for SetupAction {
    type V = SetupActionView;

    open spec fn view(&self) -> SetupActionView {
        match self {
            SetupAction::Reject(m) => SetupActionView::Reject(m@),
            SetupAction::ValidateGemini(k) => SetupActionView::ValidateGemini(k@),
            SetupAction::ValidateEleven(k) => SetupActionView::ValidateEleven(k@),
            SetupAction::Fail(m) => SetupActionView::Fail(m@),
            SetupAction::Launch(k) => SetupActionView::Launch(k@),
            SetupAction::Nothing => SetupActionView::Nothing,
        }
    }
}

/// What a submission of the two keys, as typed, starts.
pub open spec fn submit_keys_spec(gemini_raw: Seq<char>, eleven_raw: Seq<char>) -> (
    KeyCheckView,
    SetupActionView,
) {
    let g = trim_spec(gemini_raw);
    let e = trim_spec(eleven_raw);
    if g.len() == 0 {
        (KeyCheckView::Done, SetupActionView::Reject("Gemini API key is required."@))
    } else {
        (KeyCheckView::CheckingGemini { gemini: g, eleven: e }, SetupActionView::ValidateGemini(g))
    }
}

/// Where a submission goes once the key under check was found `valid` or not.
pub open spec fn key_checked_spec(state: KeyCheckView, valid: bool) -> (
    KeyCheckView,
    SetupActionView,
) {
    match state {
        KeyCheckView::CheckingGemini { gemini, eleven } => if !valid {
            (KeyCheckView::Done, SetupActionView::Fail("Invalid Gemini API key."@))
        } else if eleven.len() == 0 {
            (KeyCheckView::Done, SetupActionView::Launch(gemini))
        } else {
            (KeyCheckView::CheckingEleven { gemini }, SetupActionView::ValidateEleven(eleven))
        },
        KeyCheckView::CheckingEleven { gemini } => if !valid {
            (KeyCheckView::Done, SetupActionView::Fail("Invalid ElevenLabs API key."@))
        } else {
            (KeyCheckView::Done, SetupActionView::Launch(gemini))
        },
        KeyCheckView::Done => (KeyCheckView::Done, SetupActionView::Nothing),
    }
}

/// Starts a submission of the keys as typed: both are trimmed; an empty
/// Gemini key is refused at once, otherwise it is checked first.
pub fn submit_keys(gemini_raw: &str, eleven_raw: &str) -> (r: (KeyCheck, SetupAction))
    ensures
        (r.0@, r.1@) == submit_keys_spec(gemini_raw@, eleven_raw@),
{
    let g = trim(gemini_raw);
    let e = trim(eleven_raw);
    if g.as_str().unicode_len() == 0 {
        (KeyCheck::Done, SetupAction::Reject(String::from_str("Gemini API key is required.")))
    } else {
        let k = g.clone();
        (KeyCheck::CheckingGemini { gemini: g, eleven: e }, SetupAction::ValidateGemini(k))
    }
}

impl KeyCheck {
    /// Moves the submission on once the key under check was found `valid` or
    /// not: an invalid key ends it with its error, a valid Gemini key leads to
    /// the ElevenLabs check when that key was given, and the assistant starts
    /// once every given key passed.
    pub fn key_checked(self, valid: bool) -> (r: (KeyCheck, SetupAction))
        ensures
            (r.0@, r.1@) == key_checked_spec(self@, valid),
    {
        match self {
            KeyCheck::CheckingGemini { gemini, eleven } => {
                if !valid {
                    (KeyCheck::Done, SetupAction::Fail(String::from_str("Invalid Gemini API key.")))
                } else if eleven.as_str().unicode_len() == 0 {
                    (KeyCheck::Done, SetupAction::Launch(gemini))
                } else {
                    let k = eleven.clone();
                    (KeyCheck::CheckingEleven { gemini }, SetupAction::ValidateEleven(k))
                }
            },
            KeyCheck::CheckingEleven { gemini } => {
                if !valid {
                    (
                        KeyCheck::Done,
                        SetupAction::Fail(String::from_str("Invalid ElevenLabs API key.")),
                    )
                } else {
                    (KeyCheck::Done, SetupAction::Launch(gemini))
                }
            },
            KeyCheck::Done => (KeyCheck::Done, SetupAction::Nothing),
        }
    }
}

/// Each key goes to its own service, trimmed: a submission with a non-blank
/// Gemini key first asks to check exactly that key, trimmed, with Gemini;
/// once it passed, a non-blank ElevenLabs key is checked, trimmed, with
/// ElevenLabs. A blank Gemini key is refused without any check.
pub proof fn lemma_each_key_goes_to_its_service(gemini_raw: Seq<char>, eleven_raw: Seq<char>)
    ensures
        trim_spec(gemini_raw).len() > 0 ==> submit_keys_spec(gemini_raw, eleven_raw).1
            == SetupActionView::ValidateGemini(trim_spec(gemini_raw)),
        trim_spec(gemini_raw).len() == 0 ==> submit_keys_spec(gemini_raw, eleven_raw) == (
            KeyCheckView::Done,
            SetupActionView::Reject("Gemini API key is required."@),
        ),
        trim_spec(gemini_raw).len() > 0 && trim_spec(eleven_raw).len() > 0 ==> key_checked_spec(
            submit_keys_spec(gemini_raw, eleven_raw).0,
            true,
        ).1 == SetupActionView::ValidateEleven(trim_spec(eleven_raw)),
        trim_spec(gemini_raw).len() > 0 ==> key_checked_spec(
            submit_keys_spec(gemini_raw, eleven_raw).0,
            false,
        ) == (KeyCheckView::Done, SetupActionView::Fail("Invalid Gemini API key."@)),
        trim_spec(gemini_raw).len() > 0 && trim_spec(eleven_raw).len() > 0 ==> key_checked_spec(
            key_checked_spec(submit_keys_spec(gemini_raw, eleven_raw).0, true).0,
            false,
        ) == (KeyCheckView::Done, SetupActionView::Fail("Invalid ElevenLabs API key."@)),
{
}

/// The actions of a submission of the two keys whose checks came out as
/// `results`, in order.
pub open spec fn setup_run_actions(state: KeyCheckView, results: Seq<bool>) -> Seq<SetupActionView>
    decreases results.len(),
{
    if results.len() == 0 {
        Seq::empty()
    } else {
        let (next, a) = key_checked_spec(state, results[0]);
        seq![a] + setup_run_actions(next, results.drop_first())
    }
}

/// The assistant starts from a submission exactly when the trimmed Gemini key
/// is not empty and passed its check, and the trimmed ElevenLabs key is empty
/// or passed its check; it then starts with the trimmed Gemini key.
pub proof fn lemma_launch_needs_valid_keys(
    gemini_raw: Seq<char>,
    eleven_raw: Seq<char>,
    results: Seq<bool>,
    i: int,
)
    requires
        0 <= i < setup_run_actions(submit_keys_spec(gemini_raw, eleven_raw).0, results).len(),
    ensures
        setup_run_actions(submit_keys_spec(gemini_raw, eleven_raw).0, results)[i] is Launch
            <==> ({
            let g = trim_spec(gemini_raw);
            let e = trim_spec(eleven_raw);
            &&& g.len() != 0
            &&& results[0]
            &&& if e.len() == 0 {
                i == 0
            } else {
                i == 1 && results[1]
            }
        }),
        setup_run_actions(submit_keys_spec(gemini_raw, eleven_raw).0, results)[i] matches SetupActionView::Launch(k)
            ==> k == trim_spec(gemini_raw),
{
    let g = trim_spec(gemini_raw);
    let e = trim_spec(eleven_raw);
    let s0 = submit_keys_spec(gemini_raw, eleven_raw).0;
    let acts = setup_run_actions(s0, results);
    let (s1, a0) = key_checked_spec(s0, results[0]);
    let rest1 = setup_run_actions(s1, results.drop_first());
    assert(acts == seq![a0] + rest1);
    if i > 0 {
        assert(acts[i] == rest1[i - 1]);
        let r1 = results.drop_first();
        let (s2, a1) = key_checked_spec(s1, r1[0]);
        let rest2 = setup_run_actions(s2, r1.drop_first());
        assert(rest1 == seq![a1] + rest2);
        assert(r1[0] == results[1]);
        if i > 1 {
            assert(rest1[i - 1] == rest2[i - 2]);
            assert(s2 is Done);
            lemma_done_does_nothing(r1.drop_first(), i - 2);
        }
    }
}

/// A submission with its outcome asks for nothing more.
pub proof fn lemma_done_does_nothing(results: Seq<bool>, i: int)
    requires
        0 <= i < setup_run_actions(KeyCheckView::Done, results).len(),
    ensures
        setup_run_actions(KeyCheckView::Done, results)[i] is Nothing,
    decreases results.len(),
{
    let rest = setup_run_actions(KeyCheckView::Done, results.drop_first());
    assert(setup_run_actions(KeyCheckView::Done, results) == seq![SetupActionView::Nothing] + rest);
    if i > 0 {
        lemma_done_does_nothing(results.drop_first(), i - 1);
    }
}

} // verus!
