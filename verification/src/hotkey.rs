//! The push-to-talk hotkey: holding Ctrl and Alt together records a request.
use vstd::prelude::*;

verus! {

/// The microphone mode in which holding Ctrl+Alt records.
pub const PUSH_TO_TALK_MODE: i32 = 2;

/// The microphone mode the floating bar starts in.
pub const INITIAL_MIC_MODE: i32 = 2;

/// A keyboard event, as far as the hotkey cares.
#[derive(Clone, Copy, PartialEq, Eq, Structural)]
pub enum KeyEvent {
    CtrlDown,
    CtrlUp,
    AltDown,
    AltUp,
    Other,
}

/// What the hotkey listener knows: which modifiers are held, and whether a
/// recording is under way.
#[derive(Clone, Copy, PartialEq, Eq, Structural)]
pub struct HotkeyState {
    pub ctrl: bool,
    pub alt: bool,
    pub listening: bool,
}

/// What the listener asks for after an event.
pub enum HotkeyAction {
    /// Nothing changes.
    Nothing,
    /// Start recording and show the bar as listening.
    StartListening,
    /// Stop recording, show the bar as idle, and ask the model `prompt`.
    StopListening { prompt: String },
}

/// The kind of a hotkey action, as a value of the specification.
#[derive(PartialEq, Eq, Structural)]
pub enum HotkeyActionKind {
    Nothing,
    Start,
    Stop,
}

impl View for HotkeyAction {
    type V = HotkeyActionKind;

    open spec fn view(&self) -> HotkeyActionKind {
        match self {
            HotkeyAction::Nothing => HotkeyActionKind::Nothing,
            HotkeyAction::StartListening => HotkeyActionKind::Start,
            HotkeyAction::StopListening { .. } => HotkeyActionKind::Stop,
        }
    }
}

/// The prompt sent to the model when a push-to-talk recording ends.
pub open spec fn hotkey_prompt_spec() -> Seq<char> {
    "Check system info and give me status."@
}

/// The listener's state after `event` in microphone mode `mode`, and what it asks for.
pub open spec fn hotkey_step_spec(s: HotkeyState, event: KeyEvent, mode: i32) -> (
    HotkeyState,
    HotkeyActionKind,
) {
    let ctrl = match event {
        KeyEvent::CtrlDown => true,
        KeyEvent::CtrlUp => false,
        _ => s.ctrl,
    };
    let alt = match event {
        KeyEvent::AltDown => true,
        KeyEvent::AltUp => false,
        _ => s.alt,
    };
    let held = ctrl && alt;
    if mode == PUSH_TO_TALK_MODE && held && !s.listening {
        (HotkeyState { ctrl, alt, listening: true }, HotkeyActionKind::Start)
    } else if mode == PUSH_TO_TALK_MODE && !held && s.listening {
        (HotkeyState { ctrl, alt, listening: false }, HotkeyActionKind::Stop)
    } else {
        (HotkeyState { ctrl, alt, listening: s.listening }, HotkeyActionKind::Nothing)
    }
}

impl HotkeyState {
    /// No modifier held, nothing recording.
    pub fn new() -> (s: Self)
        ensures
            !s.ctrl && !s.alt && !s.listening,
    {
        HotkeyState { ctrl: false, alt: false, listening: false }
    }

    /// Takes in `event` while the bar is in microphone mode `mode`: tracks the
    /// modifiers, and in push-to-talk mode starts a recording when Ctrl and
    /// Alt become held together and stops it when they no longer are.
    pub fn on_key(&mut self, event: KeyEvent, mode: i32) -> (a: HotkeyAction)
        ensures
            (*final(self), a@) == hotkey_step_spec(*old(self), event, mode),
            a matches HotkeyAction::StopListening { prompt } ==> prompt@ == hotkey_prompt_spec(),
            a matches HotkeyAction::StopListening { prompt } ==> prompt@
                == "Check system info and give me status."@,
    {
        match event {
            KeyEvent::CtrlDown => self.ctrl = true,
            KeyEvent::CtrlUp => self.ctrl = false,
            KeyEvent::AltDown => self.alt = true,
            KeyEvent::AltUp => self.alt = false,
            KeyEvent::Other => {},
        }
        if mode == PUSH_TO_TALK_MODE {
            let held = self.ctrl && self.alt;
            if held && !self.listening {
                self.listening = true;
                return HotkeyAction::StartListening;
            } else if !held && self.listening {
                self.listening = false;
                return HotkeyAction::StopListening {
                    prompt: String::from_str("Check system info and give me status."),
                };
            }
        }
        HotkeyAction::Nothing
    }
}

/// Whether switching the bar to microphone mode `mode` shows it as not listening.
pub fn mode_change_clears_listening(mode: i32) -> (b: bool)
    ensures
        b == (mode != 1),
{
    mode != 1
}

/// Ctrl's and Alt's presses and releases are tracked each on its own, in
/// every mode; any other key leaves them as they were.
pub proof fn lemma_modifiers_tracked(s: HotkeyState, mode: i32)
    ensures
        hotkey_step_spec(s, KeyEvent::CtrlDown, mode).0.ctrl,
        hotkey_step_spec(s, KeyEvent::CtrlDown, mode).0.alt == s.alt,
        !hotkey_step_spec(s, KeyEvent::CtrlUp, mode).0.ctrl,
        hotkey_step_spec(s, KeyEvent::CtrlUp, mode).0.alt == s.alt,
        hotkey_step_spec(s, KeyEvent::AltDown, mode).0.alt,
        hotkey_step_spec(s, KeyEvent::AltDown, mode).0.ctrl == s.ctrl,
        !hotkey_step_spec(s, KeyEvent::AltUp, mode).0.alt,
        hotkey_step_spec(s, KeyEvent::AltUp, mode).0.ctrl == s.ctrl,
        hotkey_step_spec(s, KeyEvent::Other, mode).0.ctrl == s.ctrl,
        hotkey_step_spec(s, KeyEvent::Other, mode).0.alt == s.alt,
{
}

/// A recording starts exactly when, in push-to-talk mode, Ctrl and Alt become
/// held together while none is under way, and stops exactly when, in that
/// mode, they no longer are while one is.
pub proof fn lemma_start_and_stop_conditions(s: HotkeyState, event: KeyEvent, mode: i32)
    ensures
        ({
            let n = hotkey_step_spec(s, event, mode).0;
            let a = hotkey_step_spec(s, event, mode).1;
            &&& (a == HotkeyActionKind::Start) == (mode == 2 && !s.listening && n.ctrl && n.alt)
            &&& (a == HotkeyActionKind::Stop) == (mode == 2 && s.listening && !(n.ctrl && n.alt))
            &&& n.listening == (if a == HotkeyActionKind::Nothing {
                s.listening
            } else {
                a == HotkeyActionKind::Start
            })
        }),
{
}

/// The listener's state after a run of events, each with the mode it came in.
pub open spec fn hotkey_run_state(s: HotkeyState, inputs: Seq<(KeyEvent, i32)>) -> HotkeyState
    decreases inputs.len(),
{
    if inputs.len() == 0 {
        s
    } else {
        hotkey_run_state(hotkey_step_spec(s, inputs[0].0, inputs[0].1).0, inputs.drop_first())
    }
}

/// The starts and stops a run of events asks for, in order.
pub open spec fn hotkey_run_actions(s: HotkeyState, inputs: Seq<(KeyEvent, i32)>) -> Seq<
    HotkeyActionKind,
>
    decreases inputs.len(),
{
    if inputs.len() == 0 {
        Seq::empty()
    } else {
        let (next, a) = hotkey_step_spec(s, inputs[0].0, inputs[0].1);
        let rest = hotkey_run_actions(next, inputs.drop_first());
        if a == HotkeyActionKind::Nothing {
            rest
        } else {
            seq![a] + rest
        }
    }
}

/// In push-to-talk mode a recording is under way exactly while Ctrl and Alt
/// are both held, whatever came before, once an event has been taken in.
pub proof fn lemma_listening_follows_keys(s: HotkeyState, event: KeyEvent)
    ensures
        hotkey_step_spec(s, event, PUSH_TO_TALK_MODE).0.listening == (hotkey_step_spec(
            s,
            event,
            PUSH_TO_TALK_MODE,
        ).0.ctrl && hotkey_step_spec(s, event, PUSH_TO_TALK_MODE).0.alt),
{
}

/// Outside push-to-talk mode no recording starts or stops; the modifiers are
/// still tracked.
pub proof fn lemma_other_modes_leave_recording(s: HotkeyState, event: KeyEvent, mode: i32)
    requires
        mode != PUSH_TO_TALK_MODE,
    ensures
        hotkey_step_spec(s, event, mode).1 == HotkeyActionKind::Nothing,
        hotkey_step_spec(s, event, mode).0.listening == s.listening,
{
}

/// Starts and stops alternate over any run of events: the first is a start
/// when nothing was recording and a stop when something was, no recording is
/// started twice without a stop between, and at the end a recording is under
/// way exactly when an odd number of them flipped the state.
pub proof fn lemma_starts_and_stops_alternate(s: HotkeyState, inputs: Seq<(KeyEvent, i32)>)
    ensures
        forall|i: int|
            0 <= i < hotkey_run_actions(s, inputs).len() ==> (#[trigger] hotkey_run_actions(
                s,
                inputs,
            )[i] == HotkeyActionKind::Start) == ((i % 2 == 0) == !s.listening),
        forall|i: int|
            0 <= i < hotkey_run_actions(s, inputs).len() ==> #[trigger] hotkey_run_actions(
                s,
                inputs,
            )[i] != HotkeyActionKind::Nothing,
        hotkey_run_state(s, inputs).listening == (s.listening != (hotkey_run_actions(
            s,
            inputs,
        ).len() % 2 == 1)),
    decreases inputs.len(),
{
    if inputs.len() > 0 {
        let (next, a) = hotkey_step_spec(s, inputs[0].0, inputs[0].1);
        lemma_starts_and_stops_alternate(next, inputs.drop_first());
        let rest = hotkey_run_actions(next, inputs.drop_first());
        if a != HotkeyActionKind::Nothing {
            let all = seq![a] + rest;
            assert(hotkey_run_actions(s, inputs) == all);
            assert forall|i: int| 0 <= i < all.len() implies (#[trigger] all[i]
                == HotkeyActionKind::Start) == ((i % 2 == 0) == !s.listening) by {
                if i > 0 {
                    assert(all[i] == rest[i - 1]);
                }
            }
            assert forall|i: int| 0 <= i < all.len() implies #[trigger] all[i]
                != HotkeyActionKind::Nothing by {
                if i > 0 {
                    assert(all[i] == rest[i - 1]);
                }
            }
        }
    }
}

} // verus!
