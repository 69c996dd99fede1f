//! Desktop integration: key checks against the services, the theme query,
//! window placement and the tray icon.
use vstd::prelude::*;
use crate::text::{decode_lossy, join2, lossy_text, trim, trim_spec};

verus! {

/// An HTTP status code in the success class, 200 to 299.
pub open spec fn status_success_spec(code: u16) -> bool {
    200 <= code <= 299
}

/// Whether `code` is a success status, as `StatusCode::is_success` says.
pub fn is_success_status(code: u16) -> (b: bool)
    ensures
        b == status_success_spec(code),
        b == (200 <= code && code <= 299),
{
    200 <= code && code <= 299
}

/// The address that lists the models a Gemini key may use.
pub fn gemini_models_url(key: &str) -> (u: String)
    ensures
        u@ == "https://generativelanguage.googleapis.com/v1beta/models?key="@ + key@,
{
    join2("https://generativelanguage.googleapis.com/v1beta/models?key=", key)
}

/// The address that describes the user an ElevenLabs key belongs to.
pub fn elevenlabs_user_url() -> (u: String)
    ensures
        u@ == "https://api.elevenlabs.io/v1/user"@,
{
    String::from_str("https://api.elevenlabs.io/v1/user")
}

/// The header that carries an ElevenLabs key.
pub fn elevenlabs_key_header() -> (h: String)
    ensures
        h@ == "xi-api-key"@,
{
    String::from_str("xi-api-key")
}

/// Whether a key check passed, given the status of its request, or `None`
/// when the request failed: only a success status passes.
pub fn key_accepted(status: Option<u16>) -> (b: bool)
    ensures
        b == (status matches Some(code) && status_success_spec(code)),
        b == (status matches Some(code) && 200 <= code <= 299),
{
    match status {
        Some(code) => is_success_status(code),
        None => false,
    }
}

/// The PowerShell script that reads whether apps use the light theme.
pub open spec fn theme_query_spec() -> Seq<char> {
    "Get-ItemPropertyValue -Path 'HKCU:\\Software\\Microsoft\\Windows\\CurrentVersion\\Themes\\Personalize' -Name AppsUseLightTheme -ErrorAction SilentlyContinue"@
}

/// The arguments handed to `powershell` to read the theme setting.
pub fn theme_query_args() -> (r: Vec<String>)
    ensures
        r@.len() == 2,
        r@[0]@ == "-Command"@,
        r@[1]@ == theme_query_spec(),
{
    let mut r: Vec<String> = Vec::new();
    r.push(String::from_str("-Command"));
    r.push(
        String::from_str(
            "Get-ItemPropertyValue -Path 'HKCU:\\Software\\Microsoft\\Windows\\CurrentVersion\\Themes\\Personalize' -Name AppsUseLightTheme -ErrorAction SilentlyContinue",
        ),
    );
    r
}

/// Whether the theme query's decoded output asks for the dark theme: anything
/// but a trimmed `1` does.
pub fn dark_theme_from_text(text: &str) -> (dark: bool)
    ensures
        dark == (trim_spec(text@) != "1"@),
{
    let t = trim(text);
    !(t == String::from_str("1"))
}

/// Whether the dark theme applies, given the raw output of the theme query,
/// or `None` where the query could not run: only a query answering `1`
/// selects the light theme.
pub fn detect_dark_theme(output: &Option<Vec<u8>>) -> (dark: bool)
    ensures
        dark == !(output matches Some(bytes) && trim_spec(lossy_text(bytes@)) == "1"@),
{
    match output {
        Some(bytes) => {
            let text = decode_lossy(bytes.as_slice());
            dark_theme_from_text(text.as_str())
        },
        None => true,
    }
}

/// Rust's division of `a` by 2, which rounds toward zero.
pub open spec fn half_toward_zero(a: int) -> int {
    if a >= 0 {
        a / 2
    } else {
        -((-a) / 2)
    }
}

/// The left edge that centres a window `window_width` wide on a screen
/// `screen_width` wide.
pub fn centered_x(screen_width: i32, window_width: i32) -> (x: i32)
    requires
        i32::MIN <= screen_width - window_width <= i32::MAX,
    ensures
        x == half_toward_zero(screen_width - window_width),
{
    (screen_width - window_width) / 2
}

/// How many times the floating bar's window is looked for.
pub const PLACEMENT_ATTEMPTS: u32 = 10;

/// The pause between two looks for the window, in milliseconds.
pub const PLACEMENT_PAUSE_MS: u64 = 100;

/// The floating bar's width.
pub const HUD_WIDTH: i32 = 280;

/// The floating bar's height.
pub const HUD_HEIGHT: i32 = 70;

/// The floating bar's distance from the top of the screen.
pub const HUD_TOP: i32 = 16;

/// The title the floating bar's window is found by.
pub fn hud_window_title() -> (t: String)
    ensures
        t@ == "F.R.I.D.A.Y. HUD"@,
{
    String::from_str("F.R.I.D.A.Y. HUD")
}

/// What follows one look for the floating bar's window.
#[derive(PartialEq, Eq, Structural)]
pub enum PlacementAction {
    /// Move the window to the top middle of the screen, and stop.
    Place,
    /// Pause, then look again.
    PauseAndRetry,
    /// Pause, then give up.
    PauseAndStop,
}

/// What follows look number `attempt` (from 0) for the window, which found it
/// or not.
pub fn placement_step(attempt: u32, found: bool) -> (a: PlacementAction)
    requires
        attempt < PLACEMENT_ATTEMPTS,
    ensures
        found ==> a == PlacementAction::Place,
        !found && attempt + 1 < PLACEMENT_ATTEMPTS ==> a == PlacementAction::PauseAndRetry,
        !found && attempt + 1 == PLACEMENT_ATTEMPTS ==> a == PlacementAction::PauseAndStop,
{
    if found {
        PlacementAction::Place
    } else if attempt + 1 < PLACEMENT_ATTEMPTS {
        PlacementAction::PauseAndRetry
    } else {
        PlacementAction::PauseAndStop
    }
}

/// The tray icon's pixels: two by two, all one cyan, as RGBA bytes.
pub open spec fn tray_icon_spec() -> Seq<u8> {
    seq![0u8, 210, 255, 255, 0, 210, 255, 255, 0, 210, 255, 255, 0, 210, 255, 255]
}

/// The tray icon's side, in pixels.
pub const TRAY_ICON_SIZE: u32 = 2;

/// The tray icon's RGBA pixels.
pub fn tray_icon_rgba() -> (p: Vec<u8>)
    ensures
        p@ == tray_icon_spec(),
        p@.len() == TRAY_ICON_SIZE * TRAY_ICON_SIZE * 4,
{
    let mut p: Vec<u8> = Vec::new();
    let mut i: usize = 0;
    while i < 4
        invariant
            i <= 4,
            p@ == tray_icon_spec().subrange(0, 4 * i as int),
        decreases 4 - i,
    {
        p.push(0);
        p.push(210);
        p.push(255);
        p.push(255);
        assert(p@ =~= tray_icon_spec().subrange(0, 4 * (i + 1) as int));
        i = i + 1;
    }
    p
}

/// The tray icon's tooltip.
pub fn tray_tooltip() -> (t: String)
    ensures
        t@ == "F.R.I.D.A.Y. Core"@,
{
    String::from_str("F.R.I.D.A.Y. Core")
}

/// The label of the tray menu's quit entry.
pub fn quit_label() -> (t: String)
    ensures
        t@ == "Quit F.R.I.D.A.Y."@,
{
    String::from_str("Quit F.R.I.D.A.Y.")
}

/// Whether a tray menu event with id `event_id` quits the assistant.
pub fn menu_event_quits(event_id: &String, quit_id: &String) -> (b: bool)
    ensures
        b == (event_id@ == quit_id@),
{
    *event_id == *quit_id
}

} // verus!
