//! How the window comes to life.

use vstd::prelude::*;

use crate::config;
use crate::config::{ex_style_from_config, Config};
use crate::ids::{
    CORNER, FONT_HEIGHT, HOTKEY_BG_ID, HOTKEY_CLICKTHROUGH_ID, HOTKEY_TOPMOST_ID, KEY_COLOR,
    REFRESH_MS, TIMER_ID, WIN_H, WIN_W,
};
use crate::win32::{
    ANTIALIASED_QUALITY, CLIP_DEFAULT_PRECIS, DEFAULT_CHARSET, FF_MODERN, FIXED_PITCH, FW_NORMAL,
    LWA_COLORKEY, OUT_DEFAULT_PRECIS, SW_SHOWNOACTIVATE, VK_F10, VK_F8, VK_F9, WS_POPUP,
};

verus! {

/// The name of the overlay's window class.
pub const WINDOW_CLASS: &'static str = "overlay_cls";

/// The title of the overlay's window.
pub const WINDOW_TITLE: &'static str = "Overlay Stats";

/// A font to create. A negative height is that of the characters, without the
/// space above them.
#[derive(Clone, Copy, Debug, PartialEq, Eq)]
pub struct FontSpec {
    pub height: i32,
    pub width: i32,
    pub escapement: i32,
    pub orientation: i32,
    pub weight: i32,
    pub italic: u32,
    pub underline: u32,
    pub strike_out: u32,
    pub charset: u32,
    pub out_precision: u32,
    pub clip_precision: u32,
    pub quality: u32,
    pub pitch_and_family: u32,
    pub face: &'static str,
}

/// The font of both lines: Consolas at 15 pixels, anti-aliased for better edges
/// over the transparent colour.
pub open spec fn text_font() -> FontSpec {
    FontSpec {
        height: FONT_HEIGHT,
        width: 0,
        escapement: 0,
        orientation: 0,
        weight: FW_NORMAL,
        italic: 0,
        underline: 0,
        strike_out: 0,
        charset: DEFAULT_CHARSET,
        out_precision: OUT_DEFAULT_PRECIS,
        clip_precision: CLIP_DEFAULT_PRECIS,
        quality: ANTIALIASED_QUALITY,
        pitch_and_family: FIXED_PITCH | FF_MODERN,
        face: "Consolas",
    }
}

/// The font of both lines.
pub fn font_spec() -> (font: FontSpec)
    ensures
        font == text_font(),
{
    FontSpec {
        height: FONT_HEIGHT,
        width: 0,
        escapement: 0,
        orientation: 0,
        weight: FW_NORMAL,
        italic: 0,
        underline: 0,
        strike_out: 0,
        charset: DEFAULT_CHARSET,
        out_precision: OUT_DEFAULT_PRECIS,
        clip_precision: CLIP_DEFAULT_PRECIS,
        quality: ANTIALIASED_QUALITY,
        pitch_and_family: FIXED_PITCH | FF_MODERN,
        face: "Consolas",
    }
}

/// The window to create.
#[derive(Clone, Copy, Debug, PartialEq, Eq)]
pub struct WindowSpec {
    pub class: &'static str,
    pub title: &'static str,
    pub ex_style: u32,
    pub style: u32,
    pub x: i32,
    pub y: i32,
    pub width: i32,
    pub height: i32,
}

/// A step between the creation of the window and its first message.
#[derive(Clone, Copy, Debug, PartialEq, Eq, Structural)]
pub enum SetupStep {
    /// Make one colour of the window transparent. A failure ends the start.
    SetColorKey { color: u32, alpha: u8, flags: u32 },
    RoundCorners { width: i32, height: i32, ellipse: i32 },
    /// Attach the state to the window.
    AttachState,
    AddTrayIcon,
    RegisterHotKey { hotkey: i32, modifiers: u32, key: u32 },
    StartTimer { timer: usize, period_ms: u32 },
    Show { command: i32 },
    Update,
}

/// The window that a configuration asks for: a popup of fixed size at the
/// configured position, in the configured style.
pub open spec fn window_for(config: Config) -> WindowSpec {
    WindowSpec {
        class: WINDOW_CLASS,
        title: WINDOW_TITLE,
        ex_style: config::ex_style(config) as u32,
        style: WS_POPUP,
        x: config.x,
        y: config.y,
        width: WIN_W,
        height: WIN_H,
    }
}

/// The window that a configuration asks for.
pub fn window_spec(config: &Config) -> (window: WindowSpec)
    ensures
        window == window_for(*config),
{
    WindowSpec {
        class: WINDOW_CLASS,
        title: WINDOW_TITLE,
        ex_style: ex_style_from_config(config),
        style: WS_POPUP,
        x: config.x,
        y: config.y,
        width: WIN_W,
        height: WIN_H,
    }
}

/// The steps after the creation of the window.
pub open spec fn setup_steps() -> Seq<SetupStep> {
    seq![
        SetupStep::SetColorKey { color: KEY_COLOR, alpha: 0, flags: LWA_COLORKEY },
        SetupStep::RoundCorners { width: WIN_W, height: WIN_H, ellipse: CORNER },
        SetupStep::AttachState,
        SetupStep::AddTrayIcon,
        SetupStep::RegisterHotKey { hotkey: HOTKEY_BG_ID, modifiers: 0, key: VK_F8 },
        SetupStep::RegisterHotKey { hotkey: HOTKEY_TOPMOST_ID, modifiers: 0, key: VK_F9 },
        SetupStep::RegisterHotKey { hotkey: HOTKEY_CLICKTHROUGH_ID, modifiers: 0, key: VK_F10 },
        SetupStep::StartTimer { timer: TIMER_ID, period_ms: REFRESH_MS },
        SetupStep::Show { command: SW_SHOWNOACTIVATE },
        SetupStep::Update,
    ]
}

/// The steps to take, in order, once the window exists.
pub fn window_setup() -> (steps: Vec<SetupStep>)
    ensures
        steps@ == setup_steps(),
{
    vec![
        SetupStep::SetColorKey { color: KEY_COLOR, alpha: 0, flags: LWA_COLORKEY },
        SetupStep::RoundCorners { width: WIN_W, height: WIN_H, ellipse: CORNER },
        SetupStep::AttachState,
        SetupStep::AddTrayIcon,
        SetupStep::RegisterHotKey { hotkey: HOTKEY_BG_ID, modifiers: 0, key: VK_F8 },
        SetupStep::RegisterHotKey { hotkey: HOTKEY_TOPMOST_ID, modifiers: 0, key: VK_F9 },
        SetupStep::RegisterHotKey { hotkey: HOTKEY_CLICKTHROUGH_ID, modifiers: 0, key: VK_F10 },
        SetupStep::StartTimer { timer: TIMER_ID, period_ms: REFRESH_MS },
        SetupStep::Show { command: SW_SHOWNOACTIVATE },
        SetupStep::Update,
    ]
}

/// The state is attached before anything is set up that sends messages for it:
/// the tray icon, the hotkeys and the timer.
pub proof fn law_state_is_attached_first(attach: int, other: int)
    requires
        0 <= attach < setup_steps().len(),
        0 <= other < setup_steps().len(),
        setup_steps()[attach] is AttachState,
        setup_steps()[other] is AddTrayIcon || setup_steps()[other] is RegisterHotKey
            || setup_steps()[other] is StartTimer,
    ensures
        attach < other,
{
}

/// Each hotkey is registered once, under its own key and without a modifier.
pub proof fn law_keys(i: int, j: int)
    requires
        0 <= i < j < setup_steps().len(),
        setup_steps()[i] is RegisterHotKey,
        setup_steps()[j] is RegisterHotKey,
    ensures
        setup_steps()[i] matches SetupStep::RegisterHotKey { hotkey: a, modifiers: p, key: f } && (
        setup_steps()[j] matches SetupStep::RegisterHotKey { hotkey: b, modifiers: q, key: g } && {
            &&& a != b
            &&& f != g
            &&& p == 0
            &&& q == 0
        }),
{
}

/// A tick of the timer comes every second, and the window is shown last of all,
/// without taking the focus.
pub proof fn law_window_is_shown_when_ready(i: int)
    requires
        0 <= i < setup_steps().len(),
    ensures
        setup_steps()[i] matches SetupStep::StartTimer { period_ms, .. } ==> period_ms == 1000,
        setup_steps()[i] matches SetupStep::Show { command } ==> command == SW_SHOWNOACTIVATE && i
            == setup_steps().len() - 2,
        setup_steps()[i] is Update ==> i == setup_steps().len() - 1,
{
}

} // verus!
