//! The settings that survive a restart, and what they mean for the window.

use vstd::prelude::*;

use crate::win32::{
    HWND_NOTOPMOST, HWND_TOPMOST, WS_EX_LAYERED, WS_EX_TOOLWINDOW, WS_EX_TOPMOST,
    WS_EX_TRANSPARENT,
};

verus! {

/// The name of the settings file.
pub const CONFIG_FILE: &'static str = "config.json";

/// The persistent settings.
#[derive(Clone, Copy, Debug, PartialEq, Eq, Structural)]
pub struct Config {
    /// Left edge of the window, in screen coordinates.
    pub x: i32,
    /// Top edge of the window, in screen coordinates.
    pub y: i32,
    /// Whether mouse input falls through to the window below.
    pub click_through: bool,
    /// Whether the window stays above ordinary windows.
    pub always_on_top: bool,
    /// Whether the panel behind the text is painted.
    pub show_background: bool,
}

/// The settings of a first start.
pub open spec fn default_config() -> Config {
    Config { x: 100, y: 20, click_through: true, always_on_top: false, show_background: false }
}

impl Default for Config {
    fn default() -> (config: Self)
        ensures
            config == default_config(),
    {
        Self { x: 100, y: 20, click_through: true, always_on_top: false, show_background: false }
    }
}

/// The settings that a start takes from what was stored.
pub open spec fn loaded(stored: Option<Config>) -> Config {
    match stored {
        Some(found) => found,
        None => default_config(),
    }
}

/// The settings to start with, given what was found in the settings file:
/// nothing where it is missing, unreadable or malformed.
pub fn load_config(stored: Option<Config>) -> (config: Config)
    ensures
        config == loaded(stored),
{
    match stored {
        Some(found) => found,
        None => Config::default(),
    }
}

/// The path of the settings file.
pub open spec fn settings_path<P>(beside_executable: Option<P>, relative: P) -> P {
    match beside_executable {
        Some(found) => found,
        None => relative,
    }
}

/// Where the settings file is: next to the executable, or under the relative
/// path where the executable's place is not known.
pub fn config_path<P>(beside_executable: Option<P>, relative: P) -> (path: P)
    ensures
        path == settings_path(beside_executable, relative),
{
    match beside_executable {
        Some(found) => found,
        None => relative,
    }
}

/// The place in the stacking order that `always_on_top` asks for.
pub open spec fn stacking_place(always_on_top: bool) -> isize {
    if always_on_top {
        HWND_TOPMOST
    } else {
        HWND_NOTOPMOST
    }
}

/// The handle to place the window behind.
pub fn topmost_hwnd(always_on_top: bool) -> (place: isize)
    ensures
        place == stacking_place(always_on_top),
{
    if always_on_top {
        HWND_TOPMOST
    } else {
        HWND_NOTOPMOST
    }
}

/// The extended window style that a configuration asks for. Each style is a bit
/// of its own, so the style is their sum.
pub open spec fn ex_style(config: Config) -> int {
    WS_EX_LAYERED + WS_EX_TOOLWINDOW + (if config.click_through {
        WS_EX_TRANSPARENT as int
    } else {
        0
    }) + (if config.always_on_top {
        WS_EX_TOPMOST as int
    } else {
        0
    })
}

/// The extended window style. The tool-window style keeps the overlay out of
/// the taskbar and the task switcher.
pub fn ex_style_from_config(config: &Config) -> (style: u32)
    ensures
        style == ex_style(*config),
{
    assert(0x8_0000u32 | 0x80 == 0x8_0080 && 0x8_0080u32 | 0x20 == 0x8_00A0 && 0x8_0080u32 | 0x8
        == 0x8_0088 && 0x8_00A0u32 | 0x8 == 0x8_00A8) by (bit_vector);
    let mut style: u32 = WS_EX_LAYERED | WS_EX_TOOLWINDOW;
    if config.click_through {
        style = style | WS_EX_TRANSPARENT;
    }
    if config.always_on_top {
        style = style | WS_EX_TOPMOST;
    }
    style
}

/// The style shows each setting in its own bit, and always has the layered and
/// the tool-window bit.
pub proof fn law_style_shows_settings(config: Config, style: u32)
    requires
        style == ex_style(config),
    ensures
        style & WS_EX_LAYERED != 0,
        style & WS_EX_TOOLWINDOW != 0,
        (style & WS_EX_TRANSPARENT != 0) == config.click_through,
        (style & WS_EX_TOPMOST != 0) == config.always_on_top,
{
    assert(style == 0x8_0080 || style == 0x8_00A0 || style == 0x8_0088 || style == 0x8_00A8);
    assert(style & 0x8_0000 != 0 && style & 0x80 != 0 && ((style & 0x20 != 0) == (style == 0x8_00A0
        || style == 0x8_00A8)) && ((style & 0x8 != 0) == (style == 0x8_0088 || style == 0x8_00A8)))
        by (bit_vector)
        requires
            style == 0x8_0080 || style == 0x8_00A0 || style == 0x8_0088 || style == 0x8_00A8,
    ;
}

/// No bit of the style stands for anything else.
pub proof fn law_style_has_no_other_bits(config: Config, style: u32)
    requires
        style == ex_style(config),
    ensures
        style & !(WS_EX_LAYERED | WS_EX_TOOLWINDOW | WS_EX_TRANSPARENT | WS_EX_TOPMOST) == 0,
{
    assert(style == 0x8_0080 || style == 0x8_00A0 || style == 0x8_0088 || style == 0x8_00A8);
    assert(style & !(0x8_0000u32 | 0x80 | 0x20 | 0x8) == 0) by (bit_vector)
        requires
            style == 0x8_0080 || style == 0x8_00A0 || style == 0x8_0088 || style == 0x8_00A8,
    ;
}

/// The stacking order follows the setting, in both directions.
pub proof fn law_place_shows_setting(always_on_top: bool)
    ensures
        (stacking_place(always_on_top) == HWND_TOPMOST) == always_on_top,
        (stacking_place(always_on_top) == HWND_NOTOPMOST) == !always_on_top,
{
}

/// What was stored is loaded as it is, and nothing but the defaults stands in for
/// what is missing: the place (100, 20), click-through on, the rest off.
pub proof fn law_stored_settings_are_loaded(stored: Config)
    ensures
        loaded(Some(stored)) == stored,
        loaded(None).x == 100,
        loaded(None).y == 20,
        loaded(None).click_through,
        !loaded(None).always_on_top,
        !loaded(None).show_background,
{
}

/// The settings stand next to the executable wherever its place is known.
pub proof fn law_settings_stand_beside_the_executable<P>(beside: P, relative: P)
    ensures
        settings_path(Some(beside), relative) == beside,
        settings_path(None, relative) == relative,
{
}

} // verus!
