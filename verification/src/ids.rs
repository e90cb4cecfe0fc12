//! The overlay's own numbers: identifiers, sizes and colours.

use vstd::prelude::*;

use crate::win32::WM_APP;

verus! {

pub const HOTKEY_BG_ID: i32 = 1;

pub const HOTKEY_TOPMOST_ID: i32 = 2;

pub const HOTKEY_CLICKTHROUGH_ID: i32 = 3;

pub const TIMER_ID: usize = 1;

/// Time between two measurements, in milliseconds.
pub const REFRESH_MS: u32 = 1_000;

pub const WIN_W: i32 = 272;

pub const WIN_H: i32 = 34;

/// Width and height of the ellipse that rounds the window's corners.
pub const CORNER: i32 = 10;

/// The message by which the tray icon reports mouse events.
pub const WM_TRAYICON: u32 = WM_APP + 1;

pub const TRAY_ICON_ID: u32 = 1;

pub const TRAY_MENU_SETTINGS_ID: usize = 1001;

pub const TRAY_MENU_QUIT_ID: usize = 1002;

// Colours are written 0x00BBGGRR: red is the lowest byte.

/// Pure black, which the window system makes transparent.
pub const KEY_COLOR: u32 = 0x0000_0000;

/// The panel behind the text.
pub const BG_COLOR: u32 = 0x001E_1E1E;

/// Green.
pub const CPU_COLOR: u32 = 0x0000_FF00;

/// Amber.
pub const RAM_COLOR: u32 = 0x0000_A5FF;

/// Height of the characters, marked as such by its sign.
pub const FONT_HEIGHT: i32 = -15;

/// Left edge of the CPU line.
pub const TEXT_X: i32 = 10;

/// Upper edge of both lines.
pub const TEXT_Y: i32 = 9;

/// Space between the CPU line and the RAM line.
pub const TEXT_GAP: i32 = 18;

} // verus!
