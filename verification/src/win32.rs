//! Numeric values of the window system that the overlay's decisions speak of.

use vstd::prelude::*;

verus! {

// Window messages.

pub const WM_DESTROY: u32 = 0x0002;

pub const WM_PAINT: u32 = 0x000F;

pub const WM_ERASEBKGND: u32 = 0x0014;

pub const WM_CONTEXTMENU: u32 = 0x007B;

pub const WM_COMMAND: u32 = 0x0111;

pub const WM_TIMER: u32 = 0x0113;

pub const WM_MOUSEMOVE: u32 = 0x0200;

pub const WM_LBUTTONDOWN: u32 = 0x0201;

pub const WM_LBUTTONUP: u32 = 0x0202;

pub const WM_RBUTTONUP: u32 = 0x0205;

pub const WM_HOTKEY: u32 = 0x0312;

/// First of the message numbers that an application may define for itself.
pub const WM_APP: u32 = 0x8000;

// Window styles.

pub const WS_POPUP: u32 = 0x8000_0000;

pub const WS_EX_TOPMOST: u32 = 0x0000_0008;

pub const WS_EX_TRANSPARENT: u32 = 0x0000_0020;

pub const WS_EX_TOOLWINDOW: u32 = 0x0000_0080;

pub const WS_EX_LAYERED: u32 = 0x0008_0000;

// Places in the stacking order that stand where a window handle does.

pub const HWND_TOPMOST: isize = -1;

pub const HWND_NOTOPMOST: isize = -2;

// Flags of a window placement.

pub const SWP_NOSIZE: u32 = 0x0001;

pub const SWP_NOMOVE: u32 = 0x0002;

pub const SWP_NOACTIVATE: u32 = 0x0010;

pub const SWP_FRAMECHANGED: u32 = 0x0020;

// Layered windows and how a window is shown.

pub const LWA_COLORKEY: u32 = 0x0001;

pub const SW_SHOWNOACTIVATE: i32 = 4;

// Message boxes.

pub const MB_OK: u32 = 0x0000;

pub const MB_ICONINFORMATION: u32 = 0x0040;

// Images.

pub const IMAGE_ICON: u32 = 1;

pub const LR_LOADFROMFILE: u32 = 0x0010;

pub const LR_DEFAULTSIZE: u32 = 0x0040;

pub const LR_SHARED: u32 = 0x8000;

/// The resource of the default application icon.
pub const IDI_APPLICATION: usize = 32512;

// Fonts.

pub const FW_NORMAL: i32 = 400;

pub const DEFAULT_CHARSET: u32 = 1;

pub const OUT_DEFAULT_PRECIS: u32 = 0;

pub const CLIP_DEFAULT_PRECIS: u32 = 0;

pub const ANTIALIASED_QUALITY: u32 = 4;

pub const FIXED_PITCH: u32 = 1;

pub const FF_MODERN: u32 = 48;

// Menus.

pub const MF_STRING: u32 = 0x0000;

pub const TPM_RIGHTBUTTON: u32 = 0x0002;

// Tray notifications.

pub const NIM_ADD: u32 = 0;

pub const NIM_DELETE: u32 = 2;

pub const NIM_SETVERSION: u32 = 4;

pub const NIF_MESSAGE: u32 = 1;

pub const NIF_ICON: u32 = 2;

pub const NIF_TIP: u32 = 4;

pub const NOTIFYICON_VERSION_4: u32 = 4;

// Virtual key codes.

pub const VK_F8: u32 = 0x77;

pub const VK_F9: u32 = 0x78;

pub const VK_F10: u32 = 0x79;

} // verus!
