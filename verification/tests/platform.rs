//! The numbers of the window system agree with its bindings.

use overlay_stats::win32;
use windows::Win32::Graphics::Gdi as gdi;
use windows::Win32::UI::Input::KeyboardAndMouse as keys;
use windows::Win32::UI::Shell as shell;
use windows::Win32::UI::WindowsAndMessaging as wm;

#[test]
fn message_numbers_agree() {
    assert_eq!(win32::WM_DESTROY, wm::WM_DESTROY);
    assert_eq!(win32::WM_PAINT, wm::WM_PAINT);
    assert_eq!(win32::WM_ERASEBKGND, wm::WM_ERASEBKGND);
    assert_eq!(win32::WM_CONTEXTMENU, wm::WM_CONTEXTMENU);
    assert_eq!(win32::WM_COMMAND, wm::WM_COMMAND);
    assert_eq!(win32::WM_TIMER, wm::WM_TIMER);
    assert_eq!(win32::WM_MOUSEMOVE, wm::WM_MOUSEMOVE);
    assert_eq!(win32::WM_LBUTTONDOWN, wm::WM_LBUTTONDOWN);
    assert_eq!(win32::WM_LBUTTONUP, wm::WM_LBUTTONUP);
    assert_eq!(win32::WM_RBUTTONUP, wm::WM_RBUTTONUP);
    assert_eq!(win32::WM_HOTKEY, wm::WM_HOTKEY);
    assert_eq!(win32::WM_APP, wm::WM_APP);
}

#[test]
fn style_and_placement_numbers_agree() {
    assert_eq!(win32::WS_POPUP, wm::WS_POPUP.0);
    assert_eq!(win32::WS_EX_TOPMOST, wm::WS_EX_TOPMOST.0);
    assert_eq!(win32::WS_EX_TRANSPARENT, wm::WS_EX_TRANSPARENT.0);
    assert_eq!(win32::WS_EX_TOOLWINDOW, wm::WS_EX_TOOLWINDOW.0);
    assert_eq!(win32::WS_EX_LAYERED, wm::WS_EX_LAYERED.0);
    assert_eq!(win32::HWND_TOPMOST, wm::HWND_TOPMOST.0);
    assert_eq!(win32::HWND_NOTOPMOST, wm::HWND_NOTOPMOST.0);
    assert_eq!(win32::SWP_NOSIZE, wm::SWP_NOSIZE.0);
    assert_eq!(win32::SWP_NOMOVE, wm::SWP_NOMOVE.0);
    assert_eq!(win32::SWP_NOACTIVATE, wm::SWP_NOACTIVATE.0);
    assert_eq!(win32::SWP_FRAMECHANGED, wm::SWP_FRAMECHANGED.0);
    assert_eq!(win32::TPM_RIGHTBUTTON, wm::TPM_RIGHTBUTTON.0);
}

#[test]
fn tray_and_key_numbers_agree() {
    assert_eq!(win32::NIM_ADD, shell::NIM_ADD.0);
    assert_eq!(win32::NIM_DELETE, shell::NIM_DELETE.0);
    assert_eq!(win32::NIM_SETVERSION, shell::NIM_SETVERSION.0);
    assert_eq!(win32::NIF_MESSAGE, shell::NIF_MESSAGE.0);
    assert_eq!(win32::NIF_ICON, shell::NIF_ICON.0);
    assert_eq!(win32::NIF_TIP, shell::NIF_TIP.0);
    assert_eq!(win32::NOTIFYICON_VERSION_4, shell::NOTIFYICON_VERSION_4);
    assert_eq!(win32::VK_F8, keys::VK_F8.0 as u32);
    assert_eq!(win32::VK_F9, keys::VK_F9.0 as u32);
    assert_eq!(win32::VK_F10, keys::VK_F10.0 as u32);
}

#[test]
fn image_box_and_show_numbers_agree() {
    assert_eq!(win32::IMAGE_ICON, wm::IMAGE_ICON.0);
    assert_eq!(win32::LR_LOADFROMFILE, wm::LR_LOADFROMFILE.0);
    assert_eq!(win32::LR_DEFAULTSIZE, wm::LR_DEFAULTSIZE.0);
    assert_eq!(win32::LR_SHARED, wm::LR_SHARED.0);
    assert_eq!(win32::IDI_APPLICATION, wm::IDI_APPLICATION.0 as usize);
    assert_eq!(win32::MB_OK, wm::MB_OK.0);
    assert_eq!(win32::MB_ICONINFORMATION, wm::MB_ICONINFORMATION.0);
    assert_eq!(win32::MF_STRING, wm::MF_STRING.0);
    assert_eq!(win32::LWA_COLORKEY, wm::LWA_COLORKEY.0);
    assert_eq!(win32::SW_SHOWNOACTIVATE, wm::SW_SHOWNOACTIVATE.0);
}

#[test]
fn font_numbers_agree() {
    assert_eq!(win32::FW_NORMAL, gdi::FW_NORMAL.0 as i32);
    assert_eq!(win32::DEFAULT_CHARSET, gdi::DEFAULT_CHARSET.0 as u32);
    assert_eq!(win32::OUT_DEFAULT_PRECIS, gdi::OUT_DEFAULT_PRECIS.0 as u32);
    assert_eq!(win32::CLIP_DEFAULT_PRECIS, gdi::CLIP_DEFAULT_PRECIS.0 as u32);
    assert_eq!(win32::ANTIALIASED_QUALITY, gdi::ANTIALIASED_QUALITY.0 as u32);
    assert_eq!(win32::FIXED_PITCH, gdi::FIXED_PITCH.0 as u32);
    assert_eq!(win32::FF_MODERN, gdi::FF_MODERN.0 as u32);
}

#[test]
fn tip_buffer_has_the_size_of_the_binding() {
    let data = shell::NOTIFYICONDATAW::default();
    let tip = data.szTip;
    assert_eq!(tip.len(), overlay_stats::tray::TIP_UNITS);
}
