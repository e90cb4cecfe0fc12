//! The tray icon and its menu.

use vstd::prelude::*;

use crate::ids::{TRAY_ICON_ID, TRAY_MENU_QUIT_ID, TRAY_MENU_SETTINGS_ID, WM_TRAYICON};
use crate::wide;
use crate::wide::copy_wide_into;
use crate::win32::{
    MF_STRING, NIF_ICON, NIF_MESSAGE, NIF_TIP, NIM_ADD, NIM_DELETE, NIM_SETVERSION,
    NOTIFYICON_VERSION_4,
};

verus! {

/// Shown while the mouse rests on the tray icon.
pub const TRAY_TIP: &'static str = "Overlay Stats";

/// Units of the buffer that holds the tip.
pub const TIP_UNITS: usize = 128;

/// An entry of the tray menu.
#[derive(Clone, Copy, Debug, PartialEq, Eq)]
pub struct MenuItem {
    pub flags: u32,
    pub id: usize,
    pub label: &'static str,
}

/// The tray menu: its handle, 0 where there is none, and the entries to append.
#[derive(Debug, PartialEq, Eq)]
pub struct TrayMenu {
    pub handle: isize,
    pub items: Vec<MenuItem>,
}

/// The entries of the tray menu, from top to bottom.
pub open spec fn menu_items() -> Seq<MenuItem> {
    seq![
        MenuItem { flags: MF_STRING, id: TRAY_MENU_SETTINGS_ID, label: "Settings" },
        MenuItem { flags: MF_STRING, id: TRAY_MENU_QUIT_ID, label: "Quit" },
    ]
}

/// The handle and the entries of the tray menu, given the empty popup menu.
pub open spec fn menu_for(popup: Option<isize>) -> (isize, Seq<MenuItem>) {
    match popup {
        Some(handle) => (handle, menu_items()),
        None => (0, seq![]),
    }
}

/// The tray menu, given the empty popup menu that could be created.
pub fn create_tray_menu(popup: Option<isize>) -> (menu: TrayMenu)
    ensures
        match popup {
            Some(handle) => menu.handle == handle && menu.items@ == menu_items(),
            None => menu.handle == 0 && menu.items@ == Seq::<MenuItem>::empty(),
        },
        (menu.handle, menu.items@) == menu_for(popup),
{
    match popup {
        Some(handle) => {
            let items: Vec<MenuItem> = vec![
                MenuItem { flags: MF_STRING, id: TRAY_MENU_SETTINGS_ID, label: "Settings" },
                MenuItem { flags: MF_STRING, id: TRAY_MENU_QUIT_ID, label: "Quit" },
            ];
            TrayMenu { handle, items }
        },
        None => TrayMenu { handle: 0, items: vec![] },
    }
}

/// Description of a tray icon. What a notification does not use is zero.
#[derive(Clone, Copy, Debug, PartialEq, Eq)]
pub struct NotifyIconData {
    pub hwnd: isize,
    pub id: u32,
    pub flags: u32,
    pub callback_message: u32,
    pub icon: isize,
    pub tip: [u16; TIP_UNITS],
    pub version: u32,
}

/// A tray icon's description, with its tip as a sequence.
#[verifier::ext_equal]
pub struct NotifyIconView {
    pub hwnd: isize,
    pub id: u32,
    pub flags: u32,
    pub callback_message: u32,
    pub icon: isize,
    pub tip: Seq<u16>,
    pub version: u32,
}

impl View for NotifyIconData {
    type V = NotifyIconView;

    open spec fn view(&self) -> NotifyIconView {
        NotifyIconView {
            hwnd: self.hwnd,
            id: self.id,
            flags: self.flags,
            callback_message: self.callback_message,
            icon: self.icon,
            tip: self.tip@,
            version: self.version,
        }
    }
}

/// One call to the notification area.
#[derive(Clone, Copy, Debug, PartialEq, Eq)]
pub struct NotifyCall {
    pub message: u32,
    pub data: NotifyIconData,
}

/// A tip buffer without text.
pub open spec fn blank_tip() -> Seq<u16> {
    Seq::new(TIP_UNITS as nat, |i: int| 0u16)
}

/// The description that names the overlay's icon in the tray of `hwnd` and says
/// nothing more.
pub open spec fn bare_icon(hwnd: isize) -> NotifyIconView {
    NotifyIconView {
        hwnd,
        id: TRAY_ICON_ID,
        flags: 0,
        callback_message: 0,
        icon: 0,
        tip: blank_tip(),
        version: 0,
    }
}

/// The full description of the overlay's icon.
pub open spec fn full_icon(hwnd: isize, icon: isize) -> NotifyIconView {
    NotifyIconView {
        flags: NIF_MESSAGE | NIF_ICON | NIF_TIP,
        callback_message: WM_TRAYICON,
        icon,
        tip: wide::terminated_copy(blank_tip(), TRAY_TIP@),
        ..bare_icon(hwnd)
    }
}

/// The calls that add the icon, in their order.
pub open spec fn adding_calls(hwnd: isize, icon: isize) -> Seq<(u32, NotifyIconView)> {
    seq![
        (NIM_ADD, full_icon(hwnd, icon)),
        (NIM_SETVERSION, NotifyIconView {
            version: NOTIFYICON_VERSION_4,
            ..full_icon(hwnd, icon)
        }),
    ]
}

/// The call that removes the icon.
pub open spec fn removing_call(hwnd: isize) -> (u32, NotifyIconView) {
    (NIM_DELETE, bare_icon(hwnd))
}

/// A description that only names the icon.
fn named_icon(hwnd: isize) -> (data: NotifyIconData)
    ensures
        data@ == bare_icon(hwnd),
{
    NotifyIconData {
        hwnd,
        id: TRAY_ICON_ID,
        flags: 0,
        callback_message: 0,
        icon: 0,
        tip: [0u16;TIP_UNITS],
        version: 0,
    }
}

/// The calls that add the icon: the first adds it, the second asks for the
/// behaviour of the current version of the notification area.
pub fn add_tray_icon(hwnd: isize, icon: isize) -> (calls: (NotifyCall, NotifyCall))
    ensures
        calls.0.message == NIM_ADD,
        calls.0.data@ == full_icon(hwnd, icon),
        calls.1.message == NIM_SETVERSION,
        calls.1.data@ == (NotifyIconView {
            version: NOTIFYICON_VERSION_4,
            ..full_icon(hwnd, icon)
        }),
        seq![(calls.0.message, calls.0.data@), (calls.1.message, calls.1.data@)] == adding_calls(
            hwnd,
            icon,
        ),
{
    let mut data: NotifyIconData = named_icon(hwnd);
    data.flags = NIF_MESSAGE | NIF_ICON | NIF_TIP;
    data.callback_message = WM_TRAYICON;
    data.icon = icon;
    copy_wide_into(&mut data.tip, TRAY_TIP);
    let added: NotifyCall = NotifyCall { message: NIM_ADD, data };
    data.version = NOTIFYICON_VERSION_4;
    (added, NotifyCall { message: NIM_SETVERSION, data })
}

/// The call that removes the icon.
pub fn remove_tray_icon(hwnd: isize) -> (call: NotifyCall)
    ensures
        call.message == NIM_DELETE,
        call.data@ == bare_icon(hwnd),
        (call.message, call.data@) == removing_call(hwnd),
{
    NotifyCall { message: NIM_DELETE, data: named_icon(hwnd) }
}

/// The icon that is removed from a window's tray is the one that was added.
pub proof fn law_removal_names_the_added_icon(hwnd: isize, icon: isize)
    ensures
        bare_icon(hwnd).hwnd == full_icon(hwnd, icon).hwnd,
        bare_icon(hwnd).id == full_icon(hwnd, icon).id,
{
}

/// The description that adds the icon names the window and the icon, asks for
/// notifications by the overlay's own message, and carries a tip that reads as
/// the overlay's name.
pub proof fn law_added_icon(hwnd: isize, icon: isize)
    ensures
        ({
            let added = full_icon(hwnd, icon);
            &&& added.hwnd == hwnd
            &&& added.id == 1
            &&& added.flags == 7
            &&& added.callback_message == 0x8001
            &&& added.icon == icon
            &&& added.version == 0
            &&& added.tip.len() == 128
            &&& wide::until_zero(added.tip) == wide::utf16("Overlay Stats"@)
        }),
{
    reveal_strlit("Overlay Stats");
    assert(1u32 | 2 | 4 == 7) by (bit_vector);
    wide::lemma_units_per_character(TRAY_TIP@);
    assert(!TRAY_TIP@.contains('\0'));
    wide::law_copy_is_read_back(blank_tip(), TRAY_TIP@);
    wide::law_copy_is_terminated(blank_tip(), TRAY_TIP@);
}

/// The description that removes the icon says which one, and nothing else.
pub proof fn law_removed_icon(hwnd: isize, i: int)
    requires
        0 <= i < 128,
    ensures
        ({
            let removed = bare_icon(hwnd);
            &&& removed.hwnd == hwnd
            &&& removed.id == 1
            &&& removed.flags == 0
            &&& removed.callback_message == 0
            &&& removed.icon == 0
            &&& removed.version == 0
            &&& removed.tip.len() == 128
            &&& removed.tip[i] == 0
        }),
{
}

/// A description is seen with every one of its fields.
pub proof fn law_view_shows_the_description(data: NotifyIconData)
    ensures
        data@.hwnd == data.hwnd,
        data@.id == data.id,
        data@.flags == data.flags,
        data@.callback_message == data.callback_message,
        data@.icon == data.icon,
        data@.tip == data.tip@,
        data@.version == data.version,
{
}

/// The menu offers the settings above the end of the overlay, each as a text.
pub proof fn law_menu()
    ensures
        menu_items().len() == 2,
        menu_items()[0].id == 1001,
        menu_items()[0].label@ == "Settings"@,
        menu_items()[1].id == 1002,
        menu_items()[1].label@ == "Quit"@,
        menu_items()[0].flags == 0,
        menu_items()[1].flags == 0,
{
}

/// Without a popup menu there is nothing to append to, and with one both entries
/// go there.
pub proof fn law_menu_needs_a_popup(handle: isize)
    ensures
        menu_for(Some(handle)).0 == handle,
        menu_for(Some(handle)).1 == menu_items(),
        menu_for(None).0 == 0,
        menu_for(None).1.len() == 0,
{
}

/// The notification area after a call: icons are known by their window and their
/// number.
pub open spec fn notified(
    area: Map<(isize, u32), NotifyIconView>,
    call: (u32, NotifyIconView),
) -> Map<(isize, u32), NotifyIconView> {
    let data = call.1;
    let key = (data.hwnd, data.id);
    if call.0 == NIM_ADD {
        if area.dom().contains(key) {
            area
        } else {
            area.insert(key, data)
        }
    } else if call.0 == NIM_SETVERSION && area.dom().contains(key) {
        area.insert(key, NotifyIconView { version: data.version, ..area[key] })
    } else if call.0 == NIM_DELETE {
        area.remove(key)
    } else {
        area
    }
}

/// Adding the icon of a window that has none gives the notification area that
/// icon, with the behaviour of the current version, and leaves the others alone.
/// Removing it gives the area back as it was.
pub proof fn law_removing_undoes_adding(
    area: Map<(isize, u32), NotifyIconView>,
    hwnd: isize,
    icon: isize,
)
    requires
        !area.dom().contains((hwnd, 1u32)),
    ensures
        ({
            let calls = adding_calls(hwnd, icon);
            let added = notified(notified(area, calls[0]), calls[1]);
            &&& calls.len() == 2
            &&& added.dom() == area.dom().insert((hwnd, 1u32))
            &&& added[(hwnd, 1u32)] == (NotifyIconView { version: 4, ..full_icon(hwnd, icon) })
            &&& added.remove((hwnd, 1u32)) == area
            &&& notified(added, removing_call(hwnd)) == area
        }),
{
    let calls = adding_calls(hwnd, icon);
    let added = notified(notified(area, calls[0]), calls[1]);
    assert(added.dom() =~= area.dom().insert((hwnd, 1u32)));
    assert(added.remove((hwnd, 1u32)) =~= area);
}

} // verus!
