//! What the window procedure does, aspect by aspect: how the state changes,
//! which commands are given, and how the handling goes on.

use vstd::prelude::*;

use crate::command::{Command, Next, Query, ReactionView, Reply};
use crate::config;
use crate::config::Config;
use crate::ids::{
    BG_COLOR, CPU_COLOR, HOTKEY_BG_ID, HOTKEY_CLICKTHROUGH_ID, HOTKEY_TOPMOST_ID, KEY_COLOR,
    RAM_COLOR, TEXT_GAP, TEXT_X, TEXT_Y, TIMER_ID, TRAY_MENU_QUIT_ID, TRAY_MENU_SETTINGS_ID,
    WM_TRAYICON,
};
use crate::labels;
use crate::params;
use crate::state::StateView;
use crate::wide;
use crate::win32::{
    MB_ICONINFORMATION, MB_OK, SWP_FRAMECHANGED, SWP_NOACTIVATE, SWP_NOMOVE, SWP_NOSIZE,
    TPM_RIGHTBUTTON, WM_COMMAND, WM_CONTEXTMENU, WM_DESTROY, WM_ERASEBKGND, WM_HOTKEY,
    WM_LBUTTONDOWN, WM_LBUTTONUP, WM_MOUSEMOVE, WM_PAINT, WM_RBUTTONUP, WM_TIMER,
};

verus! {

/// A window message with its two parameters.
pub struct Message {
    pub msg: u32,
    pub wp: usize,
    pub lp: isize,
}

/// The messages that the overlay handles itself.
pub open spec fn handled(msg: u32) -> bool {
    ||| msg == WM_TIMER
    ||| msg == WM_ERASEBKGND
    ||| msg == WM_PAINT
    ||| msg == WM_LBUTTONDOWN
    ||| msg == WM_LBUTTONUP
    ||| msg == WM_MOUSEMOVE
    ||| msg == WM_HOTKEY
    ||| msg == WM_TRAYICON
    ||| msg == WM_COMMAND
    ||| msg == WM_DESTROY
}

/// The hotkey that a message reports.
pub open spec fn pressed_hotkey(m: Message) -> int {
    params::signed32(params::low_dword(m.wp as int))
}

/// The configuration after the hotkey `id` was pressed.
pub open spec fn toggled(config: Config, id: int) -> Config {
    if id == HOTKEY_BG_ID {
        Config { show_background: !config.show_background, ..config }
    } else if id == HOTKEY_TOPMOST_ID {
        Config { always_on_top: !config.always_on_top, ..config }
    } else if id == HOTKEY_CLICKTHROUGH_ID {
        Config { click_through: !config.click_through, ..config }
    } else {
        config
    }
}

/// Whether a message asks for the tray menu.
pub open spec fn asks_for_menu(m: Message) -> bool {
    let event = params::low_word(m.lp as int);
    m.msg == WM_TRAYICON && (event == WM_RBUTTONUP || event == WM_CONTEXTMENU)
}

/// Whether a message reports that the entry `id` of the tray menu was chosen.
pub open spec fn chooses(m: Message, id: usize) -> bool {
    m.msg == WM_COMMAND && params::low_word(m.wp as int) == id
}

/// The commands that bring the window into the mode of `config`: its style, and
/// its place in the stacking order without moving, sizing or activating it.
pub open spec fn widget_mode(config: Config) -> Seq<Command<Seq<u16>>> {
    seq![
        Command::SetExStyle { style: config::ex_style(config) as u32 },
        Command::SetWindowPos {
            after: config::stacking_place(config.always_on_top),
            x: 0,
            y: 0,
            cx: 0,
            cy: 0,
            flags: SWP_NOMOVE | SWP_NOSIZE | SWP_NOACTIVATE | SWP_FRAMECHANGED,
        },
    ]
}

/// The colour behind the text. Without the panel it is the transparent one.
pub open spec fn background(show: bool) -> u32 {
    if show {
        BG_COLOR
    } else {
        KEY_COLOR
    }
}

// ---------------------------------------------------------------------------
// A message
// ---------------------------------------------------------------------------

/// The state after a message. Pressing the button starts a drag, releasing it
/// ends one, a hotkey changes the configuration, and the end of the window is
/// the end of the state.
pub open spec fn state_after(state: Option<StateView>, m: Message) -> Option<StateView> {
    match state {
        None => None,
        Some(s) => if m.msg == WM_LBUTTONDOWN {
            Some(
                StateView {
                    dragging: true,
                    drag_x: params::signed16(params::low_word(m.lp as int)) as i32,
                    drag_y: params::signed16(params::high_word(m.lp as int)) as i32,
                    ..s
                },
            )
        } else if m.msg == WM_LBUTTONUP {
            Some(StateView { dragging: false, ..s })
        } else if m.msg == WM_HOTKEY {
            Some(StateView { config: toggled(s.config, pressed_hotkey(m)), ..s })
        } else if m.msg == WM_DESTROY {
            None
        } else {
            Some(s)
        },
    }
}

/// The commands for a hotkey, given the configuration that it leads to.
pub open spec fn hotkey_commands(config: Config, id: int) -> Seq<Command<Seq<u16>>> {
    if id == HOTKEY_BG_ID {
        seq![Command::Invalidate, Command::SaveConfig { config }]
    } else if id == HOTKEY_TOPMOST_ID || id == HOTKEY_CLICKTHROUGH_ID {
        widget_mode(config).push(Command::SaveConfig { config })
    } else {
        seq![]
    }
}

/// The commands that release what the state holds.
pub open spec fn release_commands(state: Option<StateView>) -> Seq<Command<Seq<u16>>> {
    match state {
        None => seq![],
        Some(s) => if s.tray_menu != 0 {
            seq![
                Command::DeleteFont { font: s.font },
                Command::DestroyMenu { menu: s.tray_menu },
            ]
        } else {
            seq![Command::DeleteFont { font: s.font }]
        },
    }
}

/// The commands that end the overlay.
pub open spec fn shutdown_commands(state: Option<StateView>) -> Seq<Command<Seq<u16>>> {
    seq![
        Command::KillTimer { timer: TIMER_ID },
        Command::UnregisterHotKey { hotkey: HOTKEY_BG_ID },
        Command::UnregisterHotKey { hotkey: HOTKEY_TOPMOST_ID },
        Command::UnregisterHotKey { hotkey: HOTKEY_CLICKTHROUGH_ID },
        Command::RemoveTrayIcon,
    ] + release_commands(state) + seq![Command::PostQuit { code: 0 }]
}

/// The commands that paint the background and the CPU line. Without a state
/// there is no line to paint, and the painting ends.
pub open spec fn paint_commands(state: Option<StateView>) -> Seq<Command<Seq<u16>>> {
    match state {
        None => seq![
            Command::BeginPaint,
            Command::FillClient { color: KEY_COLOR },
            Command::EndPaint,
        ],
        Some(s) => seq![
            Command::BeginPaint,
            Command::FillClient { color: background(s.config.show_background) },
            Command::SelectFont { font: s.font },
            Command::KeepTextBackground,
            Command::SetTextColor { color: CPU_COLOR },
            Command::TextOut { x: TEXT_X, y: TEXT_Y, text: wide::utf16(s.cpu_text) },
        ],
    }
}

/// The commands that a message leads to at once.
pub open spec fn commands_for(state: Option<StateView>, m: Message) -> Seq<Command<Seq<u16>>> {
    if m.msg == WM_PAINT {
        paint_commands(state)
    } else if m.msg == WM_DESTROY {
        shutdown_commands(state)
    } else if m.msg == WM_TIMER && state is None {
        seq![Command::Invalidate]
    } else if m.msg == WM_LBUTTONDOWN && state is Some {
        seq![Command::SetCapture]
    } else if m.msg == WM_LBUTTONUP && state is Some {
        seq![Command::ReleaseCapture]
    } else if m.msg == WM_HOTKEY && state is Some {
        hotkey_commands(state_after(state, m)->0.config, pressed_hotkey(m))
    } else if chooses(m, TRAY_MENU_QUIT_ID) && state is Some {
        seq![Command::DestroyWindow]
    } else {
        seq![]
    }
}

/// The settings box, with its text, its caption and an information icon.
pub open spec fn settings_box() -> Query<Seq<u16>> {
    Query::SettingsBox {
        message: labels::SETTINGS_TEXT,
        caption: labels::SETTINGS_CAPTION,
        style: MB_OK | MB_ICONINFORMATION,
    }
}

/// The query that a message waits for.
pub open spec fn query_for(state: Option<StateView>, m: Message) -> Option<Query<Seq<u16>>> {
    match state {
        None => None,
        Some(s) => if m.msg == WM_TIMER {
            Some(Query::Usage)
        } else if m.msg == WM_PAINT {
            Some(Query::TextExtent { text: wide::utf16(s.cpu_text) })
        } else if m.msg == WM_LBUTTONUP {
            Some(Query::WindowRect)
        } else if m.msg == WM_MOUSEMOVE && s.dragging {
            Some(Query::DragCursor)
        } else if asks_for_menu(m) {
            Some(Query::MenuCursor)
        } else if chooses(m, TRAY_MENU_SETTINGS_ID) {
            Some(settings_box())
        } else {
            None
        },
    }
}

/// How the handling of a message goes on. Erasing the background is reported as
/// done, every other handled message as processed.
pub open spec fn next_for(state: Option<StateView>, m: Message) -> Next<Seq<u16>> {
    if !handled(m.msg) {
        Next::Default
    } else {
        match query_for(state, m) {
            Some(query) => Next::Await { query },
            None => Next::Return {
                result: if m.msg == WM_ERASEBKGND {
                    1
                } else {
                    0
                },
            },
        }
    }
}

/// The reaction to a message.
pub open spec fn reaction_to(state: Option<StateView>, m: Message) -> ReactionView {
    ReactionView { commands: commands_for(state, m), next: next_for(state, m) }
}

// ---------------------------------------------------------------------------
// An answer
// ---------------------------------------------------------------------------

/// Whether the coordinates that an answer leads to can be represented.
pub open spec fn representable(s: StateView, reply: Reply<Seq<char>>) -> bool {
    match reply {
        Reply::TextExtent { size } => TEXT_X + size.cx + TEXT_GAP <= i32::MAX,
        Reply::DragCursor { at } => {
            &&& i32::MIN <= at.x - s.drag_x <= i32::MAX
            &&& i32::MIN <= at.y - s.drag_y <= i32::MAX
        },
        _ => true,
    }
}

/// The state after an answer. A measurement changes the two lines, the place of
/// the window becomes the configured one, and the settings box makes the window
/// take mouse input again.
pub open spec fn state_after_reply(s: StateView, reply: Reply<Seq<char>>) -> StateView {
    match reply {
        Reply::Usage { percent, gigabytes } => StateView {
            cpu_text: labels::cpu_line(percent),
            ram_text: labels::ram_line(gigabytes),
            ..s
        },
        Reply::WindowRect { rect } => StateView {
            config: Config { x: rect.left, y: rect.top, ..s.config },
            ..s
        },
        Reply::SettingsBox => StateView {
            config: Config { click_through: false, ..s.config },
            ..s
        },
        _ => s,
    }
}

/// The commands that an answer leads to. Coordinates that cannot be represented
/// wrap around.
pub open spec fn commands_after_reply(s: StateView, reply: Reply<Seq<char>>) -> Seq<
    Command<Seq<u16>>,
> {
    let config = state_after_reply(s, reply).config;
    match reply {
        Reply::Usage { .. } => seq![Command::Invalidate],
        Reply::TextExtent { size } => seq![
            Command::SetTextColor { color: RAM_COLOR },
            Command::TextOut {
                x: params::wrapped32(TEXT_X + size.cx + TEXT_GAP) as i32,
                y: TEXT_Y,
                text: wide::utf16(s.ram_text),
            },
            Command::RestoreFont,
            Command::EndPaint,
        ],
        Reply::WindowRect { .. } => seq![Command::SaveConfig { config }],
        Reply::DragCursor { at } => seq![
            Command::SetWindowPos {
                after: config::stacking_place(s.config.always_on_top),
                x: params::wrapped32(at.x - s.drag_x) as i32,
                y: params::wrapped32(at.y - s.drag_y) as i32,
                cx: 0,
                cy: 0,
                flags: SWP_NOSIZE | SWP_NOACTIVATE,
            },
        ],
        Reply::MenuCursor { at } => seq![
            Command::SetForeground,
            Command::TrackMenu { menu: s.tray_menu, flags: TPM_RIGHTBUTTON, x: at.x, y: at.y },
        ],
        Reply::SettingsBox => widget_mode(config) + seq![
            Command::Invalidate,
            Command::SaveConfig { config },
        ],
    }
}

/// The reaction to an answer, which ends the handling of the message.
pub open spec fn reaction_to_reply(s: StateView, reply: Reply<Seq<char>>) -> ReactionView {
    ReactionView { commands: commands_after_reply(s, reply), next: Next::Return { result: 0 } }
}

// ---------------------------------------------------------------------------
// Either
// ---------------------------------------------------------------------------

/// What the overlay reacts to: a message, or the answer to a query.
pub enum Event {
    Message { m: Message },
    Reply { reply: Reply<Seq<char>> },
}

/// The state after one event. An answer that comes when the state is gone is
/// dropped.
pub open spec fn state_next(state: Option<StateView>, event: Event) -> Option<StateView> {
    match event {
        Event::Message { m } => state_after(state, m),
        Event::Reply { reply } => match state {
            Some(s) => Some(state_after_reply(s, reply)),
            None => None,
        },
    }
}

/// The commands that one event leads to.
pub open spec fn issued(state: Option<StateView>, event: Event) -> Seq<Command<Seq<u16>>> {
    match event {
        Event::Message { m } => commands_for(state, m),
        Event::Reply { reply } => match state {
            Some(s) => commands_after_reply(s, reply),
            None => seq![],
        },
    }
}

} // verus!
