//! The window procedure: what to do about a message, given the state.
//!
//! A message is handled in one or two steps. [`wnd_proc`] takes the message;
//! where it ends with a query, [`resume`] takes the answer. Each step
//! updates the state and gives the commands to carry out.

use vstd::prelude::*;

use crate::command;
use crate::command::{Command, Next, Query, Reaction, Reply};
use crate::config::{ex_style_from_config, topmost_hwnd, Config};
use crate::ids::{
    BG_COLOR, CPU_COLOR, HOTKEY_BG_ID, HOTKEY_CLICKTHROUGH_ID, HOTKEY_TOPMOST_ID, KEY_COLOR,
    RAM_COLOR, TEXT_GAP, TEXT_X, TEXT_Y, TIMER_ID, TRAY_MENU_QUIT_ID, TRAY_MENU_SETTINGS_ID,
    WM_TRAYICON,
};
use crate::labels::{cpu_label, ram_label, SETTINGS_CAPTION, SETTINGS_TEXT};
use crate::model;
use crate::model::{Event, Message};
use crate::params::{hotkey_id, loword, lp_x, lp_y, tray_event};
use crate::state;
use crate::state::{AppState, StateView};
use crate::wide;
use crate::wide::encode_wide;
use crate::win32::{
    MB_ICONINFORMATION, MB_OK, SWP_FRAMECHANGED, SWP_NOACTIVATE, SWP_NOMOVE, SWP_NOSIZE,
    TPM_RIGHTBUTTON, WM_COMMAND, WM_CONTEXTMENU, WM_DESTROY, WM_ERASEBKGND, WM_HOTKEY,
    WM_LBUTTONDOWN, WM_LBUTTONUP, WM_MOUSEMOVE, WM_PAINT, WM_RBUTTONUP, WM_TIMER,
};

verus! {

/// A reaction that ends the handling of a message with the result 0.
fn done(commands: Vec<Command<Vec<u16>>>) -> (reaction: Reaction)
    ensures
        reaction.commands == commands,
        reaction.next == (Next::<Vec<u16>>::Return { result: 0 }),
{
    Reaction { commands, next: Next::Return { result: 0 } }
}

/// A reaction that waits for an answer.
fn ask(commands: Vec<Command<Vec<u16>>>, query: Query<Vec<u16>>) -> (reaction: Reaction)
    ensures
        reaction.commands == commands,
        reaction.next == (Next::Await { query }),
{
    Reaction { commands, next: Next::Await { query } }
}

/// The commands that bring the window into the mode of a configuration.
pub fn apply_widget_mode(config: &Config) -> (commands: Vec<Command<Vec<u16>>>)
    ensures
        command::viewed(commands@) == model::widget_mode(*config),
{
    let commands: Vec<Command<Vec<u16>>> = vec![
        Command::SetExStyle { style: ex_style_from_config(config) },
        Command::SetWindowPos {
            after: topmost_hwnd(config.always_on_top),
            x: 0,
            y: 0,
            cx: 0,
            cy: 0,
            flags: SWP_NOMOVE | SWP_NOSIZE | SWP_NOACTIVATE | SWP_FRAMECHANGED,
        },
    ];
    commands
}

/// Paints the background, and the CPU line where there is a state.
fn paint(st: &Option<AppState>) -> (reaction: Reaction)
    ensures
        reaction@.commands == model::paint_commands(state::attached(*st)),
        reaction@.next == match state::attached(*st) {
            Some(s) => Next::Await {
                query: Query::TextExtent { text: wide::utf16(s.cpu_text) },
            },
            None => Next::Return { result: 0 },
        },
{
    match st {
        None => done(
            vec![Command::BeginPaint, Command::FillClient { color: KEY_COLOR }, Command::EndPaint],
        ),
        Some(s) => {
            let color: u32 = if s.config.show_background {
                BG_COLOR
            } else {
                KEY_COLOR
            };
            ask(
                vec![
                    Command::BeginPaint,
                    Command::FillClient { color },
                    Command::SelectFont { font: s.font },
                    Command::KeepTextBackground,
                    Command::SetTextColor { color: CPU_COLOR },
                    Command::TextOut {
                        x: TEXT_X,
                        y: TEXT_Y,
                        text: encode_wide(s.cpu_text.as_str()),
                    },
                ],
                Query::TextExtent { text: encode_wide(s.cpu_text.as_str()) },
            )
        },
    }
}

/// Ends the overlay and gives up the state.
fn shut_down(st: &mut Option<AppState>) -> (reaction: Reaction)
    ensures
        *final(st) is None,
        reaction@.commands == model::shutdown_commands(state::attached(*old(st))),
        reaction@.next == (Next::<Seq<u16>>::Return { result: 0 }),
{
    let mut commands: Vec<Command<Vec<u16>>> = vec![
        Command::KillTimer { timer: TIMER_ID },
        Command::UnregisterHotKey { hotkey: HOTKEY_BG_ID },
        Command::UnregisterHotKey { hotkey: HOTKEY_TOPMOST_ID },
        Command::UnregisterHotKey { hotkey: HOTKEY_CLICKTHROUGH_ID },
        Command::RemoveTrayIcon,
    ];
    if let Some(s) = st.take() {
        commands.push(Command::DeleteFont { font: s.font });
        if s.tray_menu != 0 {
            commands.push(Command::DestroyMenu { menu: s.tray_menu });
        }
    }
    commands.push(Command::PostQuit { code: 0 });
    done(commands)
}

impl AppState {
    /// Changes the setting that belongs to a hotkey.
    fn press_hotkey(&mut self, id: i32) -> (reaction: Reaction)
        ensures
            final(self)@ == (StateView {
                config: model::toggled(old(self).config, id as int),
                ..old(self)@
            }),
            reaction@.commands == model::hotkey_commands(final(self).config, id as int),
            reaction@.next == (Next::<Seq<u16>>::Return { result: 0 }),
    {
        if id == HOTKEY_BG_ID {
            self.config.show_background = !self.config.show_background;
            done(vec![Command::Invalidate, Command::SaveConfig { config: self.config }])
        } else if id == HOTKEY_TOPMOST_ID {
            self.config.always_on_top = !self.config.always_on_top;
            let mut commands: Vec<Command<Vec<u16>>> = apply_widget_mode(&self.config);
            commands.push(Command::SaveConfig { config: self.config });
            done(commands)
        } else if id == HOTKEY_CLICKTHROUGH_ID {
            self.config.click_through = !self.config.click_through;
            let mut commands: Vec<Command<Vec<u16>>> = apply_widget_mode(&self.config);
            commands.push(Command::SaveConfig { config: self.config });
            done(commands)
        } else {
            done(vec![])
        }
    }

    /// Handles a message that matters only while a state is attached.
    fn on_message(&mut self, msg: u32, wp: usize, lp: isize) -> (reaction: Reaction)
        requires
            model::handled(msg),
            msg != WM_PAINT,
            msg != WM_ERASEBKGND,
            msg != WM_DESTROY,
        ensures
            Some(final(self)@) == model::state_after(Some(old(self)@), (Message { msg, wp, lp })),
            reaction@ == model::reaction_to(Some(old(self)@), (Message { msg, wp, lp })),
    {
        if msg == WM_TIMER {
            ask(vec![], Query::Usage)
        } else if msg == WM_LBUTTONDOWN {
            self.dragging = true;
            self.drag_x = lp_x(lp);
            self.drag_y = lp_y(lp);
            done(vec![Command::SetCapture])
        } else if msg == WM_LBUTTONUP {
            self.dragging = false;
            ask(vec![Command::ReleaseCapture], Query::WindowRect)
        } else if msg == WM_MOUSEMOVE {
            if self.dragging {
                // The screen position of the cursor does not accumulate drift.
                ask(vec![], Query::DragCursor)
            } else {
                done(vec![])
            }
        } else if msg == WM_HOTKEY {
            self.press_hotkey(hotkey_id(wp))
        } else if msg == WM_TRAYICON {
            let event: u32 = tray_event(lp);
            if event == WM_RBUTTONUP || event == WM_CONTEXTMENU {
                ask(vec![], Query::MenuCursor)
            } else {
                done(vec![])
            }
        } else {
            let entry: usize = loword(wp);
            if entry == TRAY_MENU_SETTINGS_ID {
                ask(
                    vec![],
                    Query::SettingsBox {
                        message: SETTINGS_TEXT,
                        caption: SETTINGS_CAPTION,
                        style: MB_OK | MB_ICONINFORMATION,
                    },
                )
            } else if entry == TRAY_MENU_QUIT_ID {
                done(vec![Command::DestroyWindow])
            } else {
                done(vec![])
            }
        }
    }

    /// Whether the coordinates that an answer leads to can be represented. Those
    /// that cannot wrap around.
    pub fn accepts(&self, reply: &Reply<String>) -> (accepted: bool)
        ensures
            accepted == model::representable(self@, reply@),
    {
        match reply {
            Reply::TextExtent { size } => size.cx <= i32::MAX - TEXT_X - TEXT_GAP,
            Reply::DragCursor { at } => at.x.checked_sub(self.drag_x).is_some()
                && at.y.checked_sub(self.drag_y).is_some(),
            _ => true,
        }
    }

    /// Handles the answer to the query that a message ended with.
    pub fn resume(&mut self, reply: Reply<String>) -> (reaction: Reaction)
        ensures
            final(self)@ == model::state_after_reply(old(self)@, reply@),
            reaction@ == model::reaction_to_reply(old(self)@, reply@),
    {
        match reply {
            Reply::Usage { percent, gigabytes } => {
                self.cpu_text = cpu_label(percent.as_str());
                self.ram_text = ram_label(gigabytes.as_str());
                done(vec![Command::Invalidate])
            },
            Reply::TextExtent { size } => {
                let x: i32 = TEXT_X.wrapping_add(size.cx).wrapping_add(TEXT_GAP);
                done(
                    vec![
                        Command::SetTextColor { color: RAM_COLOR },
                        Command::TextOut {
                            x,
                            y: TEXT_Y,
                            text: encode_wide(self.ram_text.as_str()),
                        },
                        Command::RestoreFont,
                        Command::EndPaint,
                    ],
                )
            },
            Reply::WindowRect { rect } => {
                self.config.x = rect.left;
                self.config.y = rect.top;
                done(vec![Command::SaveConfig { config: self.config }])
            },
            Reply::DragCursor { at } => {
                let x: i32 = at.x.wrapping_sub(self.drag_x);
                let y: i32 = at.y.wrapping_sub(self.drag_y);
                done(
                    vec![
                        Command::SetWindowPos {
                            after: topmost_hwnd(self.config.always_on_top),
                            x,
                            y,
                            cx: 0,
                            cy: 0,
                            flags: SWP_NOSIZE | SWP_NOACTIVATE,
                        },
                    ],
                )
            },
            Reply::MenuCursor { at } => {
                done(
                    vec![
                        Command::SetForeground,
                        Command::TrackMenu {
                            menu: self.tray_menu,
                            flags: TPM_RIGHTBUTTON,
                            x: at.x,
                            y: at.y,
                        },
                    ],
                )
            },
            Reply::SettingsBox => {
                self.config.click_through = false;
                let mut commands: Vec<Command<Vec<u16>>> = apply_widget_mode(&self.config);
                commands.push(Command::Invalidate);
                commands.push(Command::SaveConfig { config: self.config });
                done(commands)
            },
        }
    }
}

/// Handles a window message. Messages may arrive before a state is attached and
/// after it was given up.
pub fn wnd_proc(st: &mut Option<AppState>, msg: u32, wp: usize, lp: isize) -> (reaction: Reaction)
    ensures
        state::attached(*final(st)) == model::state_after(
            state::attached(*old(st)),
            (Message { msg, wp, lp }),
        ),
        reaction@ == model::reaction_to(state::attached(*old(st)), (Message { msg, wp, lp })),
{
    if msg == WM_PAINT {
        paint(st)
    } else if msg == WM_ERASEBKGND {
        // Erasing the background by default would make the window flicker.
        Reaction { commands: vec![], next: Next::Return { result: 1 } }
    } else if msg == WM_DESTROY {
        shut_down(st)
    } else if msg == WM_TIMER || msg == WM_LBUTTONDOWN || msg == WM_LBUTTONUP || msg
        == WM_MOUSEMOVE || msg == WM_HOTKEY || msg == WM_TRAYICON || msg == WM_COMMAND {
        match st {
            Some(s) => s.on_message(msg, wp, lp),
            None => if msg == WM_TIMER {
                done(vec![Command::Invalidate])
            } else {
                done(vec![])
            },
        }
    } else {
        Reaction { commands: vec![], next: Next::Default }
    }
}

/// Handles the answer to the query that a message ended with, wherever the state
/// may have gone meanwhile: without a state the answer is dropped, and the
/// message counts as processed.
pub fn resume(st: &mut Option<AppState>, reply: Reply<String>) -> (reaction: Reaction)
    ensures
        state::attached(*final(st)) == model::state_next(
            state::attached(*old(st)),
            (Event::Reply { reply: reply@ }),
        ),
        reaction@.commands == model::issued(
            state::attached(*old(st)),
            (Event::Reply { reply: reply@ }),
        ),
        reaction@.next == (Next::<Seq<u16>>::Return { result: 0 }),
{
    match st {
        Some(s) => s.resume(reply),
        None => done(vec![]),
    }
}

} // verus!
