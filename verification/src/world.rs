//! What the commands do: a model of the window system, as far as the overlay
//! touches it.

use vstd::prelude::*;

use crate::command::Command;
use crate::config::Config;
use crate::win32::{SWP_FRAMECHANGED, SWP_NOACTIVATE, SWP_NOMOVE, SWP_NOSIZE};

verus! {

/// The overlay's window.
pub struct Window {
    pub open: bool,
    pub left: int,
    pub top: int,
    pub width: int,
    pub height: int,
    /// Whether the window was given the input focus.
    pub active: bool,
    /// The place in the stacking order.
    pub place: isize,
    pub style: u32,
    /// The style that is in force. A new style comes into force with the frame.
    pub style_in_force: u32,
    pub needs_painting: bool,
    pub has_capture: bool,
    pub foreground: bool,
}

/// A line of text as it stands in the window.
pub struct Line {
    pub x: i32,
    pub y: i32,
    pub text: Seq<u16>,
    /// The colour, where one was chosen.
    pub color: Option<u32>,
    /// The font, where one was chosen.
    pub font: Option<isize>,
    /// Whether what is behind the text shows between its strokes.
    pub see_through: bool,
}

/// What is painted, and what a painting in progress has chosen.
pub struct Canvas {
    pub painting: bool,
    pub background: Option<u32>,
    pub lines: Seq<Line>,
    pub color: Option<u32>,
    pub font: Option<isize>,
    pub see_through: bool,
}

/// A popup menu on the screen.
pub struct OpenMenu {
    pub menu: isize,
    pub flags: u32,
    pub x: i32,
    pub y: i32,
    /// A menu closes on a click elsewhere only if its window was brought to the
    /// foreground before.
    pub closes_on_click: bool,
}

#[verifier::ext_equal]
pub struct World {
    pub window: Window,
    pub canvas: Canvas,
    pub menu: Option<OpenMenu>,
    /// The settings file, where there is one.
    pub stored: Option<Config>,
    pub timers: Set<usize>,
    pub hotkeys: Set<i32>,
    pub tray_icon: bool,
    pub fonts: Set<isize>,
    pub menus: Set<isize>,
    /// The exit code, once the end of the program was asked for.
    pub exit: Option<i32>,
}

/// A window after it was placed. Each flag keeps one aspect as it is.
pub open spec fn placed(
    w: Window,
    after: isize,
    x: int,
    y: int,
    cx: int,
    cy: int,
    flags: u32,
) -> Window {
    let keeps_position = flags & SWP_NOMOVE != 0;
    let keeps_size = flags & SWP_NOSIZE != 0;
    Window {
        place: after,
        left: if keeps_position {
            w.left
        } else {
            x
        },
        top: if keeps_position {
            w.top
        } else {
            y
        },
        width: if keeps_size {
            w.width
        } else {
            cx
        },
        height: if keeps_size {
            w.height
        } else {
            cy
        },
        active: w.active || flags & SWP_NOACTIVATE == 0,
        style_in_force: if flags & SWP_FRAMECHANGED != 0 {
            w.style
        } else {
            w.style_in_force
        },
        ..w
    }
}

/// The canvas after a text was drawn. Nothing is drawn outside of a painting.
pub open spec fn drawn(c: Canvas, x: i32, y: i32, text: Seq<u16>) -> Canvas {
    if c.painting {
        Canvas {
            lines: c.lines.push(
                Line { x, y, text, color: c.color, font: c.font, see_through: c.see_through },
            ),
            ..c
        }
    } else {
        c
    }
}

/// The canvas at the beginning of a painting, with nothing chosen yet.
pub open spec fn begun(c: Canvas) -> Canvas {
    Canvas { painting: true, color: None, font: None, see_through: false, ..c }
}

/// The canvas after its area was filled, which covers what was painted before.
pub open spec fn filled(c: Canvas, color: u32) -> Canvas {
    if c.painting {
        Canvas { background: Some(color), lines: seq![], ..c }
    } else {
        c
    }
}

/// The world after a command.
pub open spec fn effect(w: World, command: Command<Seq<u16>>) -> World {
    match command {
        Command::Invalidate => World {
            window: Window { needs_painting: true, ..w.window },
            ..w
        },
        Command::BeginPaint => World { canvas: begun(w.canvas), ..w },
        Command::FillClient { color } => World { canvas: filled(w.canvas, color), ..w },
        Command::SelectFont { font } => World {
            canvas: Canvas { font: Some(font), ..w.canvas },
            ..w
        },
        Command::KeepTextBackground => World {
            canvas: Canvas { see_through: true, ..w.canvas },
            ..w
        },
        Command::SetTextColor { color } => World {
            canvas: Canvas { color: Some(color), ..w.canvas },
            ..w
        },
        Command::TextOut { x, y, text } => World { canvas: drawn(w.canvas, x, y, text), ..w },
        Command::RestoreFont => World { canvas: Canvas { font: None, ..w.canvas }, ..w },
        Command::EndPaint => World {
            canvas: Canvas { painting: false, ..w.canvas },
            window: Window { needs_painting: false, ..w.window },
            ..w
        },
        Command::SetCapture => World { window: Window { has_capture: true, ..w.window }, ..w },
        Command::ReleaseCapture => World {
            window: Window { has_capture: false, ..w.window },
            ..w
        },
        Command::SetExStyle { style } => World { window: Window { style, ..w.window }, ..w },
        Command::SetWindowPos { after, x, y, cx, cy, flags } => World {
            window: placed(w.window, after, x as int, y as int, cx as int, cy as int, flags),
            ..w
        },
        Command::SaveConfig { config } => World { stored: Some(config), ..w },
        Command::SetForeground => World { window: Window { foreground: true, ..w.window }, ..w },
        Command::TrackMenu { menu, flags, x, y } => World {
            menu: Some(OpenMenu { menu, flags, x, y, closes_on_click: w.window.foreground }),
            ..w
        },
        Command::DestroyWindow => World { window: Window { open: false, ..w.window }, ..w },
        Command::KillTimer { timer } => World { timers: w.timers.remove(timer), ..w },
        Command::UnregisterHotKey { hotkey } => World { hotkeys: w.hotkeys.remove(hotkey), ..w },
        Command::RemoveTrayIcon => World { tray_icon: false, ..w },
        Command::DeleteFont { font } => World { fonts: w.fonts.remove(font), ..w },
        Command::DestroyMenu { menu } => World { menus: w.menus.remove(menu), ..w },
        Command::PostQuit { code } => World { exit: Some(code), ..w },
    }
}

/// The world after the first `n` of some commands.
pub open spec fn after_first(w: World, commands: Seq<Command<Seq<u16>>>, n: nat) -> World
    decreases n,
{
    if n == 0 {
        w
    } else {
        effect(after_first(w, commands, (n - 1) as nat), commands[n - 1])
    }
}

/// The world after some commands.
pub open spec fn run(w: World, commands: Seq<Command<Seq<u16>>>) -> World {
    after_first(w, commands, commands.len())
}

} // verus!
