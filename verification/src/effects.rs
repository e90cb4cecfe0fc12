//! What each message and each answer brings about, in terms of the window, the
//! screen, the settings file and the state. Together the laws cover every
//! message and every answer, and each says what stays as it is.

use vstd::prelude::*;

use crate::command::{Next, Point, Query, Rect, Reply, Size};
use crate::config::Config;
use crate::ids::{
    BG_COLOR, CPU_COLOR, HOTKEY_BG_ID, HOTKEY_CLICKTHROUGH_ID, HOTKEY_TOPMOST_ID, KEY_COLOR,
    RAM_COLOR, TIMER_ID, TRAY_MENU_QUIT_ID, TRAY_MENU_SETTINGS_ID, WM_TRAYICON,
};
use crate::labels;
use crate::model;
use crate::model::{Event, Message};
use crate::startup;
use crate::state;
use crate::state::StateView;
use crate::wide;
use crate::win32::{
    HWND_NOTOPMOST, HWND_TOPMOST, MB_ICONINFORMATION, TPM_RIGHTBUTTON, WM_COMMAND, WM_CONTEXTMENU,
    WM_DESTROY, WM_ERASEBKGND, WM_HOTKEY, WM_LBUTTONDOWN, WM_LBUTTONUP, WM_MOUSEMOVE, WM_PAINT,
    WM_RBUTTONUP, WM_TIMER, WS_POPUP,
};
use crate::world;
use crate::world::{Canvas, Line, OpenMenu, Window, World};

verus! {

/// The style in which a configuration shows the window: layered, a tool window,
/// and one bit for each of two settings.
pub open spec fn styled(config: Config) -> int {
    0x8_0080 + (if config.click_through {
        0x20int
    } else {
        0
    }) + (if config.always_on_top {
        0x8int
    } else {
        0
    })
}

/// The world after the window was brought into the mode of a configuration: the
/// style is set and in force, and the window stands above all others or among
/// them. It stays where it is, keeps its size and does not take the focus.
pub open spec fn in_mode(w: World, config: Config) -> World {
    World {
        window: Window {
            style: styled(config) as u32,
            style_in_force: styled(config) as u32,
            place: if config.always_on_top {
                HWND_TOPMOST
            } else {
                HWND_NOTOPMOST
            },
            ..w.window
        },
        ..w
    }
}

/// What the flags of the two kinds of placement keep.
proof fn lemma_flags()
    ensures
        (1u32 | 16) & 1 != 0,
        (1u32 | 16) & 2 == 0,
        (1u32 | 16) & 16 != 0,
        (1u32 | 16) & 32 == 0,
        (2u32 | 1 | 16 | 32) & 1 != 0,
        (2u32 | 1 | 16 | 32) & 2 != 0,
        (2u32 | 1 | 16 | 32) & 16 != 0,
        (2u32 | 1 | 16 | 32) & 32 != 0,
{
    assert((1u32 | 16) & 1 != 0 && (1u32 | 16) & 2 == 0 && (1u32 | 16) & 16 != 0 && (1u32 | 16) & 32
        == 0 && (2u32 | 1 | 16 | 32) & 1 != 0 && (2u32 | 1 | 16 | 32) & 2 != 0 && (2u32 | 1 | 16
        | 32) & 16 != 0 && (2u32 | 1 | 16 | 32) & 32 != 0) by (bit_vector);
}

/// A new overlay begins with the settings, the menu and the font that it was
/// given, shows dashes in place of numbers, and is not being dragged. Its window
/// is a popup of fixed size at the configured position, in the style of the
/// settings.
pub proof fn law_new_overlay(config: Config, tray_menu: isize, font: isize)
    ensures
        ({
            let s = state::initial_state(config, tray_menu, font);
            &&& s.config == config
            &&& s.tray_menu == tray_menu
            &&& s.font == font
            &&& !s.dragging
            &&& s.drag_x == 0
            &&& s.drag_y == 0
            &&& labels::reads(
                s.cpu_text,
                seq!['C', 'P', 'U', ' '],
                seq!['-', '.', '-', '%'],
                6,
                ' ',
            )
            &&& labels::reads(
                s.ram_text,
                seq!['R', 'A', 'M', ' '],
                seq!['-', '.', '-', '-'],
                5,
                'G',
            )
        }),
        ({
            let window = startup::window_for(config);
            &&& (window.x, window.y) == (config.x, config.y)
            &&& (window.width, window.height) == (272i32, 34i32)
            &&& window.style == WS_POPUP
            &&& window.ex_style == styled(config)
            &&& window.class@ == "overlay_cls"@
            &&& window.title@ == "Overlay Stats"@
        }),
{
    reveal_strlit("CPU   -.-% ");
    reveal_strlit("RAM  -.--G");
    let s = state::initial_state(config, tray_menu, font);
    assert(s.cpu_text.subrange(6, 10) =~= seq!['-', '.', '-', '%']);
    assert(s.ram_text.subrange(5, 9) =~= seq!['-', '.', '-', '-']);
}

// ---------------------------------------------------------------------------
// Dragging
// ---------------------------------------------------------------------------

/// Pressing the button grabs the window: it receives all mouse input, and the
/// state remembers the point that the message carries. Nothing else changes.
pub proof fn law_press_grabs_the_window(w: World, s: StateView, m: Message)
    requires
        m.msg == WM_LBUTTONDOWN,
    ensures
        world::run(w, model::commands_for(Some(s), m)) == (World {
            window: Window { has_capture: true, ..w.window },
            ..w
        }),
        model::next_for(Some(s), m) == (Next::<Seq<u16>>::Return { result: 0 }),
        model::state_after(Some(s), m) matches Some(after) && {
            &&& after == (StateView {
                dragging: true,
                drag_x: after.drag_x,
                drag_y: after.drag_y,
                ..s
            })
            &&& -0x8000 <= after.drag_x < 0x8000
            &&& -0x8000 <= after.drag_y < 0x8000
            &&& after.drag_x as int % 0x1_0000 + 0x1_0000 * (after.drag_y as int % 0x1_0000)
                == m.lp as int % 0x1_0000_0000
        },
{
    reveal_with_fuel(world::after_first, 2);
}

/// A mouse move asks for the cursor while the window is being dragged, and does
/// nothing otherwise. The state stays as it is.
pub proof fn law_move_asks_for_the_cursor_during_a_drag(w: World, s: StateView, m: Message)
    requires
        m.msg == WM_MOUSEMOVE,
    ensures
        world::run(w, model::commands_for(Some(s), m)) == w,
        model::state_after(Some(s), m) == Some(s),
        s.dragging ==> model::next_for(Some(s), m) == (Next::<Seq<u16>>::Await {
            query: Query::DragCursor,
        }),
        !s.dragging ==> model::next_for(Some(s), m) == (Next::<Seq<u16>>::Return { result: 0 }),
{
}

/// With the cursor at `at`, the dragged window goes to where the point that was
/// grabbed lies under the cursor, and nowhere else: it keeps its size and does
/// not take the focus, and nothing else changes. A coordinate that does not fit
/// into 32 bits wraps around.
pub proof fn law_drag_moves_the_window(w: World, s: StateView, at: Point)
    ensures
        ({
            let after = world::run(w, model::commands_after_reply(s, Reply::DragCursor { at }));
            let left = after.window.left;
            let top = after.window.top;
            &&& after == (World {
                window: Window {
                    left,
                    top,
                    place: if s.config.always_on_top {
                        HWND_TOPMOST
                    } else {
                        HWND_NOTOPMOST
                    },
                    ..w.window
                },
                ..w
            })
            &&& i32::MIN <= left <= i32::MAX
            &&& i32::MIN <= top <= i32::MAX
            &&& (left + s.drag_x - at.x) % 0x1_0000_0000 == 0
            &&& (top + s.drag_y - at.y) % 0x1_0000_0000 == 0
            &&& i32::MIN <= at.x - s.drag_x <= i32::MAX ==> left + s.drag_x == at.x
            &&& i32::MIN <= at.y - s.drag_y <= i32::MAX ==> top + s.drag_y == at.y
        }),
        model::state_after_reply(s, Reply::DragCursor { at }) == s,
{
    reveal_with_fuel(world::after_first, 2);
    lemma_flags();
}

/// Releasing the button gives up the mouse, ends the drag, and asks where the
/// window is. Nothing else changes.
pub proof fn law_release_lets_go(w: World, s: StateView, m: Message)
    requires
        m.msg == WM_LBUTTONUP,
    ensures
        world::run(w, model::commands_for(Some(s), m)) == (World {
            window: Window { has_capture: false, ..w.window },
            ..w
        }),
        model::state_after(Some(s), m) == Some(StateView { dragging: false, ..s }),
        model::next_for(Some(s), m) == (Next::<Seq<u16>>::Await { query: Query::WindowRect }),
{
    reveal_with_fuel(world::after_first, 2);
}

/// Where the window is becomes the configured position, which is saved together
/// with the other settings as they are. Nothing else changes.
pub proof fn law_position_is_taken_over(w: World, s: StateView, rect: Rect)
    ensures
        ({
            let config = Config { x: rect.left, y: rect.top, ..s.config };
            &&& world::run(w, model::commands_after_reply(s, Reply::WindowRect { rect })) == (
            World { stored: Some(config), ..w })
            &&& model::state_after_reply(s, Reply::WindowRect { rect }) == (StateView {
                config,
                ..s
            })
        }),
{
    reveal_with_fuel(world::after_first, 2);
}

// ---------------------------------------------------------------------------
// Hotkeys
// ---------------------------------------------------------------------------

/// The hotkey of the panel turns the panel on or off: the window is to be painted
/// again, and the settings are saved. Nothing else changes.
pub proof fn law_panel_hotkey(w: World, s: StateView, m: Message)
    requires
        m.msg == WM_HOTKEY,
        m.wp as int % 0x1_0000_0000 == HOTKEY_BG_ID,
    ensures
        ({
            let config = Config { show_background: !s.config.show_background, ..s.config };
            &&& world::run(w, model::commands_for(Some(s), m)) == (World {
                window: Window { needs_painting: true, ..w.window },
                stored: Some(config),
                ..w
            })
            &&& model::state_after(Some(s), m) == Some(StateView { config, ..s })
        }),
        model::next_for(Some(s), m) == (Next::<Seq<u16>>::Return { result: 0 }),
{
    reveal_with_fuel(world::after_first, 3);
}

/// The hotkey of the stacking order turns always-on-top on or off: the window
/// changes into that mode, and the settings are saved. Nothing else changes.
pub proof fn law_topmost_hotkey(w: World, s: StateView, m: Message)
    requires
        m.msg == WM_HOTKEY,
        m.wp as int % 0x1_0000_0000 == HOTKEY_TOPMOST_ID,
    ensures
        ({
            let config = Config { always_on_top: !s.config.always_on_top, ..s.config };
            &&& world::run(w, model::commands_for(Some(s), m)) == (World {
                stored: Some(config),
                ..in_mode(w, config)
            })
            &&& model::state_after(Some(s), m) == Some(StateView { config, ..s })
        }),
        model::next_for(Some(s), m) == (Next::<Seq<u16>>::Return { result: 0 }),
{
    reveal_with_fuel(world::after_first, 4);
    lemma_flags();
}

/// The hotkey of the mouse turns click-through on or off: the window changes into
/// that mode, and the settings are saved. Nothing else changes.
pub proof fn law_click_through_hotkey(w: World, s: StateView, m: Message)
    requires
        m.msg == WM_HOTKEY,
        m.wp as int % 0x1_0000_0000 == HOTKEY_CLICKTHROUGH_ID,
    ensures
        ({
            let config = Config { click_through: !s.config.click_through, ..s.config };
            &&& world::run(w, model::commands_for(Some(s), m)) == (World {
                stored: Some(config),
                ..in_mode(w, config)
            })
            &&& model::state_after(Some(s), m) == Some(StateView { config, ..s })
        }),
        model::next_for(Some(s), m) == (Next::<Seq<u16>>::Return { result: 0 }),
{
    reveal_with_fuel(world::after_first, 4);
    lemma_flags();
}

/// Any other hotkey does nothing.
pub proof fn law_unknown_hotkeys_do_nothing(w: World, s: StateView, m: Message)
    requires
        m.msg == WM_HOTKEY,
        !(1 <= m.wp as int % 0x1_0000_0000 <= 3),
    ensures
        world::run(w, model::commands_for(Some(s), m)) == w,
        model::state_after(Some(s), m) == Some(s),
        model::next_for(Some(s), m) == (Next::<Seq<u16>>::Return { result: 0 }),
{
}

/// Bringing the window into the mode of a configuration does that and no more.
pub proof fn law_widget_mode_applies_the_configuration(w: World, config: Config)
    ensures
        world::run(w, model::widget_mode(config)) == in_mode(w, config),
{
    reveal_with_fuel(world::after_first, 3);
    lemma_flags();
}

// ---------------------------------------------------------------------------
// Tray menu
// ---------------------------------------------------------------------------

/// A tray notification asks for the cursor where its low word reports a right
/// click, and does nothing otherwise. The state stays as it is.
pub proof fn law_tray_notification(w: World, s: StateView, m: Message)
    requires
        m.msg == WM_TRAYICON,
    ensures
        world::run(w, model::commands_for(Some(s), m)) == w,
        model::state_after(Some(s), m) == Some(s),
        model::next_for(Some(s), m) == if m.lp as int % 0x1_0000 == WM_RBUTTONUP || m.lp as int
            % 0x1_0000 == WM_CONTEXTMENU {
            Next::<Seq<u16>>::Await { query: Query::MenuCursor }
        } else {
            Next::<Seq<u16>>::Return { result: 0 }
        },
{
}

/// The menu opens at the cursor, for the right button too, and in front, so that
/// a click elsewhere closes it. Nothing else changes.
pub proof fn law_menu_opens_at_the_cursor(w: World, s: StateView, at: Point)
    ensures
        world::run(w, model::commands_after_reply(s, Reply::MenuCursor { at })) == (World {
            window: Window { foreground: true, ..w.window },
            menu: Some(
                OpenMenu {
                    menu: s.tray_menu,
                    flags: TPM_RIGHTBUTTON,
                    x: at.x,
                    y: at.y,
                    closes_on_click: true,
                },
            ),
            ..w
        }),
        model::state_after_reply(s, Reply::MenuCursor { at }) == s,
{
    reveal_with_fuel(world::after_first, 3);
}

/// Choosing an entry of the tray menu: the first shows the settings box, the
/// second closes the window, and any other does nothing. The state stays as it
/// is.
pub proof fn law_menu_choice(w: World, s: StateView, m: Message)
    requires
        m.msg == WM_COMMAND,
    ensures
        world::run(w, model::commands_for(Some(s), m)) == if m.wp as int % 0x1_0000
            == TRAY_MENU_QUIT_ID {
            World { window: Window { open: false, ..w.window }, ..w }
        } else {
            w
        },
        model::state_after(Some(s), m) == Some(s),
        m.wp as int % 0x1_0000 == TRAY_MENU_SETTINGS_ID ==> (model::next_for(
            Some(s),
            m,
        ) matches Next::Await {
            query: Query::SettingsBox { message, caption, style },
        } && message == labels::SETTINGS_TEXT && caption == labels::SETTINGS_CAPTION && style
            == MB_ICONINFORMATION),
        m.wp as int % 0x1_0000 != TRAY_MENU_SETTINGS_ID ==> model::next_for(Some(s), m) == (Next::<
            Seq<u16>,
        >::Return { result: 0 }),
{
    reveal_with_fuel(world::after_first, 2);
    assert(0u32 | 0x40 == 0x40) by (bit_vector);
}

/// After the settings box the window takes mouse input, and that is the only
/// setting that changes: the window changes into that mode, is to be painted
/// again, and the settings are saved.
pub proof fn law_settings_box_only_ends_click_through(w: World, s: StateView)
    ensures
        ({
            let config = Config { click_through: false, ..s.config };
            let mode = in_mode(w, config);
            &&& world::run(w, model::commands_after_reply(s, Reply::SettingsBox)) == (World {
                window: Window { needs_painting: true, ..mode.window },
                stored: Some(config),
                ..mode
            })
            &&& model::state_after_reply(s, Reply::SettingsBox) == (StateView { config, ..s })
        }),
{
    reveal_with_fuel(world::after_first, 5);
    lemma_flags();
}

// ---------------------------------------------------------------------------
// Measuring and painting
// ---------------------------------------------------------------------------

/// Every tick of the timer takes a measurement. Nothing else happens at once.
pub proof fn law_tick_measures(w: World, s: StateView, m: Message)
    requires
        m.msg == WM_TIMER,
    ensures
        world::run(w, model::commands_for(Some(s), m)) == w,
        model::state_after(Some(s), m) == Some(s),
        model::next_for(Some(s), m) == (Next::<Seq<u16>>::Await { query: Query::Usage }),
{
}

/// A measurement becomes the two lines, and the window is to be painted again.
/// Each line ends with its number and its unit. Nothing else changes.
pub proof fn law_measurement_becomes_the_lines(
    w: World,
    s: StateView,
    percent: Seq<char>,
    gigabytes: Seq<char>,
)
    ensures
        ({
            let measured = Reply::Usage { percent, gigabytes };
            let after = model::state_after_reply(s, measured);
            &&& world::run(w, model::commands_after_reply(s, measured)) == (World {
                window: Window { needs_painting: true, ..w.window },
                ..w
            })
            &&& after == (StateView {
                cpu_text: after.cpu_text,
                ram_text: after.ram_text,
                ..s
            })
            &&& labels::reads(after.cpu_text, seq!['C', 'P', 'U', ' '], percent, 5, '%')
            &&& labels::reads(after.ram_text, seq!['R', 'A', 'M', ' '], gigabytes, 4, 'G')
        }),
{
    reveal_with_fuel(world::after_first, 2);
    labels::law_cpu_line_shows_the_number(percent);
    labels::law_ram_line_shows_the_number(gigabytes);
}

/// The default erasing of the background is suppressed, with and without a state,
/// and nothing else happens.
pub proof fn law_erasing_is_suppressed(w: World, state: Option<StateView>, m: Message)
    requires
        m.msg == WM_ERASEBKGND,
    ensures
        world::run(w, model::commands_for(state, m)) == w,
        model::state_after(state, m) == state,
        model::next_for(state, m) == (Next::<Seq<u16>>::Return { result: 1 }),
{
}

/// The first half of a painting: the background is filled with the colour of the
/// panel, or with the transparent one, and the CPU line stands on it alone, green
/// and in the overlay's font. The width of that same text is asked for.
pub proof fn law_painting_begins_with_the_cpu_line(w: World, s: StateView, m: Message)
    requires
        m.msg == WM_PAINT,
    ensures
        world::run(w, model::commands_for(Some(s), m)) == (World {
            canvas: Canvas {
                painting: true,
                background: Some(
                    if s.config.show_background {
                        BG_COLOR
                    } else {
                        KEY_COLOR
                    },
                ),
                lines: seq![
                    Line {
                        x: 10,
                        y: 9,
                        text: wide::utf16(s.cpu_text),
                        color: Some(CPU_COLOR),
                        font: Some(s.font),
                        see_through: true,
                    },
                ],
                color: Some(CPU_COLOR),
                font: Some(s.font),
                see_through: true,
            },
            ..w
        }),
        model::state_after(Some(s), m) == Some(s),
        model::next_for(Some(s), m) == (Next::Await {
            query: Query::TextExtent { text: wide::utf16(s.cpu_text) },
        }),
{
    reveal_with_fuel(world::after_first, 7);
    let after = world::run(w, model::commands_for(Some(s), m));
    assert(after.canvas.lines =~= seq![after.canvas.lines[0]]);
}

/// The second half of a painting: the RAM line is added in amber, on one level
/// with the CPU line and right of it by that line's width and a gap. The font is
/// given back, and the painting ends. Nothing else changes. A coordinate that
/// does not fit into 32 bits wraps around.
pub proof fn law_painting_ends_with_the_ram_line(w: World, s: StateView, size: Size)
    requires
        w.canvas.painting,
    ensures
        ({
            let after = world::run(w, model::commands_after_reply(s, Reply::TextExtent { size }));
            let line = after.canvas.lines.last();
            &&& after == (World {
                canvas: Canvas {
                    painting: false,
                    lines: w.canvas.lines.push(
                        Line {
                            x: line.x,
                            y: 9,
                            text: wide::utf16(s.ram_text),
                            color: Some(RAM_COLOR),
                            font: w.canvas.font,
                            see_through: w.canvas.see_through,
                        },
                    ),
                    color: Some(RAM_COLOR),
                    font: None,
                    ..w.canvas
                },
                window: Window { needs_painting: false, ..w.window },
                ..w
            })
            &&& (line.x - (10 + size.cx + 18)) % 0x1_0000_0000 == 0
            &&& 10 + size.cx + 18 <= i32::MAX ==> line.x == 10 + size.cx + 18
        }),
        model::state_after_reply(s, Reply::TextExtent { size }) == s,
{
    reveal_with_fuel(world::after_first, 5);
    let after = world::run(w, model::commands_after_reply(s, Reply::TextExtent { size }));
    assert(after.canvas.lines =~= w.canvas.lines.push(after.canvas.lines.last()));
}

/// A whole painting can be read: it leaves exactly the two lines, the CPU line in
/// green and the RAM line in amber, both in the overlay's font and in a colour
/// other than what is behind them.
pub proof fn law_painted_lines_are_visible(w: World, s: StateView, m: Message, size: Size)
    requires
        m.msg == WM_PAINT,
    ensures
        ({
            let begun = world::run(w, model::commands_for(Some(s), m));
            let after = world::run(
                begun,
                model::commands_after_reply(s, Reply::TextExtent { size }),
            );
            let lines = after.canvas.lines;
            &&& !after.canvas.painting
            &&& after.canvas.font is None
            &&& lines.len() == 2
            &&& lines[0].text == wide::utf16(s.cpu_text)
            &&& lines[1].text == wide::utf16(s.ram_text)
            &&& lines[0].color == Some(CPU_COLOR)
            &&& lines[1].color == Some(RAM_COLOR)
            &&& forall|i: int|
                0 <= i < 2 ==> {
                    &&& (#[trigger] lines[i]).color != after.canvas.background
                    &&& lines[i].font == Some(s.font)
                    &&& lines[i].see_through
                }
        }),
{
    law_painting_begins_with_the_cpu_line(w, s, m);
    let begun = world::run(w, model::commands_for(Some(s), m));
    law_painting_ends_with_the_ram_line(begun, s, size);
}

// ---------------------------------------------------------------------------
// End, and no state
// ---------------------------------------------------------------------------

/// When the window is destroyed, what the overlay holds of the system is given
/// back: the timer, the hotkeys, the tray icon, the font, and the menu where
/// there is one. The program ends without an error. Nothing else changes.
pub proof fn law_destruction_gives_everything_back(w: World, s: StateView, m: Message)
    requires
        m.msg == WM_DESTROY,
    ensures
        world::run(w, model::commands_for(Some(s), m)) == (World {
            timers: w.timers.remove(TIMER_ID),
            hotkeys: w.hotkeys.remove(HOTKEY_BG_ID).remove(HOTKEY_TOPMOST_ID).remove(
                HOTKEY_CLICKTHROUGH_ID,
            ),
            tray_icon: false,
            fonts: w.fonts.remove(s.font),
            menus: if s.tray_menu != 0 {
                w.menus.remove(s.tray_menu)
            } else {
                w.menus
            },
            exit: Some(0),
            ..w
        }),
        model::state_after(Some(s), m) is None,
        model::next_for(Some(s), m) == (Next::<Seq<u16>>::Return { result: 0 }),
{
    reveal_with_fuel(world::after_first, 9);
    let commands = model::commands_for(Some(s), m);
    assert(commands.len() == if s.tray_menu != 0 {
        8nat
    } else {
        7nat
    });
}

/// Without a state, a painting shows the transparent colour alone, a tick of the
/// timer asks for painting, and destruction gives back all but what the state
/// would hold. Every other message changes nothing. A message never makes a
/// state, and never asks.
pub proof fn law_messages_without_state(w: World, m: Message)
    ensures
        world::run(w, model::commands_for(None, m)) == if m.msg == WM_PAINT {
            World {
                canvas: Canvas {
                    painting: false,
                    background: Some(KEY_COLOR),
                    lines: seq![],
                    color: None,
                    font: None,
                    see_through: false,
                },
                window: Window { needs_painting: false, ..w.window },
                ..w
            }
        } else if m.msg == WM_TIMER {
            World { window: Window { needs_painting: true, ..w.window }, ..w }
        } else if m.msg == WM_DESTROY {
            World {
                timers: w.timers.remove(TIMER_ID),
                hotkeys: w.hotkeys.remove(HOTKEY_BG_ID).remove(HOTKEY_TOPMOST_ID).remove(
                    HOTKEY_CLICKTHROUGH_ID,
                ),
                tray_icon: false,
                exit: Some(0),
                ..w
            }
        } else {
            w
        },
        model::state_after(None, m) is None,
        model::next_for(None, m) !is Await,
{
    reveal_with_fuel(world::after_first, 7);
    let commands = model::commands_for(None, m);
    if m.msg == WM_DESTROY {
        assert(commands.len() == 6);
    }
}

/// The messages that the overlay answers itself, and with what: 1 for the erasing
/// of the background, 0 for the others unless there is something to ask first.
/// All other messages are left to the default handling and change nothing.
pub proof fn law_results(w: World, state: Option<StateView>, m: Message)
    ensures
        ({
            let own = m.msg == WM_TIMER || m.msg == WM_ERASEBKGND || m.msg == WM_PAINT || m.msg
                == WM_LBUTTONDOWN || m.msg == WM_LBUTTONUP || m.msg == WM_MOUSEMOVE || m.msg
                == WM_HOTKEY || m.msg == WM_TRAYICON || m.msg == WM_COMMAND || m.msg == WM_DESTROY;
            &&& own ==> model::next_for(state, m) !is Default
            &&& !own ==> {
                &&& model::next_for(state, m) is Default
                &&& model::state_after(state, m) == state
                &&& world::run(w, model::commands_for(state, m)) == w
            }
            &&& model::next_for(state, m) matches Next::Return { result } ==> result == if m.msg
                == WM_ERASEBKGND {
                1int
            } else {
                0int
            }
        }),
{
}

/// The answer to a query ends the handling of its message with 0. Where the state
/// is gone meanwhile, the answer changes nothing.
pub proof fn law_answers(w: World, s: StateView, reply: Reply<Seq<char>>)
    ensures
        model::reaction_to_reply(s, reply).next == (Next::<Seq<u16>>::Return { result: 0 }),
        model::reaction_to_reply(s, reply).commands == model::commands_after_reply(s, reply),
        model::issued(Some(s), Event::Reply { reply }) == model::commands_after_reply(s, reply),
        model::state_next(Some(s), Event::Reply { reply }) == Some(
            model::state_after_reply(s, reply),
        ),
        world::run(w, model::issued(None, Event::Reply { reply })) == w,
        model::state_next(None, Event::Reply { reply }) is None,
{
}

/// The reaction to a message is its commands and how its handling goes on.
pub proof fn law_reaction(state: Option<StateView>, m: Message)
    ensures
        model::reaction_to(state, m).commands == model::commands_for(state, m),
        model::reaction_to(state, m).next == model::next_for(state, m),
{
}

/// A reply can be represented exactly where its coordinates come out without
/// wrapping around.
pub proof fn law_representable(s: StateView, reply: Reply<Seq<char>>)
    ensures
        model::representable(s, reply) == match reply {
            Reply::TextExtent { size } => 10 + size.cx + 18 <= 0x7FFF_FFFF,
            Reply::DragCursor { at } => {
                &&& -0x8000_0000 <= at.x - s.drag_x <= 0x7FFF_FFFF
                &&& -0x8000_0000 <= at.y - s.drag_y <= 0x7FFF_FFFF
            },
            _ => true,
        },
{
}

} // verus!
