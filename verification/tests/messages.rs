//! The window procedure, message by message.

use overlay_stats::command::{Command, Next, Point, Query, Reaction, Rect, Reply, Size};
use overlay_stats::config::{load_config, Config};
use overlay_stats::ids::{BG_COLOR, CPU_COLOR, KEY_COLOR, RAM_COLOR, WM_TRAYICON};
use overlay_stats::startup::window_spec;
use overlay_stats::state::AppState;
use overlay_stats::win32::{
    WM_COMMAND, WM_CONTEXTMENU, WM_DESTROY, WM_ERASEBKGND, WM_HOTKEY, WM_LBUTTONDOWN,
    WM_LBUTTONUP, WM_MOUSEMOVE, WM_PAINT, WM_RBUTTONUP, WM_TIMER,
};
use overlay_stats::window::{apply_widget_mode, resume, wnd_proc};

const MENU: isize = 70;
const FONT: isize = 90;

fn running() -> Option<AppState> {
    Some(AppState::new(Config::default(), MENU, FONT))
}

fn units(text: &str) -> Vec<u16> {
    text.encode_utf16().collect()
}

fn done(commands: Vec<Command<Vec<u16>>>) -> Reaction {
    Reaction { commands, next: Next::Return { result: 0 } }
}

fn ask(commands: Vec<Command<Vec<u16>>>, query: Query<Vec<u16>>) -> Reaction {
    Reaction { commands, next: Next::Await { query } }
}

fn mode(style: u32, after: isize) -> Vec<Command<Vec<u16>>> {
    vec![
        Command::SetExStyle { style },
        Command::SetWindowPos { after, x: 0, y: 0, cx: 0, cy: 0, flags: 0x33 },
    ]
}

fn settings_box() -> Query<Vec<u16>> {
    Query::SettingsBox {
        message: "Edit config.json to change defaults.\nHotkeys: F8 background, F9 topmost, F10 click-through.",
        caption: "Overlay Stats - Settings",
        style: 0x40,
    }
}

fn config_of(st: &Option<AppState>) -> Config {
    st.as_ref().unwrap().config
}

#[test]
fn timer_measures_and_repaints() {
    let mut st = running();
    assert_eq!(wnd_proc(&mut st, WM_TIMER, 1, 0), ask(vec![], Query::Usage));
    let s = st.as_mut().unwrap();
    let reply = Reply::Usage { percent: "12.5".to_string(), gigabytes: "7.81".to_string() };
    assert!(s.accepts(&reply));
    assert_eq!(s.resume(reply), done(vec![Command::Invalidate]));
    assert_eq!(s.cpu_text, "CPU  12.5%");
    assert_eq!(s.ram_text, "RAM 7.81G");
    assert_eq!(s.config, Config::default());
}

#[test]
fn erase_is_suppressed() {
    let expected = Reaction { commands: vec![], next: Next::Return { result: 1 } };
    assert_eq!(wnd_proc(&mut running(), WM_ERASEBKGND, 0, 0), expected);
    assert_eq!(wnd_proc(&mut None, WM_ERASEBKGND, 0, 0), expected);
}

#[test]
fn painting_draws_both_lines() {
    let mut st = running();
    let cpu = units("CPU   -.-% ");
    assert_eq!(
        wnd_proc(&mut st, WM_PAINT, 0, 0),
        ask(
            vec![
                Command::BeginPaint,
                Command::FillClient { color: KEY_COLOR },
                Command::SelectFont { font: FONT },
                Command::KeepTextBackground,
                Command::SetTextColor { color: CPU_COLOR },
                Command::TextOut { x: 10, y: 9, text: units("CPU   -.-% ") },
            ],
            Query::TextExtent { text: cpu },
        )
    );
    assert_eq!(
        st.as_mut().unwrap().resume(Reply::TextExtent { size: Size { cx: 80, cy: 15 } }),
        done(vec![
            Command::SetTextColor { color: RAM_COLOR },
            Command::TextOut { x: 108, y: 9, text: units("RAM  -.--G") },
            Command::RestoreFont,
            Command::EndPaint,
        ])
    );
}

#[test]
fn panel_is_painted_when_enabled() {
    let mut st = running();
    wnd_proc(&mut st, WM_HOTKEY, 1, 0);
    let reaction = wnd_proc(&mut st, WM_PAINT, 0, 0);
    assert_eq!(reaction.commands[1], Command::FillClient { color: BG_COLOR });
    assert_eq!(BG_COLOR, 0x001E_1E1E);
    assert_eq!(CPU_COLOR, 0x0000_FF00);
    assert_eq!(RAM_COLOR, 0x0000_A5FF);
}

#[test]
fn measured_text_is_painted() {
    let mut st = running();
    st.as_mut().unwrap().resume(Reply::Usage {
        percent: "3.0".to_string(),
        gigabytes: "16.00".to_string(),
    });
    let reaction = wnd_proc(&mut st, WM_PAINT, 0, 0);
    assert_eq!(reaction.next, Next::Await { query: Query::TextExtent { text: units("CPU   3.0%") } });
}

#[test]
fn drag_moves_and_saves() {
    let mut st = running();
    assert_eq!(
        wnd_proc(&mut st, WM_LBUTTONDOWN, 0, 0x0005_0007),
        done(vec![Command::SetCapture])
    );
    assert!(st.as_ref().unwrap().dragging);

    wnd_proc(&mut st, WM_HOTKEY, 2, 0);
    assert_eq!(wnd_proc(&mut st, WM_MOUSEMOVE, 0, 0), ask(vec![], Query::DragCursor));
    assert_eq!(
        st.as_mut().unwrap().resume(Reply::DragCursor { at: Point { x: -100, y: 50 } }),
        done(vec![Command::SetWindowPos { after: -1, x: -107, y: 45, cx: 0, cy: 0, flags: 0x11 }])
    );

    assert_eq!(
        wnd_proc(&mut st, WM_LBUTTONUP, 0, 0),
        ask(vec![Command::ReleaseCapture], Query::WindowRect)
    );
    assert!(!st.as_ref().unwrap().dragging);
    let rect = Rect { left: -107, top: 45, right: 165, bottom: 79 };
    let config = Config { x: -107, y: 45, always_on_top: true, ..Config::default() };
    assert_eq!(
        st.as_mut().unwrap().resume(Reply::WindowRect { rect }),
        done(vec![Command::SaveConfig { config }])
    );
    assert_eq!(config_of(&st), config);
}

#[test]
fn coordinates_that_do_not_fit_wrap_around() {
    let mut st = running();
    wnd_proc(&mut st, WM_LBUTTONDOWN, 0, 0x0000_0001);
    let reaction = resume(&mut st, Reply::DragCursor { at: Point { x: i32::MIN, y: 3 } });
    assert_eq!(
        reaction.commands,
        vec![Command::SetWindowPos { after: -2, x: i32::MAX, y: 3, cx: 0, cy: 0, flags: 0x11 }]
    );
    let size = Size { cx: i32::MAX - 27, cy: 15 };
    let reaction = resume(&mut st, Reply::TextExtent { size });
    assert_eq!(
        reaction.commands[1],
        Command::TextOut { x: i32::MIN, y: 9, text: units("RAM  -.--G") }
    );
}

#[test]
fn release_ends_the_drag_until_the_next_press() {
    let mut st = running();
    wnd_proc(&mut st, WM_LBUTTONDOWN, 0, 0x0001_0001);
    wnd_proc(&mut st, WM_LBUTTONUP, 0, 0);
    wnd_proc(&mut st, WM_HOTKEY, 1, 0);
    resume(&mut st, Reply::SettingsBox);
    assert_eq!(wnd_proc(&mut st, WM_MOUSEMOVE, 0, 0), done(vec![]));
    wnd_proc(&mut st, WM_LBUTTONDOWN, 0, 0x0001_0001);
    assert_eq!(wnd_proc(&mut st, WM_MOUSEMOVE, 0, 0), ask(vec![], Query::DragCursor));
}

#[test]
fn moves_without_drag_do_nothing() {
    let mut st = running();
    assert_eq!(wnd_proc(&mut st, WM_MOUSEMOVE, 0, 0x0001_0001), done(vec![]));
    assert_eq!(st, running());
}

#[test]
fn background_hotkey() {
    let mut st = running();
    let config = Config { show_background: true, ..Config::default() };
    assert_eq!(
        wnd_proc(&mut st, WM_HOTKEY, 1, 0),
        done(vec![Command::Invalidate, Command::SaveConfig { config }])
    );
    assert_eq!(config_of(&st), config);
}

#[test]
fn topmost_hotkey() {
    let mut st = running();
    let config = Config { always_on_top: true, ..Config::default() };
    let mut expected = mode(0x8_00A8, -1);
    expected.push(Command::SaveConfig { config });
    assert_eq!(wnd_proc(&mut st, WM_HOTKEY, 2, 0), done(expected));
    assert_eq!(apply_widget_mode(&config), mode(0x8_00A8, -1));
}

#[test]
fn click_through_hotkey() {
    let mut st = running();
    let config = Config { click_through: false, ..Config::default() };
    let mut expected = mode(0x8_0080, -2);
    expected.push(Command::SaveConfig { config });
    assert_eq!(wnd_proc(&mut st, WM_HOTKEY, 3, 0), done(expected));
}

#[test]
fn hotkeys_toggle_and_commute() {
    for hotkey in [1usize, 2, 3] {
        let mut st = running();
        wnd_proc(&mut st, WM_HOTKEY, hotkey, 0);
        assert!(st != running());
        wnd_proc(&mut st, WM_HOTKEY, hotkey, 0);
        assert_eq!(st, running());
    }
    let mut a = running();
    wnd_proc(&mut a, WM_HOTKEY, 1, 0);
    wnd_proc(&mut a, WM_HOTKEY, 3, 0);
    let mut b = running();
    wnd_proc(&mut b, WM_HOTKEY, 3, 0);
    wnd_proc(&mut b, WM_HOTKEY, 1, 0);
    assert_eq!(a, b);
}

#[test]
fn unknown_hotkeys_do_nothing() {
    let mut st = running();
    assert_eq!(wnd_proc(&mut st, WM_HOTKEY, 0, 0), done(vec![]));
    assert_eq!(wnd_proc(&mut st, WM_HOTKEY, 4, 0), done(vec![]));
    assert_eq!(wnd_proc(&mut st, WM_HOTKEY, 0xFFFF_FFFF, 0), done(vec![]));
    assert_eq!(st, running());
}

#[test]
fn right_click_opens_the_menu() {
    // The event alone, or with the icon's identifier in the high word.
    let bare = [WM_RBUTTONUP as isize, WM_CONTEXTMENU as isize];
    let with_icon: [isize; 2] = [0x0001_0205, 0x0001_007B];
    for lp in bare.into_iter().chain(with_icon) {
        let mut st = running();
        assert_eq!(wnd_proc(&mut st, WM_TRAYICON, 0, lp), ask(vec![], Query::MenuCursor));
        assert_eq!(
            resume(&mut st, Reply::MenuCursor { at: Point { x: 5, y: 6 } }),
            done(vec![
                Command::SetForeground,
                Command::TrackMenu { menu: MENU, flags: 2, x: 5, y: 6 },
            ])
        );
        assert_eq!(st, running());
    }
    for lp in [WM_MOUSEMOVE as isize, 0x0001_0200, 0x0205_0001] {
        assert_eq!(wnd_proc(&mut running(), WM_TRAYICON, 0, lp), done(vec![]));
    }
}

#[test]
fn settings_bring_the_mouse_back() {
    let mut st = running();
    assert_eq!(wnd_proc(&mut st, WM_COMMAND, 1001, 0), ask(vec![], settings_box()));
    let config = Config { click_through: false, ..Config::default() };
    let mut expected = mode(0x8_0080, -2);
    expected.push(Command::Invalidate);
    expected.push(Command::SaveConfig { config });
    assert_eq!(st.as_mut().unwrap().resume(Reply::SettingsBox), done(expected));
    assert_eq!(config_of(&st), config);
}

#[test]
fn quit_destroys_the_window() {
    let mut st = running();
    assert_eq!(wnd_proc(&mut st, WM_COMMAND, 0x1_03EA, 0), done(vec![Command::DestroyWindow]));
    assert_eq!(wnd_proc(&mut st, WM_COMMAND, 1003, 0), done(vec![]));
    assert_eq!(st, running());
}

#[test]
fn destruction_releases_everything() {
    let teardown = || {
        vec![
            Command::KillTimer { timer: 1 },
            Command::UnregisterHotKey { hotkey: 1 },
            Command::UnregisterHotKey { hotkey: 2 },
            Command::UnregisterHotKey { hotkey: 3 },
            Command::RemoveTrayIcon,
        ]
    };

    let mut st = running();
    let mut expected = teardown();
    expected.push(Command::DeleteFont { font: FONT });
    expected.push(Command::DestroyMenu { menu: MENU });
    expected.push(Command::PostQuit { code: 0 });
    assert_eq!(wnd_proc(&mut st, WM_DESTROY, 0, 0), done(expected));
    assert!(st.is_none());

    let mut st = Some(AppState::new(Config::default(), 0, FONT));
    let mut expected = teardown();
    expected.push(Command::DeleteFont { font: FONT });
    expected.push(Command::PostQuit { code: 0 });
    assert_eq!(wnd_proc(&mut st, WM_DESTROY, 0, 0), done(expected));

    let mut expected = teardown();
    expected.push(Command::PostQuit { code: 0 });
    assert_eq!(wnd_proc(&mut None, WM_DESTROY, 0, 0), done(expected));
}

#[test]
fn other_messages_go_to_default_handling() {
    for msg in [0u32, 1, 0x0081, 0x8000, 0x8002, u32::MAX] {
        let mut st = running();
        let reaction = wnd_proc(&mut st, msg, 1, 1);
        assert_eq!(reaction, Reaction { commands: vec![], next: Next::Default });
        assert_eq!(st, running());
    }
}

#[test]
fn messages_without_state() {
    assert_eq!(wnd_proc(&mut None, WM_TIMER, 1, 0), done(vec![Command::Invalidate]));
    assert_eq!(
        wnd_proc(&mut None, WM_PAINT, 0, 0),
        done(vec![
            Command::BeginPaint,
            Command::FillClient { color: KEY_COLOR },
            Command::EndPaint,
        ])
    );
    for msg in [WM_LBUTTONDOWN, WM_LBUTTONUP, WM_MOUSEMOVE, WM_HOTKEY, WM_COMMAND] {
        assert_eq!(wnd_proc(&mut None, msg, 1002, 0), done(vec![]));
    }
    assert_eq!(wnd_proc(&mut None, WM_TRAYICON, 0, WM_RBUTTONUP as isize), done(vec![]));
}

#[test]
fn coordinates_that_do_not_fit_are_not_accepted() {
    let mut st = running();
    wnd_proc(&mut st, WM_LBUTTONDOWN, 0, 0x0000_0001);
    let s = st.as_ref().unwrap();
    let at = |x: i32, y: i32| Reply::<String>::DragCursor { at: Point { x, y } };
    assert!(s.accepts(&at(i32::MIN + 1, i32::MIN)));
    assert!(!s.accepts(&at(i32::MIN, 0)));
    let extent = |cx: i32| Reply::<String>::TextExtent { size: Size { cx, cy: 0 } };
    assert!(s.accepts(&extent(i32::MAX - 28)));
    assert!(!s.accepts(&extent(i32::MAX - 27)));
    assert!(s.accepts(&extent(i32::MIN)));
    assert!(s.accepts(&Reply::SettingsBox));
}

#[test]
fn handles_stay_with_the_state() {
    let mut st = running();
    wnd_proc(&mut st, WM_LBUTTONDOWN, 0, 0x0002_0002);
    wnd_proc(&mut st, WM_HOTKEY, 2, 0);
    st.as_mut().unwrap().resume(Reply::SettingsBox);
    let s = st.as_ref().unwrap();
    assert_eq!((s.tray_menu, s.font), (MENU, FONT));
    assert_eq!((s.config.x, s.config.y), (100, 20));
    assert_eq!(s.cpu_text, "CPU   -.-% ");
}

#[test]
fn ended_overlay_stays_ended() {
    let mut st = running();
    wnd_proc(&mut st, WM_DESTROY, 0, 0);
    wnd_proc(&mut st, WM_LBUTTONDOWN, 0, 0);
    wnd_proc(&mut st, WM_HOTKEY, 1, 0);
    assert!(st.is_none());
}

#[test]
fn last_saved_settings_are_the_current_ones() {
    let mut st = running();
    let mut stored = None;
    let mut style = None;
    let mut reactions = vec![
        wnd_proc(&mut st, WM_HOTKEY, 2, 0),
        wnd_proc(&mut st, WM_HOTKEY, 1, 0),
        wnd_proc(&mut st, WM_LBUTTONDOWN, 0, 0x0001_0001),
        wnd_proc(&mut st, WM_LBUTTONUP, 0, 0),
    ];
    let rect = Rect { left: 5, top: 6, right: 277, bottom: 40 };
    reactions.push(st.as_mut().unwrap().resume(Reply::WindowRect { rect }));
    reactions.push(wnd_proc(&mut st, WM_HOTKEY, 3, 0));
    let current = config_of(&st);
    reactions.push(wnd_proc(&mut st, WM_DESTROY, 0, 0));
    for reaction in &reactions {
        for command in &reaction.commands {
            match command {
                Command::SaveConfig { config } => stored = Some(*config),
                Command::SetExStyle { style: s } => style = Some(*s),
                _ => {}
            }
        }
    }
    let expected =
        Config { x: 5, y: 6, click_through: false, always_on_top: true, show_background: true };
    assert_eq!(current, expected);
    assert_eq!(stored, Some(expected));
    assert_eq!(style, Some(0x8_0088));
}

#[test]
fn answers_after_the_end_are_dropped() {
    let mut st = running();
    assert_eq!(wnd_proc(&mut st, WM_COMMAND, 1001, 0), ask(vec![], settings_box()));
    wnd_proc(&mut st, WM_DESTROY, 0, 0);
    assert_eq!(resume(&mut st, Reply::SettingsBox), done(vec![]));
    let at = Point { x: i32::MIN, y: i32::MIN };
    assert_eq!(resume(&mut st, Reply::DragCursor { at }), done(vec![]));
    assert!(st.is_none());
}

#[test]
fn answers_reach_a_live_state() {
    let mut st = running();
    wnd_proc(&mut st, WM_LBUTTONUP, 0, 0);
    let rect = Rect { left: 1, top: 2, right: 273, bottom: 36 };
    let config = Config { x: 1, y: 2, ..Config::default() };
    assert_eq!(
        resume(&mut st, Reply::WindowRect { rect }),
        done(vec![Command::SaveConfig { config }])
    );
    assert_eq!(config_of(&st), config);
    let window = window_spec(&load_config(Some(config_of(&st))));
    assert_eq!((window.x, window.y, window.ex_style), (1, 2, 0x8_00A0));
}

#[test]
fn settings_are_saved_once_where_they_may_change() {
    let rect = Rect { left: 9, top: 8, right: 281, bottom: 42 };
    let cases: Vec<(u32, usize, bool)> = vec![
        (WM_LBUTTONUP, 0, true),
        (WM_HOTKEY, 1, true),
        (WM_HOTKEY, 2, true),
        (WM_HOTKEY, 3, true),
        (WM_COMMAND, 1001, true),
        (WM_HOTKEY, 4, false),
        (WM_COMMAND, 1002, false),
        (WM_LBUTTONDOWN, 0, false),
        (WM_MOUSEMOVE, 0, false),
        (WM_TIMER, 0, false),
        (WM_PAINT, 0, false),
        (WM_DESTROY, 0, false),
    ];
    for (msg, wp, saves) in cases {
        let mut st = running();
        let first = wnd_proc(&mut st, msg, wp, 0);
        let mut commands = first.commands;
        if let Next::Await { query } = first.next {
            let reply = match query {
                Query::Usage => {
                    Reply::Usage { percent: "1.0".to_string(), gigabytes: "2.00".to_string() }
                }
                Query::TextExtent { .. } => Reply::TextExtent { size: Size { cx: 70, cy: 15 } },
                Query::WindowRect => Reply::WindowRect { rect },
                Query::DragCursor => Reply::DragCursor { at: Point { x: 0, y: 0 } },
                Query::MenuCursor => Reply::MenuCursor { at: Point { x: 0, y: 0 } },
                Query::SettingsBox { .. } => Reply::SettingsBox,
            };
            commands.extend(resume(&mut st, reply).commands);
        }
        let saved: Vec<Config> = commands
            .iter()
            .filter_map(|c| match c {
                Command::SaveConfig { config } => Some(*config),
                _ => None,
            })
            .collect();
        if saves {
            assert_eq!(saved, vec![config_of(&st)]);
        } else {
            assert!(saved.is_empty());
        }
        let moves = commands
            .iter()
            .any(|c| matches!(c, Command::SetWindowPos { flags, .. } if *flags & 2 == 0));
        assert!(!moves);
    }
}
