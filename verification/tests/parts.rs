//! Parameters, texts, settings, tray, icon search and start.

use overlay_stats::config::{
    config_path, ex_style_from_config, load_config, topmost_hwnd, Config, CONFIG_FILE,
};
use overlay_stats::icon::{
    after_check, after_default, after_load, first_step, icon_path_candidates, image_request,
    IconStep, ICON_FILE,
};
use overlay_stats::labels::{cpu_label, ram_label, CPU_PLACEHOLDER, RAM_PLACEHOLDER};
use overlay_stats::params::{hotkey_id, loword, lp_x, lp_y, tray_event};
use overlay_stats::startup::{font_spec, window_setup, window_spec, SetupStep};
use overlay_stats::state::AppState;
use overlay_stats::tray::{add_tray_icon, create_tray_menu, remove_tray_icon};
use overlay_stats::wide::{copy_wide_into, encode_wide, with_terminator};

#[test]
fn coordinates_are_unpacked() {
    let l: isize = 0x0014_0064;
    assert_eq!((lp_x(l), lp_y(l)), (100, 20));
}

#[test]
fn negative_coordinates_are_unpacked() {
    let l: isize = 0xFFFE_FFFFu32 as isize;
    assert_eq!((lp_x(l), lp_y(l)), (-1, -2));
    assert_eq!((lp_x(-1), lp_y(-1)), (-1, -1));
    let l: isize = 0x8000_7FFFu32 as isize;
    assert_eq!((lp_x(l), lp_y(l)), (32767, -32768));
}

#[test]
fn words_are_unpacked() {
    assert_eq!(loword(0x1_03E9), 1001);
    assert_eq!(loword(0xFFFF), 0xFFFF);
    assert_eq!(hotkey_id(3), 3);
    assert_eq!(hotkey_id(0xFFFF_FFFF), -1);
    assert_eq!(tray_event(0x0205), 0x0205);
    assert_eq!(tray_event(0x0001_007B), 0x007B);
    assert_eq!(tray_event(-1), 0xFFFF);
}

#[test]
fn encoding_agrees_with_std() {
    for text in ["", "Overlay Stats", "\u{E9}\u{FFFF}", "a\u{1F600}b", "\u{10000}\u{10FFFF}"] {
        let expected: Vec<u16> = text.encode_utf16().collect();
        assert_eq!(encode_wide(text), expected);
    }
    assert_eq!(encode_wide("\u{1F600}"), vec![0xD83D, 0xDE00]);
    assert_eq!(with_terminator(encode_wide("A")), vec![65, 0]);
}

#[test]
fn short_text_is_copied_whole() {
    let mut dst = [7u16; 5];
    copy_wide_into(&mut dst, "ab");
    assert_eq!(dst, [97, 98, 0, 7, 7]);
    copy_wide_into(&mut dst, "");
    assert_eq!(dst, [0, 98, 0, 7, 7]);
}

#[test]
fn long_text_is_cut_off() {
    let mut dst = [7u16; 3];
    copy_wide_into(&mut dst, "abc");
    assert_eq!(dst, [97, 98, 0]);
    copy_wide_into(&mut dst, "xyzzy");
    assert_eq!(dst, [120, 121, 0]);
    let mut one = [7u16; 1];
    copy_wide_into(&mut one, "a");
    assert_eq!(one, [0]);
    let mut split = [7u16; 2];
    copy_wide_into(&mut split, "\u{1F600}");
    assert_eq!(split, [0xD83D, 0]);
}

#[test]
fn defaults() {
    let config = Config::default();
    assert_eq!((config.x, config.y), (100, 20));
    assert!(config.click_through);
    assert!(!config.always_on_top);
    assert!(!config.show_background);
}

#[test]
fn stored_settings_win_over_defaults() {
    assert_eq!(load_config(None), Config::default());
    let stored = Config { x: -5, y: 7, click_through: false, always_on_top: true, show_background: true };
    assert_eq!(load_config(Some(stored)), stored);
}

#[test]
fn settings_stand_beside_the_executable() {
    assert_eq!(config_path(Some("app/config.json"), "config.json"), "app/config.json");
    assert_eq!(config_path(None, "config.json"), "config.json");
    assert_eq!((CONFIG_FILE, ICON_FILE), ("config.json", "icon.ico"));
}

#[test]
fn styles() {
    let mut config = Config::default();
    assert_eq!(ex_style_from_config(&config), 0x8_00A0);
    config.always_on_top = true;
    assert_eq!(ex_style_from_config(&config), 0x8_00A8);
    config.click_through = false;
    assert_eq!(ex_style_from_config(&config), 0x8_0088);
    config.always_on_top = false;
    assert_eq!(ex_style_from_config(&config), 0x8_0080);
    assert_eq!(topmost_hwnd(true), -1);
    assert_eq!(topmost_hwnd(false), -2);
}

#[test]
fn labels_are_aligned() {
    for cpu in [0.0f32, 7.25, 42.5, 100.0, 12345.6] {
        assert_eq!(cpu_label(&format!("{:.1}", cpu)), format!("CPU {:>5.1}%", cpu));
    }
    for ram in [0.0f32, 7.25, 15.875, 128.0] {
        assert_eq!(ram_label(&format!("{:.2}", ram)), format!("RAM {:>4.2}G", ram));
    }
    assert_eq!(cpu_label("7.2"), "CPU   7.2%");
    assert_eq!(cpu_label("100.0"), "CPU 100.0%");
    assert_eq!(ram_label("7.25"), "RAM 7.25G");
    assert_eq!(ram_label("1.2"), "RAM  1.2G");
}

#[test]
fn first_state_shows_placeholders() {
    let config = Config::default();
    let state = AppState::new(config, 5, 6);
    assert_eq!(state.cpu_text, "CPU   -.-% ");
    assert_eq!(state.ram_text, "RAM  -.--G");
    assert_eq!(state.cpu_text, CPU_PLACEHOLDER);
    assert_eq!(state.ram_text, RAM_PLACEHOLDER);
    assert!(!state.dragging);
    assert_eq!((state.drag_x, state.drag_y), (0, 0));
    assert_eq!((state.tray_menu, state.font), (5, 6));
    assert_eq!(state.config, config);
}

#[test]
fn menu_has_settings_and_quit() {
    let menu = create_tray_menu(Some(77));
    assert_eq!(menu.handle, 77);
    assert!(menu.items.iter().all(|i| i.flags == 0));
    let items: Vec<(usize, &str)> = menu.items.iter().map(|i| (i.id, i.label)).collect();
    assert_eq!(items, vec![(1001, "Settings"), (1002, "Quit")]);
}

#[test]
fn menu_may_be_missing() {
    let menu = create_tray_menu(None);
    assert_eq!(menu.handle, 0);
    assert!(menu.items.is_empty());
}

#[test]
fn tray_icon_is_added_and_removed() {
    let (added, versioned) = add_tray_icon(11, 22);
    assert_eq!(added.message, 0);
    assert_eq!((added.data.hwnd, added.data.id, added.data.icon), (11, 1, 22));
    assert_eq!(added.data.flags, 7);
    assert_eq!(added.data.callback_message, 0x8001);
    assert_eq!(added.data.version, 0);
    let tip: Vec<u16> = "Overlay Stats".encode_utf16().collect();
    assert_eq!(added.data.tip[..13], tip[..]);
    assert!(added.data.tip[13..].iter().all(|unit| *unit == 0));

    assert_eq!(versioned.message, 4);
    assert_eq!(versioned.data.version, 4);
    assert_eq!(versioned.data.tip, added.data.tip);

    let removed = remove_tray_icon(11);
    assert_eq!(removed.message, 2);
    assert_eq!((removed.data.hwnd, removed.data.id), (added.data.hwnd, added.data.id));
    assert_eq!((removed.data.flags, removed.data.icon), (0, 0));
}

#[test]
fn icon_candidates_are_ordered() {
    assert_eq!(icon_path_candidates(Some("exe"), Some("cwd")), vec!["exe", "cwd"]);
    assert_eq!(icon_path_candidates(None, Some("cwd")), vec!["cwd"]);
    assert_eq!(icon_path_candidates(Some("exe"), None), vec!["exe"]);
    assert!(icon_path_candidates::<&str>(None, None).is_empty());
}

fn search(files: &[(bool, Option<isize>)], default: Option<isize>) -> isize {
    let mut step = first_step(files.len());
    loop {
        step = match step {
            IconStep::Check { index } => after_check(files.len(), index, files[index].0),
            IconStep::Load { index } => after_load(files.len(), index, files[index].1),
            IconStep::LoadDefault { resource } => {
                assert_eq!(resource, 32512);
                after_default(default)
            }
            IconStep::Use { icon } => return icon,
        };
    }
}

#[test]
fn first_usable_icon_is_used() {
    assert_eq!(search(&[(true, Some(3)), (true, Some(4))], Some(9)), 3);
    assert_eq!(search(&[(false, Some(3)), (true, Some(4))], Some(9)), 4);
    assert_eq!(search(&[(true, None), (true, Some(4))], Some(9)), 4);
    assert_eq!(search(&[(true, Some(0)), (true, Some(4))], Some(9)), 4);
}

#[test]
fn existing_candidates_are_loaded_in_order() {
    let files = [(true, None), (false, Some(5)), (true, Some(0)), (true, Some(7)), (true, Some(8))];
    let mut checked = vec![];
    let mut loaded = vec![];
    let mut step = first_step(files.len());
    let icon = loop {
        step = match step {
            IconStep::Check { index } => {
                checked.push(index);
                after_check(files.len(), index, files[index].0)
            }
            IconStep::Load { index } => {
                loaded.push(index);
                after_load(files.len(), index, files[index].1)
            }
            IconStep::LoadDefault { .. } => after_default(None),
            IconStep::Use { icon } => break icon,
        };
    };
    assert_eq!(icon, 7);
    assert_eq!(checked, vec![0, 1, 2, 3]);
    assert_eq!(loaded, vec![0, 2, 3]);
}

#[test]
fn images_are_loaded_as_small_icons() {
    let request = image_request(encode_wide("C:\\icon.ico"));
    let mut name: Vec<u16> = "C:\\icon.ico".encode_utf16().collect();
    name.push(0);
    assert_eq!(request.name, name);
    assert_eq!(request.kind, 1);
    assert_eq!((request.width, request.height), (16, 16));
    assert_eq!(request.flags, 0x8050);
}

#[test]
fn font_is_consolas() {
    let font = font_spec();
    assert_eq!(font.face, "Consolas");
    assert_eq!((font.height, font.width), (-15, 0));
    assert_eq!((font.escapement, font.orientation), (0, 0));
    assert_eq!(font.weight, 400);
    assert_eq!((font.italic, font.underline, font.strike_out), (0, 0, 0));
    assert_eq!((font.charset, font.out_precision, font.clip_precision), (1, 0, 0));
    assert_eq!((font.quality, font.pitch_and_family), (4, 49));
}

#[test]
fn default_icon_is_the_last_resort() {
    assert_eq!(search(&[(true, None), (false, Some(4))], Some(9)), 9);
    assert_eq!(search(&[], Some(9)), 9);
    assert_eq!(search(&[], None), 0);
}

#[test]
fn window_opens_where_it_was() {
    let config = Config { x: -300, y: 40, ..Config::default() };
    let window = window_spec(&config);
    assert_eq!(window.ex_style, 0x8_00A0);
    assert_eq!(window.style, 0x8000_0000);
    assert_eq!((window.x, window.y), (-300, 40));
    assert_eq!((window.width, window.height), (272, 34));
    assert_eq!((window.class, window.title), ("overlay_cls", "Overlay Stats"));
}

#[test]
fn setup_attaches_state_before_events() {
    assert_eq!(
        window_setup(),
        vec![
            SetupStep::SetColorKey { color: 0, alpha: 0, flags: 1 },
            SetupStep::RoundCorners { width: 272, height: 34, ellipse: 10 },
            SetupStep::AttachState,
            SetupStep::AddTrayIcon,
            SetupStep::RegisterHotKey { hotkey: 1, modifiers: 0, key: 0x77 },
            SetupStep::RegisterHotKey { hotkey: 2, modifiers: 0, key: 0x78 },
            SetupStep::RegisterHotKey { hotkey: 3, modifiers: 0, key: 0x79 },
            SetupStep::StartTimer { timer: 1, period_ms: 1000 },
            SetupStep::Show { command: 4 },
            SetupStep::Update,
        ]
    );
}
