//! What holds of the overlay as a whole.

use vstd::prelude::*;

use crate::command;
use crate::command::{Command, Next, Point, Query, Rect, Reply, Size};
use crate::config;
use crate::config::Config;
use crate::ids::{
    CPU_COLOR, HOTKEY_BG_ID, HOTKEY_CLICKTHROUGH_ID, HOTKEY_TOPMOST_ID, RAM_COLOR, TEXT_GAP, TEXT_X,
    TRAY_MENU_SETTINGS_ID, WM_TRAYICON,
};
use crate::labels;
use crate::model;
use crate::model::{Event, Message};
use crate::params;
use crate::startup;
use crate::startup::{SetupStep, WindowSpec};
use crate::state;
use crate::state::StateView;
use crate::tray;
use crate::wide;
use crate::win32::{
    SWP_FRAMECHANGED, SWP_NOACTIVATE, SWP_NOMOVE, SWP_NOSIZE, VK_F10, VK_F8, VK_F9, WM_CONTEXTMENU,
    WM_DESTROY, WM_HOTKEY, WM_LBUTTONDOWN, WM_LBUTTONUP, WM_MOUSEMOVE, WM_PAINT, WM_RBUTTONUP,
    WM_TIMER, WS_EX_TOPMOST, WS_EX_TRANSPARENT,
};

verus! {

// ---------------------------------------------------------------------------
// Runs
// ---------------------------------------------------------------------------

/// The state after a run of events.
pub open spec fn state_after_run(state: Option<StateView>, events: Seq<Event>) -> Option<StateView>
    decreases events.len(),
{
    if events.len() == 0 {
        state
    } else {
        model::state_next(state_after_run(state, events.drop_last()), events.last())
    }
}

/// What the commands leave behind: the settings file, and how the window is
/// styled and stacked.
pub struct Desktop {
    /// The settings file, where there is one.
    pub stored: Option<Config>,
    pub style: u32,
    pub place: isize,
}

/// The desktop after a command.
pub open spec fn carried_out(desktop: Desktop, command: Command<Seq<u16>>) -> Desktop {
    match command {
        Command::SaveConfig { config } => Desktop { stored: Some(config), ..desktop },
        Command::SetExStyle { style } => Desktop { style, ..desktop },
        Command::SetWindowPos { after, .. } => Desktop { place: after, ..desktop },
        _ => desktop,
    }
}

/// The desktop after a sequence of commands.
pub open spec fn all_carried_out(desktop: Desktop, commands: Seq<Command<Seq<u16>>>) -> Desktop
    decreases commands.len(),
{
    if commands.len() == 0 {
        desktop
    } else {
        carried_out(all_carried_out(desktop, commands.drop_last()), commands.last())
    }
}

/// The desktop after a run of events, each of whose commands are carried out.
pub open spec fn desktop_after_run(
    desktop: Desktop,
    state: Option<StateView>,
    events: Seq<Event>,
) -> Desktop
    decreases events.len(),
{
    if events.len() == 0 {
        desktop
    } else {
        let before = state_after_run(state, events.drop_last());
        all_carried_out(
            desktop_after_run(desktop, state, events.drop_last()),
            model::issued(before, events.last()),
        )
    }
}

/// The desktop shows a configuration: a restart would begin with it, and the
/// window is styled and stacked as it says.
pub open spec fn shows(desktop: Desktop, config: Config) -> bool {
    &&& config::loaded(desktop.stored) == config
    &&& desktop.style == config::ex_style(config)
    &&& desktop.place == config::stacking_place(config.always_on_top)
}

/// Commands that leave the desktop as it is.
pub open spec fn neutral(command: Command<Seq<u16>>) -> bool {
    command !is SaveConfig && command !is SetExStyle && command !is SetWindowPos
}

proof fn lemma_push(desktop: Desktop, commands: Seq<Command<Seq<u16>>>, last: Command<Seq<u16>>)
    ensures
        all_carried_out(desktop, commands.push(last)) == carried_out(
            all_carried_out(desktop, commands),
            last,
        ),
{
    assert(commands.push(last).drop_last() =~= commands);
}

proof fn lemma_neutral(desktop: Desktop, commands: Seq<Command<Seq<u16>>>)
    requires
        forall|i: int| 0 <= i < commands.len() ==> neutral(#[trigger] commands[i]),
    ensures
        all_carried_out(desktop, commands) == desktop,
    decreases commands.len(),
{
    if commands.len() > 0 {
        assert(neutral(commands[commands.len() - 1]));
        assert forall|i: int| 0 <= i < commands.drop_last().len() implies neutral(
            #[trigger] commands.drop_last()[i],
        ) by {
            assert(neutral(commands[i]));
        }
        lemma_neutral(desktop, commands.drop_last());
    }
}

/// After the commands of the widget mode the window is styled and stacked as
/// the configuration says.
proof fn lemma_widget_mode(desktop: Desktop, config: Config)
    ensures
        all_carried_out(desktop, model::widget_mode(config)) == (Desktop {
            style: config::ex_style(config) as u32,
            place: config::stacking_place(config.always_on_top),
            ..desktop
        }),
{
    let mode = model::widget_mode(config);
    lemma_push(desktop, seq![], mode[0]);
    lemma_push(desktop, seq![mode[0]], mode[1]);
    assert(mode =~= seq![mode[0]].push(mode[1]));
    assert(seq![mode[0]] =~= Seq::<Command<Seq<u16>>>::empty().push(mode[0]));
}

proof fn lemma_message_keeps_desktop(desktop: Desktop, s: StateView, m: Message)
    requires
        shows(desktop, s.config),
    ensures
        shows(
            all_carried_out(desktop, model::commands_for(Some(s), m)),
            if m.msg == WM_DESTROY {
                s.config
            } else {
                model::state_after(Some(s), m)->0.config
            },
        ),
{
    let commands = model::commands_for(Some(s), m);
    let id = model::pressed_hotkey(m);
    let config = model::toggled(s.config, id);
    if m.msg == WM_HOTKEY && id == HOTKEY_BG_ID {
        let save = Command::<Seq<u16>>::SaveConfig { config };
        lemma_neutral(desktop, seq![Command::Invalidate]);
        lemma_push(desktop, seq![Command::Invalidate], save);
        assert(commands =~= seq![Command::Invalidate].push(save));
    } else if m.msg == WM_HOTKEY && (id == HOTKEY_TOPMOST_ID || id == HOTKEY_CLICKTHROUGH_ID) {
        lemma_widget_mode(desktop, config);
        lemma_push(desktop, model::widget_mode(config), Command::SaveConfig { config });
    } else {
        assert forall|i: int| 0 <= i < commands.len() implies neutral(#[trigger] commands[i]) by {}
        lemma_neutral(desktop, commands);
    }
}

proof fn lemma_reply_keeps_desktop(desktop: Desktop, s: StateView, reply: Reply<Seq<char>>)
    requires
        shows(desktop, s.config),
    ensures
        shows(
            all_carried_out(desktop, model::commands_after_reply(s, reply)),
            model::state_after_reply(s, reply).config,
        ),
{
    let commands = model::commands_after_reply(s, reply);
    let config = model::state_after_reply(s, reply).config;
    match reply {
        Reply::SettingsBox => {
            let mode = model::widget_mode(config);
            let save = Command::<Seq<u16>>::SaveConfig { config };
            lemma_widget_mode(desktop, config);
            lemma_push(desktop, mode, Command::Invalidate);
            lemma_push(desktop, mode.push(Command::Invalidate), save);
            assert(commands =~= mode.push(Command::Invalidate).push(save));
        },
        Reply::WindowRect { .. } | Reply::DragCursor { .. } => {
            lemma_push(desktop, seq![], commands[0]);
            assert(commands =~= Seq::<Command<Seq<u16>>>::empty().push(commands[0]));
        },
        _ => {
            lemma_neutral(desktop, commands);
        },
    }
}

/// The settings file and the window follow the configuration through every run:
/// as long as the window lives, a restart would begin with the current
/// configuration, and the window is styled and stacked as it says.
pub proof fn law_desktop_follows_configuration(
    desktop: Desktop,
    state: StateView,
    events: Seq<Event>,
)
    requires
        shows(desktop, state.config),
    ensures
        state_after_run(Some(state), events) matches Some(after) ==> shows(
            desktop_after_run(desktop, Some(state), events),
            after.config,
        ),
    decreases events.len(),
{
    if events.len() > 0 {
        law_desktop_follows_configuration(desktop, state, events.drop_last());
        if let Some(before) = state_after_run(Some(state), events.drop_last()) {
            let reached = desktop_after_run(desktop, Some(state), events.drop_last());
            match events.last() {
                Event::Message { m } => lemma_message_keeps_desktop(reached, before, m),
                Event::Reply { reply } => lemma_reply_keeps_desktop(reached, before, reply),
            }
        }
    }
}

/// Ending the overlay changes neither the settings file nor anything else of
/// what the configuration says: the next start begins where this one ended.
pub proof fn law_quitting_keeps_settings(desktop: Desktop, s: StateView, m: Message)
    requires
        shows(desktop, s.config),
        m.msg == WM_DESTROY,
    ensures
        model::state_after(Some(s), m) is None,
        config::loaded(all_carried_out(desktop, model::commands_for(Some(s), m)).stored)
            == s.config,
{
    lemma_message_keeps_desktop(desktop, s, m);
}

/// The position survives a restart: when the button is released with the window
/// at `rect`, the settings file then says so, with all other settings unchanged.
pub proof fn law_position_is_saved(desktop: Desktop, s: StateView, release: Message, rect: Rect)
    requires
        release.msg == WM_LBUTTONUP,
    ensures
        model::next_for(Some(s), release) == (Next::<Seq<u16>>::Await { query: Query::WindowRect }),
        ({
            let released = model::state_after(Some(s), release)->0;
            let commands = model::commands_after_reply(released, Reply::WindowRect { rect });
            config::loaded(all_carried_out(desktop, commands).stored) == (Config {
                x: rect.left,
                y: rect.top,
                ..s.config
            })
        }),
{
    let released = model::state_after(Some(s), release)->0;
    let commands = model::commands_after_reply(released, Reply::WindowRect { rect });
    lemma_push(desktop, seq![], commands[0]);
    assert(commands =~= Seq::<Command<Seq<u16>>>::empty().push(commands[0]));
}

// ---------------------------------------------------------------------------
// Whole messages
// ---------------------------------------------------------------------------

/// Whether `reply` answers the query that a message ends with, where there is
/// one.
pub open spec fn answered(s: StateView, m: Message, reply: Reply<Seq<char>>) -> bool {
    model::next_for(Some(s), m) matches Next::Await { query } ==> command::answers(query, reply)
}

/// All commands that a message leads to, with those after the answer to its
/// query.
pub open spec fn whole(s: StateView, m: Message, reply: Reply<Seq<char>>) -> Seq<
    Command<Seq<u16>>,
> {
    if model::next_for(Some(s), m) is Await {
        model::commands_for(Some(s), m) + model::issued(
            model::state_after(Some(s), m),
            Event::Reply { reply },
        )
    } else {
        model::commands_for(Some(s), m)
    }
}

/// The state after a message, and after the answer to its query.
pub open spec fn state_after_whole(s: StateView, m: Message, reply: Reply<Seq<char>>) -> Option<
    StateView,
> {
    if model::next_for(Some(s), m) is Await {
        model::state_next(model::state_after(Some(s), m), Event::Reply { reply })
    } else {
        model::state_after(Some(s), m)
    }
}

/// The messages after which the settings are saved: the release of the button,
/// the hotkeys, and the Settings entry of the tray menu.
pub open spec fn saves_settings(m: Message) -> bool {
    ||| m.msg == WM_LBUTTONUP
    ||| m.msg == WM_HOTKEY && (model::pressed_hotkey(m) == HOTKEY_BG_ID || model::pressed_hotkey(m)
        == HOTKEY_TOPMOST_ID || model::pressed_hotkey(m) == HOTKEY_CLICKTHROUGH_ID)
    ||| model::chooses(m, TRAY_MENU_SETTINGS_ID)
}

/// The settings that a sequence of commands saves, in order.
pub open spec fn saved(commands: Seq<Command<Seq<u16>>>) -> Seq<Config>
    decreases commands.len(),
{
    if commands.len() == 0 {
        seq![]
    } else {
        match commands.last() {
            Command::SaveConfig { config } => saved(commands.drop_last()).push(config),
            _ => saved(commands.drop_last()),
        }
    }
}

proof fn lemma_nothing_saved(commands: Seq<Command<Seq<u16>>>)
    requires
        forall|i: int| 0 <= i < commands.len() ==> #[trigger] commands[i] !is SaveConfig,
    ensures
        saved(commands) == Seq::<Config>::empty(),
    decreases commands.len(),
{
    if commands.len() > 0 {
        assert(commands[commands.len() - 1] !is SaveConfig);
        let front = commands.drop_last();
        assert forall|i: int| 0 <= i < front.len() implies #[trigger] front[i] !is SaveConfig by {
            assert(commands[i] !is SaveConfig);
        }
        lemma_nothing_saved(front);
    }
}

/// The settings are saved once per message, with the values that they have in
/// the end, and exactly for the messages that may change them.
pub proof fn law_settings_are_saved_once(s: StateView, m: Message, reply: Reply<Seq<char>>)
    requires
        answered(s, m, reply),
    ensures
        saves_settings(m) ==> state_after_whole(s, m, reply) is Some,
        saves_settings(m) ==> saved(whole(s, m, reply)) == seq![
            state_after_whole(s, m, reply)->0.config,
        ],
        !saves_settings(m) ==> saved(whole(s, m, reply)).len() == 0,
{
    let commands = whole(s, m, reply);
    if saves_settings(m) {
        let front = commands.drop_last();
        assert(commands.last() == (Command::<Seq<u16>>::SaveConfig {
            config: state_after_whole(s, m, reply)->0.config,
        }));
        assert forall|i: int| 0 <= i < front.len() implies #[trigger] front[i] !is SaveConfig by {}
        lemma_nothing_saved(front);
    } else {
        assert forall|i: int|
            0 <= i < commands.len() implies #[trigger] commands[i] !is SaveConfig by {}
        lemma_nothing_saved(commands);
    }
}

/// A message for which the settings are not saved leaves them as they are.
pub proof fn law_unsaved_settings_do_not_change(s: StateView, m: Message, reply: Reply<Seq<char>>)
    requires
        answered(s, m, reply),
        !saves_settings(m),
    ensures
        state_after_whole(s, m, reply) matches Some(after) ==> after.config == s.config,
{
}

// ---------------------------------------------------------------------------
// Dispatch
// ---------------------------------------------------------------------------

/// Exactly the messages that the overlay does not handle are left to the default
/// handling, and those change nothing.
pub proof fn law_unhandled_messages_go_to_default(state: Option<StateView>, m: Message)
    ensures
        (model::next_for(state, m) is Default) == !model::handled(m.msg),
        !model::handled(m.msg) ==> model::state_after(state, m) == state,
        !model::handled(m.msg) ==> model::commands_for(state, m).len() == 0,
{
}

/// Without a state a message asks nothing, attaches no state, and neither saves
/// settings nor changes how the window is styled, stacked or placed.
pub proof fn law_messages_without_state_are_harmless(m: Message)
    ensures
        model::state_after(None, m) is None,
        model::next_for(None, m) !is Await,
        forall|i: int|
            0 <= i < model::commands_for(None, m).len() ==> neutral(
                #[trigger] model::commands_for(None, m)[i],
            ),
{
}

/// A state ends with the window and not before.
pub proof fn law_state_lives_as_long_as_the_window(s: StateView, event: Event)
    ensures
        model::state_next(Some(s), event) is None <==> (event matches Event::Message { m } && m.msg
            == WM_DESTROY),
{
}

/// Every answer ends the handling of its message.
pub proof fn law_messages_take_at_most_two_steps(s: StateView, reply: Reply<Seq<char>>)
    ensures
        model::reaction_to_reply(s, reply).next == (Next::<Seq<u16>>::Return { result: 0 }),
{
}

/// The place where the window was grabbed always stays within 16 bits.
pub proof fn law_state_stays_well_formed(state: StateView, events: Seq<Event>)
    requires
        state.well_formed(),
    ensures
        state_after_run(Some(state), events) matches Some(after) ==> after.well_formed(),
    decreases events.len(),
{
    if events.len() > 0 {
        law_state_stays_well_formed(state, events.drop_last());
        if let Some(before) = state_after_run(Some(state), events.drop_last()) {
            if let Event::Message { m } = events.last() {
                assert(-0x8000 <= params::signed16(params::low_word(m.lp as int)) < 0x8000);
                assert(-0x8000 <= params::signed16(params::high_word(m.lp as int)) < 0x8000);
            }
        }
    }
}

/// The handles that the state was made with stay in it for as long as it lives,
/// so the font and the menu that are released in the end are those of the start.
pub proof fn law_handles_are_kept(state: StateView, events: Seq<Event>)
    ensures
        state_after_run(Some(state), events) matches Some(after) ==> after.font == state.font
            && after.tray_menu == state.tray_menu,
    decreases events.len(),
{
    if events.len() > 0 {
        law_handles_are_kept(state, events.drop_last());
    }
}

/// A state that was given up does not come back.
pub proof fn law_end_is_final(events: Seq<Event>)
    ensures
        state_after_run(None, events) is None,
    decreases events.len(),
{
    if events.len() > 0 {
        law_end_is_final(events.drop_last());
    }
}

/// Each part of the state has one source: only a measurement changes the lines,
/// and only the place of the window at the end of a drag changes the configured
/// position.
pub proof fn law_one_source_of_change(s: StateView, event: Event)
    ensures
        model::state_next(Some(s), event) matches Some(after) ==> {
            &&& !(event matches Event::Reply { reply } && reply is Usage) ==> after.cpu_text
                == s.cpu_text && after.ram_text == s.ram_text
            &&& !(event matches Event::Reply { reply } && reply is WindowRect) ==> after.config.x
                == s.config.x && after.config.y == s.config.y
        },
{
}

// ---------------------------------------------------------------------------
// Dragging
// ---------------------------------------------------------------------------

/// An event that neither grabs nor lets go of the window, nor ends it.
pub open spec fn keeps_grip(event: Event) -> bool {
    match event {
        Event::Message { m } => m.msg != WM_LBUTTONDOWN && m.msg != WM_LBUTTONUP && m.msg
            != WM_DESTROY,
        Event::Reply { .. } => true,
    }
}

/// The grip is kept through every such run.
proof fn lemma_grip_is_kept(s: StateView, events: Seq<Event>)
    requires
        forall|i: int| 0 <= i < events.len() ==> keeps_grip(#[trigger] events[i]),
    ensures
        state_after_run(Some(s), events) is Some,
        state_after_run(Some(s), events)->0.dragging == s.dragging,
        state_after_run(Some(s), events)->0.drag_x == s.drag_x,
        state_after_run(Some(s), events)->0.drag_y == s.drag_y,
    decreases events.len(),
{
    if events.len() > 0 {
        assert(keeps_grip(events[events.len() - 1]));
        assert forall|i: int| 0 <= i < events.drop_last().len() implies keeps_grip(
            #[trigger] events.drop_last()[i],
        ) by {
            assert(keeps_grip(events[i]));
        }
        lemma_grip_is_kept(s, events.drop_last());
    }
}

/// The window follows the cursor without drift: whatever happens between the
/// press and a move, the window goes to where the point that was grabbed lies
/// under the cursor again.
pub proof fn law_window_follows_cursor(
    s: StateView,
    press: Message,
    between: Seq<Event>,
    move_to: Message,
    at: Point,
)
    requires
        press.msg == WM_LBUTTONDOWN,
        forall|i: int| 0 <= i < between.len() ==> keeps_grip(#[trigger] between[i]),
        move_to.msg == WM_MOUSEMOVE,
        i32::MIN <= at.x - params::signed16(params::low_word(press.lp as int)) <= i32::MAX,
        i32::MIN <= at.y - params::signed16(params::high_word(press.lp as int)) <= i32::MAX,
    ensures
        ({
            let grabbed = state_after_run(model::state_after(Some(s), press), between);
            let commands = model::commands_after_reply(grabbed->0, Reply::DragCursor { at });
            &&& grabbed is Some
            &&& model::representable(grabbed->0, Reply::DragCursor { at })
            &&& model::next_for(grabbed, move_to) == (Next::<Seq<u16>>::Await {
                query: Query::DragCursor,
            })
            &&& commands.len() == 1
            &&& commands[0] matches Command::SetWindowPos { x, y, .. } && {
                &&& x + params::signed16(params::low_word(press.lp as int)) == at.x
                &&& y + params::signed16(params::high_word(press.lp as int)) == at.y
            }
        }),
{
    let grip = model::state_after(Some(s), press)->0;
    assert(-0x8000 <= params::signed16(params::low_word(press.lp as int)) < 0x8000);
    assert(-0x8000 <= params::signed16(params::high_word(press.lp as int)) < 0x8000);
    lemma_grip_is_kept(grip, between);
}

/// The window is moved only while it is being dragged: of all the commands that a
/// message leads to, the answer to its query included, one that moves the window
/// comes only from a mouse move during a drag.
pub proof fn law_only_a_drag_moves_the_window(
    s: StateView,
    m: Message,
    reply: Reply<Seq<char>>,
    i: int,
)
    requires
        answered(s, m, reply),
        0 <= i < whole(s, m, reply).len(),
        whole(s, m, reply)[i] matches Command::SetWindowPos { flags, .. } && flags & SWP_NOMOVE
            == 0,
    ensures
        m.msg == WM_MOUSEMOVE,
        s.dragging,
{
    let stay = SWP_NOMOVE | SWP_NOSIZE | SWP_NOACTIVATE | SWP_FRAMECHANGED;
    assert((2u32 | 1 | 16 | 32) & 2 != 0) by (bit_vector);
    assert(stay & SWP_NOMOVE != 0);
}

/// An event that does not grab the window.
pub open spec fn no_press(event: Event) -> bool {
    event matches Event::Message { m } ==> m.msg != WM_LBUTTONDOWN
}

/// Without a press no drag begins: from a state that is not dragging, through
/// every run without one, the state is not dragging, and no mouse move does
/// anything.
pub proof fn law_no_drag_without_press(state: StateView, events: Seq<Event>, move_to: Message)
    requires
        !state.dragging,
        forall|i: int| 0 <= i < events.len() ==> no_press(#[trigger] events[i]),
        move_to.msg == WM_MOUSEMOVE,
    ensures
        state_after_run(Some(state), events) matches Some(after) ==> !after.dragging,
        model::commands_for(state_after_run(Some(state), events), move_to).len() == 0,
        model::next_for(state_after_run(Some(state), events), move_to) == (Next::<
            Seq<u16>,
        >::Return { result: 0 }),
    decreases events.len(),
{
    if events.len() > 0 {
        assert(no_press(events[events.len() - 1]));
        assert forall|i: int| 0 <= i < events.drop_last().len() implies no_press(
            #[trigger] events.drop_last()[i],
        ) by {
            assert(no_press(events[i]));
        }
        law_no_drag_without_press(state, events.drop_last(), move_to);
        if state_after_run(Some(state), events.drop_last()) is None {
            assert(state_after_run(Some(state), events) is None);
        }
    }
}

/// Letting go of the window ends a drag: until the next press, no mouse move
/// does anything.
pub proof fn law_release_ends_a_drag(
    s: StateView,
    release: Message,
    events: Seq<Event>,
    move_to: Message,
)
    requires
        release.msg == WM_LBUTTONUP,
        forall|i: int| 0 <= i < events.len() ==> no_press(#[trigger] events[i]),
        move_to.msg == WM_MOUSEMOVE,
    ensures
        ({
            let reached = state_after_run(model::state_after(Some(s), release), events);
            &&& reached matches Some(after) ==> !after.dragging
            &&& model::commands_for(reached, move_to).len() == 0
            &&& model::next_for(reached, move_to) == (Next::<Seq<u16>>::Return { result: 0 })
        }),
{
    law_no_drag_without_press(model::state_after(Some(s), release)->0, events, move_to);
}

/// A start does not drag: until the first press, no mouse move does anything.
pub proof fn law_start_does_not_drag(
    config: Config,
    tray_menu: isize,
    font: isize,
    events: Seq<Event>,
    move_to: Message,
)
    requires
        forall|i: int| 0 <= i < events.len() ==> no_press(#[trigger] events[i]),
        move_to.msg == WM_MOUSEMOVE,
    ensures
        ({
            let start = state::initial_state(config, tray_menu, font);
            let reached = state_after_run(Some(start), events);
            &&& reached matches Some(after) ==> !after.dragging
            &&& model::commands_for(reached, move_to).len() == 0
            &&& model::next_for(reached, move_to) == (Next::<Seq<u16>>::Return { result: 0 })
        }),
{
    law_no_drag_without_press(state::initial_state(config, tray_menu, font), events, move_to);
}

// ---------------------------------------------------------------------------
// Hotkeys and menu
// ---------------------------------------------------------------------------

/// Pressing the same hotkey twice changes nothing in the end.
pub proof fn law_hotkeys_toggle(s: StateView, m: Message)
    requires
        m.msg == WM_HOTKEY,
    ensures
        model::state_after(model::state_after(Some(s), m), m) == Some(s),
{
}

/// Hotkeys change independent settings: their order does not matter.
pub proof fn law_hotkeys_commute(s: StateView, m: Message, n: Message)
    requires
        m.msg == WM_HOTKEY,
        n.msg == WM_HOTKEY,
    ensures
        model::state_after(model::state_after(Some(s), m), n) == model::state_after(
            model::state_after(Some(s), n),
            m,
        ),
{
}

/// F8 toggles the background panel, F9 whether the window stays on top, and F10
/// whether mouse input falls through: the message of the hotkey under which each
/// key is registered changes that setting and nothing else.
pub proof fn law_function_keys(s: StateView, m: Message, hotkey: i32, key: u32)
    requires
        m.msg == WM_HOTKEY,
        model::pressed_hotkey(m) == hotkey,
        startup::setup_steps().contains(SetupStep::RegisterHotKey { hotkey, modifiers: 0, key }),
    ensures
        model::state_after(Some(s), m) == Some(
            StateView {
                config: Config {
                    show_background: s.config.show_background != (key == VK_F8),
                    always_on_top: s.config.always_on_top != (key == VK_F9),
                    click_through: s.config.click_through != (key == VK_F10),
                    ..s.config
                },
                ..s
            },
        ),
{
    let steps = startup::setup_steps();
    let i = steps.index_of(SetupStep::RegisterHotKey { hotkey, modifiers: 0, key });
    assert(steps[i] == (SetupStep::RegisterHotKey { hotkey, modifiers: 0, key }));
}

/// A right click on the tray icon opens the menu at the cursor. The event is in
/// the low word of the notification, whatever the high word holds beside it.
pub proof fn law_right_click_opens_menu(s: StateView, m: Message, at: Point)
    requires
        m.msg == WM_TRAYICON,
        params::low_word(m.lp as int) == WM_RBUTTONUP || params::low_word(m.lp as int)
            == WM_CONTEXTMENU,
    ensures
        model::next_for(Some(s), m) == (Next::<Seq<u16>>::Await { query: Query::MenuCursor }),
        model::commands_after_reply(s, Reply::MenuCursor { at }).last() matches Command::TrackMenu {
            menu,
            x,
            y,
            ..
        } && menu == s.tray_menu && x == at.x && y == at.y,
{
}

/// A hotkey message that belongs to none of the registered hotkeys is ignored.
pub proof fn law_other_hotkeys_are_ignored(s: StateView, m: Message)
    requires
        m.msg == WM_HOTKEY,
        forall|i: int|
            0 <= i < startup::setup_steps().len() ==> (
            #[trigger] startup::setup_steps()[i] matches SetupStep::RegisterHotKey { hotkey, .. }
                ==> hotkey != model::pressed_hotkey(m)),
    ensures
        model::state_after(Some(s), m) == Some(s),
        model::commands_for(Some(s), m).len() == 0,
        model::next_for(Some(s), m) == (Next::<Seq<u16>>::Return { result: 0 }),
{
    let steps = startup::setup_steps();
    assert(steps[4] is RegisterHotKey);
    assert(steps[5] is RegisterHotKey);
    assert(steps[6] is RegisterHotKey);
}

/// Each entry of the tray menu has its effect: Settings opens the settings box,
/// and Quit destroys the window.
pub proof fn law_menu_entries(s: StateView, m: Message, i: int)
    requires
        0 <= i < tray::menu_items().len(),
        model::chooses(m, tray::menu_items()[i].id),
    ensures
        tray::menu_items()[i].label@ == "Settings"@ ==> model::next_for(Some(s), m) == (Next::<
            Seq<u16>,
        >::Await { query: model::settings_box() }),
        tray::menu_items()[i].label@ == "Quit"@ ==> model::commands_for(Some(s), m) == seq![
            Command::<Seq<u16>>::DestroyWindow,
        ],
{
    reveal_strlit("Settings");
    reveal_strlit("Quit");
    assert("Settings"@.len() != "Quit"@.len());
}

/// After the settings box the window takes mouse input again, whatever was set
/// before: the window's style is changed to one without the bit that lets input
/// through.
pub proof fn law_settings_box_brings_mouse_back(s: StateView)
    ensures
        !model::state_after_reply(s, Reply::SettingsBox).config.click_through,
        model::commands_after_reply(s, Reply::SettingsBox)[0] matches Command::SetExStyle { style }
            && style & WS_EX_TRANSPARENT == 0,
{
    let config = model::state_after_reply(s, Reply::SettingsBox).config;
    config::law_style_shows_settings(config, config::ex_style(config) as u32);
}

// ---------------------------------------------------------------------------
// Painting and end
// ---------------------------------------------------------------------------

/// Without the panel the background has the colour that the start makes
/// transparent; the panel and both lines have other colours, so they are seen.
pub proof fn law_only_the_bare_background_is_transparent(i: int, show: bool)
    requires
        0 <= i < startup::setup_steps().len(),
        startup::setup_steps()[i] is SetColorKey,
    ensures
        startup::setup_steps()[i] matches SetupStep::SetColorKey { color, .. } && {
            &&& (model::background(show) == color) == !show
            &&& CPU_COLOR != color
            &&& RAM_COLOR != color
        },
{
}

/// All commands of painting once, given the extent of the CPU line.
pub open spec fn painting(s: StateView, size: Size) -> Seq<Command<Seq<u16>>> {
    model::paint_commands(Some(s)) + model::commands_after_reply(s, Reply::TextExtent { size })
}

/// Painting is one bracket: it begins and ends once, and gives back the font that
/// it took. In between both lines are drawn, on one level, the RAM line to the
/// right of the CPU line with the gap between them.
pub proof fn law_painting_is_complete(s: StateView, m: Message, size: Size)
    requires
        m.msg == WM_PAINT,
        model::representable(s, Reply::TextExtent { size }),
    ensures
        model::commands_for(Some(s), m) == model::paint_commands(Some(s)),
        model::next_for(Some(s), m) == (Next::Await {
            query: Query::TextExtent { text: wide::utf16(s.cpu_text) },
        }),
        ({
            let all = painting(s, size);
            &&& all.first() is BeginPaint
            &&& all.last() is EndPaint
            &&& forall|i: int| 0 < i < all.len() ==> #[trigger] all[i] !is BeginPaint
            &&& forall|i: int| 0 <= i < all.len() - 1 ==> #[trigger] all[i] !is EndPaint
            &&& all[2] is SelectFont
            &&& all[all.len() - 2] is RestoreFont
            &&& all[5] matches Command::TextOut { x: cpu_x, y: cpu_y, text: cpu }
            &&& all[7] matches Command::TextOut { x: ram_x, y: ram_y, text: ram }
            &&& cpu == wide::utf16(s.cpu_text)
            &&& ram == wide::utf16(s.ram_text)
            &&& cpu_x == TEXT_X
            &&& ram_x == cpu_x + size.cx + TEXT_GAP
            &&& ram_y == cpu_y
        }),
{
}

/// Every tick of the timer takes a measurement, which asks for repainting, and
/// the next painting shows it.
pub proof fn law_measurements_are_shown(
    s: StateView,
    tick: Message,
    percent: Seq<char>,
    gigabytes: Seq<char>,
    size: Size,
)
    requires
        tick.msg == WM_TIMER,
    ensures
        model::next_for(Some(s), tick) == (Next::<Seq<u16>>::Await { query: Query::Usage }),
        ({
            let measured = Reply::Usage { percent, gigabytes };
            let all = painting(model::state_after_reply(s, measured), size);
            &&& model::commands_after_reply(s, measured) == seq![
                Command::<Seq<u16>>::Invalidate,
            ]
            &&& all[5] matches Command::TextOut { text: cpu, .. }
            &&& cpu == wide::utf16(labels::cpu_line(percent))
            &&& all[7] matches Command::TextOut { text: ram, .. }
            &&& ram == wide::utf16(labels::ram_line(gigabytes))
        }),
{
}

/// Whatever the start sets up is taken down again: the timer, each hotkey and
/// the tray icon, and also the font and the menu that the state holds.
pub proof fn law_end_releases_everything(s: StateView, m: Message, i: int)
    requires
        m.msg == WM_DESTROY,
        0 <= i < startup::setup_steps().len(),
    ensures
        ({
            let commands = model::commands_for(Some(s), m);
            &&& match startup::setup_steps()[i] {
                SetupStep::StartTimer { timer, .. } => commands.contains(
                    Command::KillTimer { timer },
                ),
                SetupStep::RegisterHotKey { hotkey, .. } => commands.contains(
                    Command::UnregisterHotKey { hotkey },
                ),
                SetupStep::AddTrayIcon => commands.contains(Command::RemoveTrayIcon),
                _ => true,
            }
            &&& commands.contains(Command::DeleteFont { font: s.font })
            &&& s.tray_menu != 0 ==> commands.contains(Command::DestroyMenu { menu: s.tray_menu })
            &&& commands.last() == (Command::<Seq<u16>>::PostQuit { code: 0 })
        }),
{
    let commands = model::commands_for(Some(s), m);
    assert(commands[0] is KillTimer);
    assert(commands[1] is UnregisterHotKey);
    assert(commands[2] is UnregisterHotKey);
    assert(commands[3] is UnregisterHotKey);
    assert(commands[4] is RemoveTrayIcon);
    assert(commands[5] is DeleteFont);
    assert(s.tray_menu != 0 ==> commands[6] is DestroyMenu);
}

/// The desktop once the window was created. A window is created in the place in
/// the stacking order that its style names.
pub open spec fn created(stored: Option<Config>, window: WindowSpec) -> Desktop {
    Desktop {
        stored,
        style: window.ex_style,
        place: config::stacking_place(window.ex_style & WS_EX_TOPMOST != 0),
    }
}

/// A start shows what was stored: the window opens at the stored position and in
/// the style of the stored settings, and the state begins with those settings.
pub proof fn law_start_shows_configuration(stored: Option<Config>, tray_menu: isize, font: isize)
    ensures
        ({
            let config = config::loaded(stored);
            let window = startup::window_for(config);
            let s = state::initial_state(config, tray_menu, font);
            &&& window.x == config.x
            &&& window.y == config.y
            &&& window.ex_style == config::ex_style(config)
            &&& s.config == config
            &&& s.well_formed()
            &&& shows(created(stored, window), s.config)
        }),
{
    let config = config::loaded(stored);
    config::law_style_shows_settings(config, config::ex_style(config) as u32);
}

/// The window opens again where it was left: the next start, after the button was
/// released with the window at `rect`, creates the window there.
pub proof fn law_window_opens_where_it_was(
    desktop: Desktop,
    s: StateView,
    release: Message,
    rect: Rect,
)
    requires
        release.msg == WM_LBUTTONUP,
    ensures
        ({
            let commands = whole(s, release, Reply::WindowRect { rect });
            let window = startup::window_for(
                config::loaded(all_carried_out(desktop, commands).stored),
            );
            window.x == rect.left && window.y == rect.top
        }),
{
    let commands = whole(s, release, Reply::WindowRect { rect });
    lemma_push(desktop, commands.drop_last(), commands.last());
    assert(commands =~= commands.drop_last().push(commands.last()));
}

} // verus!
