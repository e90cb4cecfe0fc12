//! The state of a running overlay.

use vstd::prelude::*;

use crate::config::Config;
use crate::labels::{CPU_PLACEHOLDER, RAM_PLACEHOLDER};

verus! {

/// The state that is attached to the window.
#[derive(Debug, PartialEq, Eq)]
pub struct AppState {
    pub cpu_text: String,
    pub ram_text: String,
    pub dragging: bool,
    /// Where inside the window the cursor was when the drag began.
    pub drag_x: i32,
    pub drag_y: i32,
    /// Handle of the tray menu, 0 where there is none.
    pub tray_menu: isize,
    pub config: Config,
    /// Handle of the font of both lines.
    pub font: isize,
}

/// The state, with its texts as character sequences.
#[verifier::ext_equal]
pub struct StateView {
    pub cpu_text: Seq<char>,
    pub ram_text: Seq<char>,
    pub dragging: bool,
    pub drag_x: i32,
    pub drag_y: i32,
    pub tray_menu: isize,
    pub config: Config,
    pub font: isize,
}

impl View for AppState {
    type V = StateView;

    open spec fn view(&self) -> StateView {
        StateView {
            cpu_text: self.cpu_text@,
            ram_text: self.ram_text@,
            dragging: self.dragging,
            drag_x: self.drag_x,
            drag_y: self.drag_y,
            tray_menu: self.tray_menu,
            config: self.config,
            font: self.font,
        }
    }
}

impl StateView {
    /// The place where the window was grabbed comes from a 16-bit field.
    pub open spec fn well_formed(self) -> bool {
        &&& -0x8000 <= self.drag_x < 0x8000
        &&& -0x8000 <= self.drag_y < 0x8000
    }
}

/// The state before the first message.
pub open spec fn initial_state(config: Config, tray_menu: isize, font: isize) -> StateView {
    StateView {
        cpu_text: CPU_PLACEHOLDER@,
        ram_text: RAM_PLACEHOLDER@,
        dragging: false,
        drag_x: 0,
        drag_y: 0,
        tray_menu,
        config,
        font,
    }
}

impl AppState {
    /// The state before the first message.
    pub fn new(config: Config, tray_menu: isize, font: isize) -> (state: Self)
        ensures
            state@ == initial_state(config, tray_menu, font),
            state@.well_formed(),
    {
        AppState {
            cpu_text: CPU_PLACEHOLDER.to_owned(),
            ram_text: RAM_PLACEHOLDER.to_owned(),
            dragging: false,
            drag_x: 0,
            drag_y: 0,
            tray_menu,
            config,
            font,
        }
    }
}

/// The state as far as one is attached.
pub open spec fn attached(state: Option<AppState>) -> Option<StateView> {
    match state {
        Some(s) => Some(s@),
        None => None,
    }
}

/// The state shows every field as it is.
pub proof fn law_view_shows_the_state(state: AppState)
    ensures
        state@.cpu_text == state.cpu_text@,
        state@.ram_text == state.ram_text@,
        state@.dragging == state.dragging,
        state@.drag_x == state.drag_x,
        state@.drag_y == state.drag_y,
        state@.tray_menu == state.tray_menu,
        state@.config == state.config,
        state@.font == state.font,
        attached(Some(state)) == Some(state@),
        attached(None) is None,
{
}

} // verus!
