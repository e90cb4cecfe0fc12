//! Decision logic of a desktop overlay that shows CPU and RAM usage.
//!
//! The window procedure is a function from the state and a message, or from the
//! state and the answer to a query, to the next state and a list of commands:
//! [`window`] computes it, [`model`] says what it is, [`effects`] says what each
//! step brings about in the [`world`] outside, and [`laws`] says what follows for
//! a running overlay. The other modules hold what it is made of.
//! Whoever owns the window carries out the commands and answers the queries.

pub mod command;
pub mod config;
pub mod effects;
pub mod icon;
pub mod ids;
pub mod labels;
pub mod laws;
pub mod model;
pub mod params;
pub mod startup;
pub mod state;
pub mod tray;
pub mod wide;
pub mod win32;
pub mod window;
pub mod world;
