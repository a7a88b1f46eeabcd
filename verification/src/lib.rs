//! Decision logic of an interactive terminal client for serial devices.
//!
//! Input events and device bytes go in, new state and data-only commands
//! come out. The surrounding program owns the terminal and the serial handle
//! and performs what the commands say. The library itself touches neither;
//! of the machine it reads only the clock, for the time on a status line.

pub mod ansi;
pub mod arbiter;
pub mod arg_helpers;
pub mod keyboard_input;
pub mod invariants;
pub mod list_ports;
pub mod log_to_ui;
pub mod menu;
pub mod render;
pub mod serial_connection;
pub mod session;
pub mod text;
