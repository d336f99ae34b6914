//! Monitor brightness and HDR control for the BrightWheel tray app and the
//! `bright` command-line tool: the conversions, decisions and text that the
//! Windows front ends rely on.
//!
//! The monitor operations (`get`, `set`, `change`, `capabilities`, `list`) and
//! the HDR operations are state machines: each asks for one hardware action at
//! a time and decides the next from what happened.
pub mod autostart;
pub mod cli;
pub mod ddc;
pub mod error;
pub mod gesture;
pub mod hdr;
pub mod icon;
pub mod text;
pub mod tray;

pub use ddc::{capabilities, change, get, list, Brightness, MonitorInfo};
pub use error::{DdcError, Result};
