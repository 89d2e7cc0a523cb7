//! Session coordination and configuration store for a front-end that maps the
//! side buttons of a mouse to keys.
//!
//! - `app`: the coordinator, which starts and stops the worker and takes in
//!   what came of loading and saving.
//! - `session`, `shared`, `state`: the worker's phase and flag, and the
//!   session record that other threads observe.
//! - `tray`: when the tray icon is refreshed, and what it shows.
//! - `config`, `document`: the configuration file, read with the `toml` crate.
//! - `mapping`, `keys`, `decimal`: the mapping, the key names and the numbers
//!   of the buttons.
//! - `pointer`: the side file that names the configuration used last.

pub mod app;
pub mod config;
pub mod decimal;
pub mod document;
pub mod errors;
pub mod keys;
pub mod mapping;
pub mod pointer;
pub mod session;
pub mod shared;
pub mod state;
pub mod tray;
pub mod views;
