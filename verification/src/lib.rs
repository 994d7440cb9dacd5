//! Scheduling core of a daily wallpaper rotator and of the agent that keeps
//! its binary up to date.
//!
//! The programs around this library sleep, download, touch the desktop and
//! move files. Everything they decide is decided here, on plain values, and
//! every function here is verified against its contract:
//!
//! - [`schedule`] resolves the picture for a moment: an override that has not
//!   expired, else the first time window that holds, else the calendar date,
//!   else the weekday.
//! - [`wallpaper`] leads the wallpaper loop step by step and records a picture
//!   as applied only after it was fetched, applied and locked.
//! - [`file_manager`] names the cached files, picks the ones the cleanup may
//!   delete, and takes a refreshed schedule into the shared state.
//! - [`update`] decides from two digests whether the binary must be replaced
//!   and leads the replacement step by step.
//! - [`web_server`] sets an override by hand and writes text for the status
//!   page; [`logger`] cuts the end out of the log; [`autostart`] reads the
//!   answer of the registry and writes text for the operating system.
//! - [`clock`], [`config`], [`state`], [`digest`] and [`text`] hold the data
//!   and the helpers the others share.
//!
//! Four functions are taken on trust, each a thin wrapper around code that is
//! not verified here: `clock::read_local_clock` and `clock::parse_time` around
//! the `chrono` crate, `digest::sha256_hex` around the `sha256` crate, and
//! `text::push_char` around `String::push`. The results of the second and the
//! third are only named, by [`clock::parsed_time_of`] and
//! [`digest::sha256_hex_of`]; the contracts that depend on them say so.
//! Reading the clock is the one thing here that can panic: chrono does where
//! the system clock stands before 1970 or the local time zone cannot be found.

pub mod autostart;
pub mod clock;
pub mod config;
pub mod digest;
pub mod file_manager;
pub mod logger;
pub mod schedule;
pub mod state;
pub mod text;
pub mod update;
pub mod wallpaper;
pub mod web_server;
