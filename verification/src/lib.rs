//! The logic of `spores`, a command-line client for Spotify's playlists.
//!
//! The program around this library signs in, sends one request per command
//! and prints what comes back. What it prints, which requests it sends and
//! in which order, and what it accepts from the user is decided here, on
//! plain values, and verified:
//!
//! - [`config`] and [`wizard`]: the configuration file and the questions that
//!   fill it in;
//! - [`command`] and [`ids`]: the kinds of item and their identifiers;
//! - [`catalog`]: the service's answers as plain values;
//! - [`report`], [`playlist`], [`listing`] and [`save`]: the commands;
//! - [`json`]: JSON documents and their model.

pub mod catalog;
pub mod command;
pub mod config;
pub mod ids;
pub mod json;
pub mod listing;
pub mod playlist;
pub mod report;
pub mod save;
pub mod wizard;
