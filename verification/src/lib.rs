//! Terminal theme manager: the decisions behind activating, deactivating and
//! listing themes, kept apart from the files and processes they act on.
//!
//! A theme is a directory of shell scripts. Activating it runs its script for
//! all shells, puts its name on record as the active theme and signals the
//! running shells, which then source its script for each shell. The library
//! reads no file and starts no process. A [`session::Session`] asks for one
//! thing at a time in a [`request::Request`], is told what came of it in a
//! [`session::Event`], and answers with the next [`request::Step`]:
//!
//! - [`context`] works out where the program keeps its files;
//! - [`config`] turns what the configuration file sets into settings;
//! - [`state`] reads and records the active theme;
//! - [`registry`] and [`listing`] find the themes and show them;
//! - [`scripts`] and [`signals`] name the scripts to run and the signals to send;
//! - [`setup`] holds the lines that a shell runs at start-up;
//! - [`session`] puts them together, and [`laws`] states what holds of
//!   every session.

pub mod config;
pub mod context;
pub mod error;
pub mod laws;
pub mod listing;
pub mod notice;
pub mod paths;
pub mod registry;
pub mod request;
pub mod scripts;
pub mod session;
pub mod setup;
pub mod signals;
pub mod state;
pub mod text;
