//! Core of a robot driver station backend: the shared state hub and the
//! protocol that relays its state to UI clients.
//!
//! The hub is written as data and decisions only. Threads, locks, sockets and
//! the window belong to the program around it: that program feeds the hub
//! events and readings and carries out the effects the hub returns.

pub mod assets;
pub mod error;
pub mod input;
pub mod keys;
pub mod message;
pub mod startup;
pub mod state;
pub mod telemetry;
pub mod webview;
