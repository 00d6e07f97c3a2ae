//! Turns raw filesystem notifications into semantic file events and keeps
//! them as an append-only, parent-linked version history.
pub mod cli;
pub mod event;
pub mod graph;
pub mod replay;
pub mod tracker;
pub mod watch;
