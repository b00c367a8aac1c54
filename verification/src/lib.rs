//! Playback-aware power-management inhibition.
//!
//! While designated media players are playing, the daemon suppresses
//! OS power-management actions (idle dimming, sleep, shutdown) by holding
//! inhibition locks, and exposes a small control surface (`set`, `toggle`,
//! `status`, reload) to steer that behaviour.
//!
//! This crate holds the verified core: the configuration model and rule
//! resolver, the daemon state with its control operations, the planning of
//! one reconciliation pass, and the wire codec of the local-socket control
//! protocol. Process bootstrap, the message bus and all other I/O live in
//! the surrounding binary.

pub mod cli;
pub mod config;
pub mod daemon;
pub mod player;
pub mod socket;
pub mod text;
