//! Active-window usage accounting.
//!
//! A host application samples the operating system's focused window once per
//! second and hands each observation to this library. The library derives a
//! stable identity for every window (a [`key::window_key`]), accumulates
//! per-window active-second counters over a rolling minute
//! ([`accumulator::MinuteAccumulator`]), and decides which events the host
//! should publish each tick ([`watcher`]): a per-sample `WINDOW_ACTIVE`
//! notification and, once a minute, a `WINDOW_ACTIVE_MINUTE` summary.

pub mod accumulator;
pub mod key;
pub mod watcher;
