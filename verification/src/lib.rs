//! A desktop refresh scheduler.
//!
//! The library models a periodic "refresh" of a desktop session: a fixed,
//! deterministic series of synthetic keyboard and mouse events (show the
//! desktop, move the pointer, right-click, press "R", alt-tab), replayed on a
//! configurable interval until interrupted.
//!
//! Everything that decides is here and verified: the event plan itself
//! ([`sequence`]) and the scheduling state machine ([`scheduler`]). The
//! surrounding program performs what the scheduler commands — sleeping,
//! injecting one event at the OS level — and reports back what happened.

pub mod input;

pub mod scheduler;
pub mod sequence;
