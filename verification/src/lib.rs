//! Engine of a desktop window transparency manager.
//!
//! The crate holds the policy core: the opacity rule store and its
//! mutations, the rule matcher that decides a window's target opacity,
//! the layered-window transparency state machine, the enumeration
//! filter and per-window inspection step, and the reducer that turns
//! user, tray and host-window events into new state plus a list of
//! side effects. All operating-system and file I/O stays outside, in a
//! thin shell that hands these functions plain values.

pub mod config;
pub mod enumerate;
pub mod events;
pub mod matcher;
pub mod reducer;
pub mod text;
pub mod transparency;
