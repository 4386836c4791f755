//! Logic of a small Wayland video demo: a source of solid-colour test frames,
//! a colour gradient for the window background, the rule by which window
//! events are queued, and the theme of the window frame.

pub mod events;
pub mod format;
pub mod frames;
pub mod gradient;
pub mod theme;
