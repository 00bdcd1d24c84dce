//! The input-translation core: binding tables, per-frame samplers, the
//! two-generation action-value store, the transition classifier and the
//! per-frame event cycle.

pub mod axis;
pub mod binding;
pub mod events;
pub mod gamepad;
pub mod keyboard;
pub mod mouse;
pub mod snapshot;
pub mod state;
pub mod values;
