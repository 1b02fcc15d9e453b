//! Platform-independent gamepad events, and the layer that turns a noisy raw
//! event stream into a clean one: deadzones, repeats, d-pad buttons, per-device
//! state and stable device identities.

pub mod ev;
pub mod state;
pub mod filter;
pub mod repeat;
pub mod identity;
pub mod hub;
