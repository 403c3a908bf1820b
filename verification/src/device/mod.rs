//! One connected device: its state, and the steps that keep hardware and profile in line.
//!
//! Every function that decides something appends steps to the plan of the device and moves its
//! state along. Whoever drives the hardware takes the plan, performs it in order, and on a failure
//! rewinds to the step that failed.

pub mod button_laws;
pub mod buttons;
pub mod commands;
pub mod effects;
pub mod effects_laws;
pub mod fader;
pub mod fader_laws;
pub mod follow;
pub mod follow_laws;
pub mod laws;
pub mod load;
pub mod load_laws;
pub mod monitor;
pub mod mute_laws;
pub mod mute;
pub mod routing;
pub mod routing_laws;
pub mod sampler;
pub mod sampler_laws;
pub mod show_laws;
pub mod speech;
pub mod state;
pub mod status;
pub mod told;
pub mod wire;
