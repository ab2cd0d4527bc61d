//! Core logic of the nightfire audio-to-light project: color maps,
//! masks and layers for four quadrant lights, the game controller
//! model, infrared remote decoding and the mode decisions that tie
//! controller and remote input to the light state.
pub mod audio;
pub mod conf;
pub mod inactivity;
pub mod ir;
pub mod light;
pub mod mixxx;
pub mod mode;
pub mod periodic_updater;
pub mod sixaxis;
