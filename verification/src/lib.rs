//! Simulation core of a falling-object catch game: a circular actor moves
//! horizontally to intercept falling circular objects before they leave the
//! play area. The crate covers per-frame state advancement, procedural
//! spawning, circle-circle collision resolution with scoring, and the hover /
//! click state machine of the two on-screen controls. Rendering, input
//! sampling, persistence and audio playback belong to the host layer, which
//! feeds the step function plain input samples and carries out the audio
//! commands it returns.

pub mod button;
pub mod geometry;
pub mod pancake;
pub mod state;
pub mod step;
