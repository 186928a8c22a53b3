//! A looping sprite animation that follows a music track: the frame ticker,
//! the play/pause control and the progress indicator, stated as functions on
//! plain values so that a frame loop can drive them.

pub mod animation;
pub mod assets;
pub mod control;
pub mod keys;
pub mod playback;
pub mod progress;
pub mod scene;
pub mod state;
pub mod timer;
pub mod window;
