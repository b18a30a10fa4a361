//! The core of a media player for files with pictures and sound.
//!
//! What the player decides stands here and is proved; what it does to the world outside, decoding,
//! drawing and sounding, is done by the program around it. [`playback`] is the course of playing a
//! file and [`player_app`] the window; each answers what happened with what is to be done. The
//! other modules hold what travels between them.
pub mod audio;
pub mod ieee;
pub mod media_streams;
pub mod playback;
pub mod playback_laws;
pub mod playback_steps;
pub mod player_app;
pub mod player_laws;
pub mod time_code;
pub mod video_frame;
pub mod visualizers;
