//! Playback: the play queue, the player thread's decisions and media keys.
pub mod media_controls;
pub mod mpv;
pub mod queue;
