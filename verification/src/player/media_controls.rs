//! Media keys: which key events the player reacts to, and what playback state it reports.
use vstd::prelude::*;

verus! {

/// A media-key action the app carries out.
#[derive(Debug, Clone, Copy, PartialEq, Eq, Structural)]
pub enum MediaEvent {
    Toggle,
    Next,
    Prev,
}

/// A media-control event as the platform delivers it.
#[derive(Debug, Clone, Copy, PartialEq, Eq, Structural)]
pub enum ControlEvent {
    Toggle,
    Play,
    Pause,
    Next,
    Previous,
    /// Any other event (seek, stop, volume, ...).
    Other,
}

/// The playback state reported to the platform.
#[derive(Debug, Clone, Copy, PartialEq, Eq, Structural)]
pub enum PlaybackStatus {
    Stopped,
    Paused,
    Playing,
}

/// Play, pause and toggle all toggle; next and previous move in the queue; the rest is
/// ignored.
pub fn media_event_for(event: ControlEvent) -> (r: Option<MediaEvent>)
    ensures
        r == match event {
            ControlEvent::Toggle | ControlEvent::Play | ControlEvent::Pause => Some(MediaEvent::Toggle),
            ControlEvent::Next => Some(MediaEvent::Next),
            ControlEvent::Previous => Some(MediaEvent::Prev),
            ControlEvent::Other => None::<MediaEvent>,
        },
{
    match event {
        ControlEvent::Toggle => Some(MediaEvent::Toggle),
        ControlEvent::Play => Some(MediaEvent::Toggle),
        ControlEvent::Pause => Some(MediaEvent::Toggle),
        ControlEvent::Next => Some(MediaEvent::Next),
        ControlEvent::Previous => Some(MediaEvent::Prev),
        ControlEvent::Other => None,
    }
}

/// Stopped when not playing; otherwise paused or playing.
pub fn playback_status(playing: bool, paused: bool) -> (r: PlaybackStatus)
    ensures
        r == (if !playing {
            PlaybackStatus::Stopped
        } else if paused {
            PlaybackStatus::Paused
        } else {
            PlaybackStatus::Playing
        }),
{
    if !playing {
        PlaybackStatus::Stopped
    } else if paused {
        PlaybackStatus::Paused
    } else {
        PlaybackStatus::Playing
    }
}

/// Services the platform's event loop so that media-key callbacks get delivered; there is
/// nothing to do outside macOS.
pub fn pump_event_loop() {
}

} // verus!
