//! Observable playback state and the presentation policies derived from it.

use vstd::prelude::*;

verus! {

/// The lifecycle of the single playback session owned by the controller.
///
/// `Idle` means no source has ever been set; `Loading` means a source was
/// set and its duration is not yet known; `Ready` means the duration is
/// known and playback is stopped; `Playing` and `Paused` are the two user
/// toggled transport states; `Errored` is entered on a pipeline error and
/// left only by loading a new source.
#[derive(Clone, Copy, Debug, PartialEq, Eq, Structural)]
pub enum PlaybackState {
    Idle,
    Loading,
    Ready,
    Playing,
    Paused,
    Errored,
}

/// Transport controls are enabled exactly while a source is ready:
/// enablement is derived from the state, never set independently.
pub open spec fn spec_controls_enabled(s: PlaybackState) -> bool {
    s is Ready || s is Playing || s is Paused
}

/// Whether the transport controls (play/pause, seek slider, previous/next)
/// should be sensitive in state `s`.
pub fn controls_enabled_for(s: PlaybackState) -> (enabled: bool)
    ensures
        enabled == spec_controls_enabled(s),
{
    match s {
        PlaybackState::Ready | PlaybackState::Playing | PlaybackState::Paused => true,
        PlaybackState::Idle | PlaybackState::Loading | PlaybackState::Errored => false,
    }
}

/// The two faces of the play/pause button: while playing it offers pause,
/// otherwise it offers play.
#[derive(Clone, Copy, Debug, PartialEq, Eq, Structural)]
pub enum PlayPauseIcon {
    Paused,
    Playing,
}

/// The icon is a pure function of the playback state.
pub open spec fn spec_icon_for_state(s: PlaybackState) -> PlayPauseIcon {
    if s is Playing {
        PlayPauseIcon::Playing
    } else {
        PlayPauseIcon::Paused
    }
}

/// Which play/pause icon the button must show in state `s`.
pub fn icon_for_state(s: PlaybackState) -> (icon: PlayPauseIcon)
    ensures
        icon == spec_icon_for_state(s),
{
    match s {
        PlaybackState::Playing => PlayPauseIcon::Playing,
        _ => PlayPauseIcon::Paused,
    }
}

/// The symbolic icon name each face maps to.
pub open spec fn spec_icon_name(icon: PlayPauseIcon) -> Seq<char> {
    match icon {
        PlayPauseIcon::Paused => "media-playback-start-symbolic"@,
        PlayPauseIcon::Playing => "media-playback-pause-symbolic"@,
    }
}

/// Look up the themed icon name for a play/pause button face.
pub fn icon_name(icon: PlayPauseIcon) -> (name: &'static str)
    ensures
        name@ == spec_icon_name(icon),
{
    match icon {
        PlayPauseIcon::Paused => "media-playback-start-symbolic",
        PlayPauseIcon::Playing => "media-playback-pause-symbolic",
    }
}

} // verus!
