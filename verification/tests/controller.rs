use gemini_player::controller::{PlaybackController, PositionSample, TransportAction};
use gemini_player::engine::{PipelineEvent, SeekOutcome};
use gemini_player::sink::{SinkPath, SinkProbe};
use gemini_player::state::PlaybackState;

fn ready_controller(duration: u64) -> (PlaybackController, u64) {
    let mut c = PlaybackController::new(SinkProbe::Accelerated).unwrap();
    let g = c.load_source(String::from("file:///a.mp4"));
    assert!(c.on_pipeline_event(g, PipelineEvent::DurationKnown(duration)));
    (c, g)
}

#[test]
fn scenario_load_then_duration_reaches_ready() {
    let mut c = PlaybackController::new(SinkProbe::Accelerated).unwrap();
    assert_eq!(c.state(), PlaybackState::Idle);
    assert!(!c.controls_enabled());
    assert_eq!(c.current_uri(), None);

    let g = c.load_source(String::from("file:///a.mp4"));
    assert_eq!(c.state(), PlaybackState::Loading);
    assert!(!c.controls_enabled());
    assert_eq!(c.current_uri(), Some(String::from("file:///a.mp4")));
    assert_eq!(c.slider_range(), None);

    assert!(c.on_pipeline_event(g, PipelineEvent::DurationKnown(120)));
    assert_eq!(c.state(), PlaybackState::Ready);
    assert!(c.controls_enabled());
    assert_eq!(c.slider_range(), Some(120));
}

#[test]
fn scenario_toggle_from_ready_starts_playing() {
    let (mut c, _g) = ready_controller(120);
    let action = c.toggle_play();
    assert_eq!(action, TransportAction::StartPlayback);
    assert_eq!(c.state(), PlaybackState::Playing);
    assert!(c.is_playing());
    assert!(c.poll_ticket().is_some());
    assert_eq!(c.current_icon_name(), "media-playback-pause-symbolic");
}

#[test]
fn scenario_seek_past_end_clamps_and_stays_playing() {
    let (mut c, _g) = ready_controller(120);
    c.toggle_play();
    let outcome = c.seek(200);
    assert_eq!(outcome, SeekOutcome::Applied(120));
    assert_eq!(c.slider_position(), 120);
    assert_eq!(c.state(), PlaybackState::Playing);
}

#[test]
fn scenario_load_while_playing_resets_everything() {
    let (mut c, g1) = ready_controller(120);
    c.toggle_play();
    assert!(c.on_pipeline_event(g1, PipelineEvent::PositionAdvanced(30)));
    assert_eq!(c.slider_position(), 30);

    let g2 = c.load_source(String::from("file:///b.mp4"));
    assert_eq!(c.state(), PlaybackState::Loading);
    assert!(!c.controls_enabled());
    assert!(c.poll_ticket().is_none());
    assert_eq!(c.slider_position(), 0);
    assert_eq!(c.slider_range(), None);
    assert_ne!(g1, g2);

    // stale position and duration from the first source are discarded
    assert!(!c.on_pipeline_event(g1, PipelineEvent::PositionAdvanced(99)));
    assert!(!c.on_pipeline_event(g1, PipelineEvent::DurationKnown(999)));
    assert_eq!(c.slider_position(), 0);
    assert_eq!(c.slider_range(), None);
    assert_eq!(c.current_uri(), Some(String::from("file:///b.mp4")));
}

#[test]
fn scenario_sink_unavailable_aborts_construction() {
    let r = PlaybackController::new(SinkProbe::Unavailable);
    assert!(r.is_err());
}

#[test]
fn seek_clamps_to_duration_bounds() {
    let (mut c, _g) = ready_controller(120);
    assert_eq!(c.seek(-5), SeekOutcome::Applied(0));
    assert_eq!(c.slider_position(), 0);
    assert_eq!(c.seek(500), SeekOutcome::Applied(120));
    assert_eq!(c.slider_position(), 120);
    assert_eq!(c.seek(60), SeekOutcome::Applied(60));
    assert_eq!(c.slider_position(), 60);
}

#[test]
fn seek_with_unknown_duration_is_rejected_without_state_change() {
    let mut c = PlaybackController::new(SinkProbe::Accelerated).unwrap();
    let _g = c.load_source(String::from("file:///a.mp4"));
    let state_before = c.state();
    let pos_before = c.slider_position();
    assert_eq!(c.seek(42), SeekOutcome::Rejected);
    assert_eq!(c.state(), state_before);
    assert_eq!(c.slider_position(), pos_before);
}

#[test]
fn seek_in_idle_is_rejected() {
    let mut c = PlaybackController::new(SinkProbe::Accelerated).unwrap();
    assert_eq!(c.seek(10), SeekOutcome::Rejected);
    assert_eq!(c.state(), PlaybackState::Idle);
}

#[test]
fn load_while_playing_stops_poller_before_loading() {
    let (mut c, _g) = ready_controller(120);
    c.toggle_play();
    let ticket = c.poll_ticket().unwrap();
    let _g2 = c.load_source(String::from("file:///b.mp4"));
    assert!(c.poll_ticket().is_none());
    assert!(!c.controls_enabled());
    // a tick of the superseded timer is rejected
    assert!(!c.on_position_sample(ticket, PositionSample { current: Some(5), total: None }));
    assert_eq!(c.slider_position(), 0);
}

#[test]
fn stale_generation_events_never_observed() {
    let mut c = PlaybackController::new(SinkProbe::Accelerated).unwrap();
    // before any load, no generation tag is valid
    assert!(!c.on_pipeline_event(0, PipelineEvent::DurationKnown(10)));
    assert_eq!(c.state(), PlaybackState::Idle);

    let g1 = c.load_source(String::from("file:///a.mp4"));
    let g2 = c.load_source(String::from("file:///b.mp4"));
    assert!(!c.on_pipeline_event(g1, PipelineEvent::DurationKnown(100)));
    assert_eq!(c.state(), PlaybackState::Loading);
    assert_eq!(c.slider_range(), None);
    // a tag that was never handed out is not accepted either
    assert!(!c.on_pipeline_event(g2 + 1, PipelineEvent::DurationKnown(100)));
    // the current generation is
    assert!(c.on_pipeline_event(g2, PipelineEvent::DurationKnown(100)));
    assert_eq!(c.state(), PlaybackState::Ready);
    assert_eq!(c.slider_range(), Some(100));
}

#[test]
fn playback_error_enters_terminal_errored_state() {
    let (mut c, g) = ready_controller(120);
    c.toggle_play();
    assert!(c.on_pipeline_event(g, PipelineEvent::PlaybackError(String::from("decode failed"))));
    assert_eq!(c.state(), PlaybackState::Errored);
    assert!(!c.controls_enabled());
    assert!(c.poll_ticket().is_none());
    assert_eq!(c.last_error(), Some(String::from("decode failed")));

    // Errored is terminal for events, even of the current generation
    assert!(!c.on_pipeline_event(g, PipelineEvent::DurationKnown(240)));
    assert_eq!(c.state(), PlaybackState::Errored);

    // a new source leaves Errored and forgets the error
    let _g2 = c.load_source(String::from("file:///b.mp4"));
    assert_eq!(c.state(), PlaybackState::Loading);
    assert_eq!(c.last_error(), None);
}

#[test]
fn error_while_loading_reaches_errored() {
    let mut c = PlaybackController::new(SinkProbe::Accelerated).unwrap();
    let g = c.load_source(String::from("file:///a.mp4"));
    assert!(c.on_pipeline_event(g, PipelineEvent::PlaybackError(String::from("no such file"))));
    assert_eq!(c.state(), PlaybackState::Errored);
    assert_eq!(c.last_error(), Some(String::from("no such file")));
}

#[test]
fn toggle_is_noop_outside_ready_playing_paused() {
    let mut c = PlaybackController::new(SinkProbe::Accelerated).unwrap();
    assert_eq!(c.toggle_play(), TransportAction::NoAction);
    assert_eq!(c.state(), PlaybackState::Idle);
    let g = c.load_source(String::from("file:///a.mp4"));
    assert_eq!(c.toggle_play(), TransportAction::NoAction);
    assert_eq!(c.state(), PlaybackState::Loading);
    assert!(c.on_pipeline_event(g, PipelineEvent::PlaybackError(String::from("x"))));
    assert_eq!(c.toggle_play(), TransportAction::NoAction);
    assert_eq!(c.state(), PlaybackState::Errored);
}

#[test]
fn play_pause_round_trip() {
    let (mut c, _g) = ready_controller(60);
    assert_eq!(c.toggle_play(), TransportAction::StartPlayback);
    assert_eq!(c.current_icon_name(), "media-playback-pause-symbolic");
    assert_eq!(c.toggle_play(), TransportAction::PausePlayback);
    assert_eq!(c.state(), PlaybackState::Paused);
    assert!(c.poll_ticket().is_none());
    assert_eq!(c.current_icon_name(), "media-playback-start-symbolic");
    assert_eq!(c.toggle_play(), TransportAction::StartPlayback);
    assert_eq!(c.state(), PlaybackState::Playing);
}

#[test]
fn fullscreen_is_orthogonal_to_playback() {
    let (mut c, _g) = ready_controller(60);
    assert!(!c.is_fullscreen());
    c.toggle_fullscreen();
    assert!(c.is_fullscreen());
    assert_eq!(c.state(), PlaybackState::Ready);
    c.toggle_play();
    c.toggle_fullscreen();
    assert!(!c.is_fullscreen());
    assert_eq!(c.state(), PlaybackState::Playing);
    assert!(c.poll_ticket().is_some());
}

#[test]
fn empty_candidate_list_leaves_state_unchanged() {
    let mut c = PlaybackController::new(SinkProbe::Accelerated).unwrap();
    let uris: Vec<String> = Vec::new();
    assert_eq!(c.load_candidates(&uris), None);
    assert_eq!(c.state(), PlaybackState::Idle);
    assert_eq!(c.current_uri(), None);
}

#[test]
fn first_candidate_wins() {
    let mut c = PlaybackController::new(SinkProbe::Accelerated).unwrap();
    let uris = vec![String::from("file:///one.mp4"), String::from("file:///two.mp4")];
    let g = c.load_candidates(&uris);
    assert!(g.is_some());
    assert_eq!(c.state(), PlaybackState::Loading);
    assert_eq!(c.current_uri(), Some(String::from("file:///one.mp4")));
}

#[test]
fn position_events_ignored_while_loading() {
    let mut c = PlaybackController::new(SinkProbe::Accelerated).unwrap();
    let g = c.load_source(String::from("file:///a.mp4"));
    assert!(c.on_pipeline_event(g, PipelineEvent::PositionAdvanced(17)));
    assert_eq!(c.slider_position(), 0);
}

#[test]
fn accepted_sample_updates_position_and_duration() {
    let (mut c, _g) = ready_controller(120);
    c.toggle_play();
    let ticket = c.poll_ticket().unwrap();
    assert!(c.on_position_sample(ticket, PositionSample { current: Some(42), total: Some(130) }));
    assert_eq!(c.slider_position(), 42);
    assert_eq!(c.slider_range(), Some(130));
    // a sample without a position keeps the old one
    assert!(c.on_position_sample(ticket, PositionSample { current: None, total: None }));
    assert_eq!(c.slider_position(), 42);
}

#[test]
fn pause_invalidates_poll_ticket() {
    let (mut c, _g) = ready_controller(120);
    c.toggle_play();
    let ticket = c.poll_ticket().unwrap();
    c.toggle_play();
    assert!(!c.on_position_sample(ticket, PositionSample { current: Some(9), total: None }));
    assert_eq!(c.slider_position(), 0);
}

#[test]
fn elapsed_time_text_follows_position() {
    let (mut c, g) = ready_controller(7322);
    assert_eq!(c.elapsed_time_text(), "0:00:00");
    assert!(c.on_pipeline_event(g, PipelineEvent::PositionAdvanced(3725)));
    assert_eq!(c.elapsed_time_text(), "1:02:05");
}

#[test]
fn sink_is_built_exactly_once_for_a_window() {
    let (mut c, _g) = ready_controller(120);
    assert_eq!(c.sink_build_count(), 1);
    assert_eq!(c.sink_path(), Some(SinkPath::Accelerated));
    c.toggle_play();
    c.toggle_play();
    c.toggle_play();
    let _g2 = c.load_source(String::from("file:///b.mp4"));
    assert_eq!(c.sink_build_count(), 1);
    assert_eq!(c.sink_path(), Some(SinkPath::Accelerated));
}

#[test]
fn previous_and_next_are_acknowledged_noops() {
    let (c, _g) = ready_controller(120);
    c.previous();
    c.next();
    assert_eq!(c.state(), PlaybackState::Ready);
}
