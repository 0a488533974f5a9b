//! The playback controller: the single writer of all observable state.
//!
//! The controller consumes user intents (load a source, toggle play/pause,
//! seek, toggle fullscreen) and pipeline events, owns the one engine and
//! the one position poller, and exposes the observable values the
//! presentation layer renders: current URI, playing and fullscreen flags,
//! controls enablement, slider range and position, the clock text and the
//! play/pause icon.  Every transition is given by a specification step
//! function; the methods are proved to implement those steps exactly and
//! to preserve the controller invariant, in particular that the poller is
//! active exactly while playback runs.

use vstd::prelude::*;

use crate::clock::{format_clock, spec_clock_text};
use crate::engine::{engine_accepts, engine_deliver, engine_ensure_sink, engine_init,
    engine_refresh_duration, engine_set_source, engine_wf, spec_clamped_position, spec_seek_outcome, EngineModel,
    PipelineEvent, PlaybackEngine, SeekOutcome};
use crate::poller::{poller_accepts, poller_init, poller_start_step, poller_stop_step, PollerModel,
    PositionPoller};
use crate::sink::{SinkPath, SinkProbe, SinkUnavailable};
use crate::state::{controls_enabled_for, icon_for_state, icon_name, spec_controls_enabled, spec_icon_for_state,
    spec_icon_name, PlaybackState, PlayPauseIcon};

verus! {

/// How often the poller samples the pipeline position, in milliseconds.
pub const POLL_INTERVAL_MS: u64 = 100;

/// The latest position sample: current elapsed seconds and total duration,
/// each optional until known.  Samples have no identity — the latest wins.
#[derive(Clone, Copy, Debug, PartialEq, Eq, Structural)]
pub struct PositionSample {
    /// The elapsed playback position, in whole seconds, if the pipeline
    /// reported one.
    pub current: Option<u64>,
    /// The total duration, in whole seconds, if the pipeline reported one.
    pub total: Option<u64>,
}

/// The pipeline operation the presentation layer must perform after a
/// play/pause toggle.
#[derive(Clone, Copy, Debug, PartialEq, Eq, Structural)]
pub enum TransportAction {
    /// Command the pipeline to play and arm the position timer.
    StartPlayback,
    /// Command the pipeline to pause and cancel the position timer.
    PausePlayback,
    /// The toggle arrived in a state where it is a no-op.
    NoAction,
}

/// The controller as the specifications see it.
pub ghost struct ControllerModel {
    /// The playback lifecycle state; this controller is its sole writer.
    pub state: PlaybackState,
    /// Whether the window is fullscreen; orthogonal to playback.
    pub fullscreen: bool,
    /// The displayed playback position, in whole seconds.
    pub position: u64,
    /// The reason of the last playback error, surfaced while `Errored`.
    pub last_error: Option<Seq<char>>,
    /// The engine model: sink, generation, source, duration.
    pub engine: EngineModel,
    /// The poller model: arming state and epoch.
    pub poller: PollerModel,
}

/// The controller invariant.  It ties the poller to the state machine
/// (armed exactly while `Playing`), guarantees the sink was built at
/// startup, and keeps the readiness bookkeeping consistent: states with
/// enabled controls know their duration, `Loading` does not yet, and
/// `Idle` means no source was ever set.
pub open spec fn ctrl_wf(m: ControllerModel) -> bool {
    &&& engine_wf(m.engine)
    &&& m.engine.sink is Some
    &&& (m.poller.active <==> m.state is Playing)
    &&& (spec_controls_enabled(m.state) ==> m.engine.duration is Some)
    &&& (m.state is Loading ==> m.engine.duration is None)
    &&& (m.state is Idle <==> m.engine.source is None)
    &&& (m.state is Idle ==> m.engine.duration is None)
}

/// A freshly constructed controller: idle, windowed, controls disabled,
/// sink built for the probed capability.
pub open spec fn ctrl_init(probe: SinkProbe) -> ControllerModel {
    ControllerModel {
        state: PlaybackState::Idle,
        fullscreen: false,
        position: 0,
        last_error: None,
        engine: engine_ensure_sink(engine_init(), probe),
        poller: poller_init(),
    }
}

/// Loading a source, from any state: the poller is stopped, the position
/// display cleared, a previous error forgotten, and the engine re-tagged;
/// the state is `Loading` until the new load reports its duration.
pub open spec fn ctrl_load_step(m: ControllerModel, uri: Seq<char>) -> ControllerModel {
    ControllerModel {
        state: PlaybackState::Loading,
        position: 0,
        last_error: None,
        engine: engine_set_source(m.engine, uri),
        poller: poller_stop_step(m.poller),
        ..m
    }
}

/// Toggling play/pause: `Ready` and `Paused` enter `Playing` and arm the
/// poller; `Playing` enters `Paused` and cancels it; every other state
/// ignores the toggle.
pub open spec fn ctrl_toggle_step(m: ControllerModel, interval_ms: u64) -> ControllerModel {
    match m.state {
        PlaybackState::Ready | PlaybackState::Paused => ControllerModel {
            state: PlaybackState::Playing,
            poller: poller_start_step(m.poller, interval_ms),
            ..m
        },
        PlaybackState::Playing => ControllerModel {
            state: PlaybackState::Paused,
            poller: poller_stop_step(m.poller),
            ..m
        },
        _ => m,
    }
}

/// The pipeline operation a toggle amounts to in state `m.state`.
pub open spec fn spec_toggle_action(m: ControllerModel) -> TransportAction {
    match m.state {
        PlaybackState::Ready | PlaybackState::Paused => TransportAction::StartPlayback,
        PlaybackState::Playing => TransportAction::PausePlayback,
        _ => TransportAction::NoAction,
    }
}

/// Seeking: while the controls are enabled the display position moves to
/// the clamped target; everywhere else the intent changes nothing.
pub open spec fn ctrl_seek_step(m: ControllerModel, target: int) -> ControllerModel {
    if spec_controls_enabled(m.state) {
        match m.engine.duration {
            Some(d) => ControllerModel {
                position: spec_clamped_position(target, d),
                ..m
            },
            None => m,
        }
    } else {
        m
    }
}

/// The outcome a seek intent must report in state `m`.
pub open spec fn spec_ctrl_seek_outcome(m: ControllerModel, target: int) -> SeekOutcome {
    if spec_controls_enabled(m.state) {
        spec_seek_outcome(m.engine, target)
    } else {
        SeekOutcome::Rejected
    }
}

/// Whether a pipeline event tagged `g` reaches the state machine:
/// `Errored` is terminal until a new source, and the engine accepts only
/// the latest generation.
pub open spec fn spec_event_accepted(m: ControllerModel, g: nat) -> bool {
    !(m.state is Errored) && engine_accepts(m.engine, g)
}

/// Consuming a pipeline event.  A stale or post-error event changes
/// nothing.  A current `DurationKnown` makes a `Loading` controller
/// `Ready` (and updates the slider range through the engine); a current
/// `PositionAdvanced` moves the displayed position while controls are
/// enabled; a current `PlaybackError` enters `Errored`, stops the poller
/// and surfaces the reason.
pub open spec fn ctrl_event_step(m: ControllerModel, g: nat, ev: PipelineEvent) -> ControllerModel {
    if !spec_event_accepted(m, g) {
        m
    } else {
        let e1 = engine_deliver(m.engine, g, ev);
        match ev {
            PipelineEvent::DurationKnown(_) => if m.state is Loading {
                ControllerModel { state: PlaybackState::Ready, engine: e1, ..m }
            } else {
                ControllerModel { engine: e1, ..m }
            },
            PipelineEvent::PositionAdvanced(p) => if spec_controls_enabled(m.state) {
                ControllerModel { position: p, engine: e1, ..m }
            } else {
                m
            },
            PipelineEvent::PlaybackError(reason) => ControllerModel {
                state: PlaybackState::Errored,
                poller: poller_stop_step(m.poller),
                last_error: Some(reason@),
                engine: e1,
                ..m
            },
        }
    }
}

/// Consuming a poller sample.  Only ticks of the current arming count;
/// an accepted sample moves the displayed position and lets a freshly
/// reported duration win over the recorded one.
pub open spec fn ctrl_sample_step(m: ControllerModel, ticket: nat, sample: PositionSample)
    -> ControllerModel {
    if poller_accepts(m.poller, ticket) {
        ControllerModel {
            position: match sample.current {
                Some(p) => p,
                None => m.position,
            },
            engine: engine_refresh_duration(m.engine, sample.total),
            ..m
        }
    } else {
        m
    }
}

/// Toggling fullscreen: flips the flag and touches nothing else —
/// fullscreen is orthogonal to playback.
pub open spec fn ctrl_fullscreen_step(m: ControllerModel) -> ControllerModel {
    ControllerModel { fullscreen: !m.fullscreen, ..m }
}

/// The playback controller.  One per window; the sole owner and writer of
/// the playback state, the engine and the poller.
pub struct PlaybackController {
    state: PlaybackState,
    fullscreen: bool,
    position: u64,
    last_error: Option<String>,
    engine: PlaybackEngine,
    poller: PositionPoller,
}

impl View for PlaybackController {
    type V = ControllerModel;

    closed spec fn view(&self) -> ControllerModel {
        ControllerModel {
            state: self.state,
            fullscreen: self.fullscreen,
            position: self.position,
            last_error: match self.last_error {
                Some(s) => Some(s@),
                None => None,
            },
            engine: self.engine@,
            poller: self.poller@,
        }
    }
}

impl PlaybackController {
    /// Construct the controller for a window whose surface capability was
    /// probed as `probe`.  The sink graph is built here, once; an
    /// unavailable sink aborts construction, so the failure is surfaced
    /// at startup and never deferred to the first play.
    pub fn new(probe: SinkProbe) -> (r: Result<PlaybackController, SinkUnavailable>)
        ensures
            r matches Ok(c) ==> c@ == ctrl_init(probe) && ctrl_wf(c@),
            r is Ok <==> !(probe is Unavailable),
    {
        let mut engine = PlaybackEngine::new();
        match engine.ensure_sink(probe) {
            Ok(_) => Ok(
                PlaybackController {
                    state: PlaybackState::Idle,
                    fullscreen: false,
                    position: 0,
                    last_error: None,
                    engine,
                    poller: PositionPoller::new(),
                },
            ),
            Err(e) => Err(e),
        }
    }

    /// Make `uri` the active source.  Valid in every state: it supersedes
    /// an in-flight load, leaves `Errored`, and stops the poller before
    /// the controller enters `Loading`.  Returns the generation tag of
    /// this load; pipeline events belonging to it must carry the tag.
    pub fn load_source(&mut self, uri: String) -> (generation: u64)
        requires
            ctrl_wf(old(self)@),
            old(self)@.engine.generation < u64::MAX as nat,
        ensures
            final(self)@ == ctrl_load_step(old(self)@, uri@),
            ctrl_wf(final(self)@),
            generation as nat == final(self)@.engine.generation,
    {
        self.poller.stop();
        self.state = PlaybackState::Loading;
        self.position = 0;
        self.last_error = None;
        self.engine.set_source(uri)
    }

    /// File intake: of a list of candidate URIs only the first is used;
    /// an empty list leaves every observable unchanged and yields no
    /// generation, so callers can log the failure.
    pub fn load_candidates(&mut self, uris: &Vec<String>) -> (generation: Option<u64>)
        requires
            ctrl_wf(old(self)@),
            old(self)@.engine.generation < u64::MAX as nat,
        ensures
            uris@.len() == 0 ==> final(self)@ == old(self)@ && generation is None,
            uris@.len() > 0 ==> final(self)@ == ctrl_load_step(old(self)@, uris@[0]@),
            uris@.len() > 0 ==> (generation matches Some(g) && g as nat
                == final(self)@.engine.generation),
            ctrl_wf(final(self)@),
    {
        if uris.len() == 0 {
            None
        } else {
            let first = uris[0].clone();
            Some(self.load_source(first))
        }
    }

    /// Toggle play/pause.  From `Ready` or `Paused` playback starts: the
    /// engine is commanded to play and the poller armed.  From `Playing`
    /// it pauses: the engine is commanded to pause and the poller
    /// cancelled.  Anywhere else the intent is a no-op a well-behaved
    /// presenter should not send; the returned action says which of the
    /// three happened.
    pub fn toggle_play(&mut self) -> (action: TransportAction)
        requires
            ctrl_wf(old(self)@),
            old(self)@.poller.epoch < u64::MAX as nat,
        ensures
            final(self)@ == ctrl_toggle_step(old(self)@, POLL_INTERVAL_MS),
            ctrl_wf(final(self)@),
            action == spec_toggle_action(old(self)@),
    {
        match self.state {
            PlaybackState::Ready | PlaybackState::Paused => {
                self.engine.play();
                self.state = PlaybackState::Playing;
                self.poller.start(POLL_INTERVAL_MS);
                TransportAction::StartPlayback
            },
            PlaybackState::Playing => {
                self.engine.pause();
                self.state = PlaybackState::Paused;
                self.poller.stop();
                TransportAction::PausePlayback
            },
            _ => TransportAction::NoAction,
        }
    }

    /// Seek to `target` whole seconds (negative targets clamp to zero).
    /// Applied, clamped to `[0, duration]`, while the controls are
    /// enabled — the displayed position moves at once, optimistically.
    /// Rejected as a distinguishable no-op everywhere else, in particular
    /// while the duration is still unknown.
    pub fn seek(&mut self, target: i64) -> (outcome: SeekOutcome)
        requires
            ctrl_wf(old(self)@),
        ensures
            final(self)@ == ctrl_seek_step(old(self)@, target as int),
            ctrl_wf(final(self)@),
            outcome == spec_ctrl_seek_outcome(old(self)@, target as int),
            outcome is Rejected ==> final(self)@ == old(self)@,
    {
        if !controls_enabled_for(self.state) {
            return SeekOutcome::Rejected;
        }
        let outcome = self.engine.seek(target);
        if let SeekOutcome::Applied(p) = outcome {
            self.position = p;
        }
        outcome
    }

    /// Consume a pipeline event tagged with the generation of the load it
    /// belongs to.  Returns whether the event was accepted; a stale event
    /// — one from a superseded load — or one arriving after an error is
    /// dropped with no effect whatever.
    pub fn on_pipeline_event(&mut self, generation: u64, event: PipelineEvent) -> (accepted: bool)
        requires
            ctrl_wf(old(self)@),
        ensures
            final(self)@ == ctrl_event_step(old(self)@, generation as nat, event),
            ctrl_wf(final(self)@),
            accepted == spec_event_accepted(old(self)@, generation as nat),
            !accepted ==> final(self)@ == old(self)@,
    {
        if let PlaybackState::Errored = self.state {
            return false;
        }
        let accepted = self.engine.deliver(generation, &event);
        if !accepted {
            return false;
        }
        match event {
            PipelineEvent::DurationKnown(_) => {
                if let PlaybackState::Loading = self.state {
                    self.state = PlaybackState::Ready;
                }
            },
            PipelineEvent::PositionAdvanced(p) => {
                if controls_enabled_for(self.state) {
                    self.position = p;
                }
            },
            PipelineEvent::PlaybackError(reason) => {
                self.state = PlaybackState::Errored;
                self.poller.stop();
                self.last_error = Some(reason);
            },
        }
        true
    }

    /// Consume a position sample delivered by a timer tick carrying
    /// `ticket`.  Only ticks of the current arming are accepted — a
    /// superseded timer that still fires changes nothing.  An accepted
    /// sample moves the displayed position, and a duration it carries
    /// wins over the recorded one.
    pub fn on_position_sample(&mut self, ticket: u64, sample: PositionSample) -> (accepted: bool)
        requires
            ctrl_wf(old(self)@),
        ensures
            final(self)@ == ctrl_sample_step(old(self)@, ticket as nat, sample),
            ctrl_wf(final(self)@),
            accepted == poller_accepts(old(self)@.poller, ticket as nat),
            !accepted ==> final(self)@ == old(self)@,
    {
        if !self.poller.accepts(ticket) {
            return false;
        }
        if let Some(p) = sample.current {
            self.position = p;
        }
        self.engine.refresh_duration(sample.total);
        true
    }

    /// Toggle fullscreen.  Orthogonal to playback: nothing but the flag
    /// changes.
    pub fn toggle_fullscreen(&mut self)
        requires
            ctrl_wf(old(self)@),
        ensures
            final(self)@ == ctrl_fullscreen_step(old(self)@),
            ctrl_wf(final(self)@),
    {
        self.fullscreen = !self.fullscreen;
    }

    /// The previous-chapter intent: reserved, acknowledged without any
    /// behaviour.
    pub fn previous(&self) {
    }

    /// The next-chapter intent: reserved, acknowledged without any
    /// behaviour.
    pub fn next(&self) {
    }

    /// The current playback state.
    pub fn state(&self) -> (s: PlaybackState)
        ensures
            s == self@.state,
    {
        self.state
    }

    /// The active source URI, if a source was ever set.
    pub fn current_uri(&self) -> (uri: Option<String>)
        ensures
            uri is Some <==> self@.engine.source is Some,
            uri matches Some(u) ==> Some(u@) == self@.engine.source,
    {
        self.engine.source_uri()
    }

    /// Whether playback is running.
    pub fn is_playing(&self) -> (p: bool)
        ensures
            p == (self@.state is Playing),
    {
        matches!(self.state, PlaybackState::Playing)
    }

    /// Whether the window is fullscreen.
    pub fn is_fullscreen(&self) -> (f: bool)
        ensures
            f == self@.fullscreen,
    {
        self.fullscreen
    }

    /// Whether the transport controls are enabled; derived from the
    /// state, never stored.
    pub fn controls_enabled(&self) -> (enabled: bool)
        ensures
            enabled == spec_controls_enabled(self@.state),
    {
        controls_enabled_for(self.state)
    }

    /// The slider's upper bound: the known duration in whole seconds (the
    /// lower bound is always zero), or `None` while no duration is known.
    pub fn slider_range(&self) -> (d: Option<u64>)
        ensures
            d == self@.engine.duration,
    {
        self.engine.known_duration()
    }

    /// The slider's position: the displayed elapsed seconds.
    pub fn slider_position(&self) -> (p: u64)
        ensures
            p == self@.position,
    {
        self.position
    }

    /// The clock label's text for the displayed position.
    pub fn elapsed_time_text(&self) -> (text: String)
        ensures
            text@ == spec_clock_text(self@.position as nat),
    {
        format_clock(self.position)
    }

    /// The play/pause button face for the current state.
    pub fn current_icon(&self) -> (icon: PlayPauseIcon)
        ensures
            icon == spec_icon_for_state(self@.state),
    {
        icon_for_state(self.state)
    }

    /// The themed icon name the play/pause button must show.
    pub fn current_icon_name(&self) -> (name: &'static str)
        ensures
            name@ == spec_icon_name(spec_icon_for_state(self@.state)),
    {
        icon_name(icon_for_state(self.state))
    }

    /// The reason of the last playback error, while `Errored` surfaces
    /// one.
    pub fn last_error(&self) -> (e: Option<String>)
        ensures
            e is Some <==> self@.last_error is Some,
            e matches Some(s) ==> Some(s@) == self@.last_error,
    {
        match &self.last_error {
            Some(s) => Some(s.clone()),
            None => None,
        }
    }

    /// The generation tag of the latest load.
    pub fn current_generation(&self) -> (g: u64)
        ensures
            g as nat == self@.engine.generation,
    {
        self.engine.current_generation()
    }

    /// The ticket the currently armed poller hands to its timer, or
    /// `None` while no sampling is armed.
    pub fn poll_ticket(&self) -> (t: Option<u64>)
        ensures
            t matches Some(k) ==> self@.poller.active && k as nat == self@.poller.epoch,
            t is Some <==> self@.poller.active,
    {
        self.poller.current_ticket()
    }

    /// The rendering path the sink graph was built for.
    pub fn sink_path(&self) -> (p: Option<SinkPath>)
        ensures
            p == self@.engine.sink,
    {
        self.engine.sink_path()
    }

    /// How many times the sink graph builder has run; never more than
    /// once.
    pub fn sink_build_count(&self) -> (n: u64)
        ensures
            n as nat == self@.engine.sink_builds,
    {
        self.engine.sink_build_count()
    }
}

/// Loading a new source while playing stops the poller — its epoch is
/// superseded, so even a timer that still fires is rejected — and the
/// controls are disabled the moment the controller enters `Loading`.
pub proof fn lemma_load_while_playing_stops_poller(m: ControllerModel, uri: Seq<char>)
    requires
        ctrl_wf(m),
        m.state is Playing,
    ensures
        ({
            let m1 = ctrl_load_step(m, uri);
            &&& m1.state is Loading
            &&& !m1.poller.active
            &&& !spec_controls_enabled(m1.state)
            &&& !poller_accepts(m1.poller, m.poller.epoch)
        }),
{
}

/// Anything the presentation layer can ask of a controller, for stating
/// properties of whole histories of intents, events and ticks.
pub ghost enum ControllerOp {
    Load(Seq<char>),
    Toggle,
    Seek(int),
    Event(nat, PipelineEvent),
    Sample(nat, PositionSample),
    Fullscreen,
}

/// The controller state after one operation, exactly as the
/// corresponding method's contract describes it.
pub open spec fn ctrl_op_step(m: ControllerModel, op: ControllerOp) -> ControllerModel {
    match op {
        ControllerOp::Load(uri) => ctrl_load_step(m, uri),
        ControllerOp::Toggle => ctrl_toggle_step(m, POLL_INTERVAL_MS),
        ControllerOp::Seek(target) => ctrl_seek_step(m, target),
        ControllerOp::Event(g, ev) => ctrl_event_step(m, g, ev),
        ControllerOp::Sample(t, sample) => ctrl_sample_step(m, t, sample),
        ControllerOp::Fullscreen => ctrl_fullscreen_step(m),
    }
}

/// The controller state after a whole history of operations.
pub open spec fn ctrl_run(m: ControllerModel, ops: Seq<ControllerOp>) -> ControllerModel
    decreases ops.len(),
{
    if ops.len() == 0 {
        m
    } else {
        ctrl_run(ctrl_op_step(m, ops[0]), ops.drop_first())
    }
}

/// The controller invariant holds along every history of intents,
/// pipeline events and timer ticks: in particular the poller stays armed
/// exactly while playback runs, and the sink graph built at startup is
/// never rebuilt nor replaced, no matter how often playback is started,
/// stopped or re-sourced.
pub proof fn lemma_invariant_along_every_history(m: ControllerModel, ops: Seq<ControllerOp>)
    requires
        ctrl_wf(m),
    ensures
        ctrl_wf(ctrl_run(m, ops)),
        ctrl_run(m, ops).engine.sink == m.engine.sink,
        ctrl_run(m, ops).engine.sink_builds == m.engine.sink_builds,
    decreases ops.len(),
{
    if ops.len() > 0 {
        let m1 = ctrl_op_step(m, ops[0]);
        assert(ctrl_wf(m1));
        lemma_invariant_along_every_history(m1, ops.drop_first());
    }
}

/// Only events of the generation matching the most recent load ever reach
/// the controller: after a load, an event tagged with any generation
/// handed out earlier is dropped with no observable effect.
pub proof fn lemma_stale_generation_ignored(
    m: ControllerModel,
    uri: Seq<char>,
    g: nat,
    ev: PipelineEvent,
)
    requires
        g <= m.engine.generation,
    ensures
        ({
            let m1 = ctrl_load_step(m, uri);
            ctrl_event_step(m1, g, ev) == m1
        }),
{
}

} // verus!
