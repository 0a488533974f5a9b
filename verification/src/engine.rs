//! The playback engine: the single owner of the media pipeline.
//!
//! One engine exists per window for the window's whole lifetime.  Its sink
//! graph is built at most once, on first use, and is immutable afterwards.
//! Every source load is tagged with a fresh generation; pipeline events
//! carry the generation of the load they belong to, and the engine accepts
//! an event only when its tag matches the latest load.  Loading a new
//! source therefore abandons an in-flight load without any explicit
//! cancellation: the superseded generation's events are silently dropped.
//!
//! Seek targets are clamped to `[0, duration]` once the duration is known;
//! while it is unknown, seeking is rejected as a no-op, not an error.

use vstd::prelude::*;

use crate::sink::{spec_sink_path_for, SinkGraph, SinkGraphBuilder, SinkPath, SinkProbe,
    SinkUnavailable};

verus! {

/// An event the pipeline reports about the current load: the events are
/// the only channel through which later corrections reach the controller.
#[derive(Debug)]
pub enum PipelineEvent {
    /// The total duration of the loaded source, in whole seconds.
    DurationKnown(u64),
    /// The playback position advanced to this many whole seconds.
    PositionAdvanced(u64),
    /// The load or playback failed; the reason is free text for display.
    PlaybackError(String),
}

/// What a seek request came to.  A rejected seek is a no-op that callers
/// can tell apart from an applied one.
#[derive(Clone, Copy, Debug, PartialEq, Eq, Structural)]
pub enum SeekOutcome {
    /// The seek was applied at this clamped position, in whole seconds.
    Applied(u64),
    /// The duration is not yet known (or no source is loaded): nothing
    /// changed.
    Rejected,
}

/// The engine as the specifications see it.
pub ghost struct EngineModel {
    /// The rendering path of the sink graph, once built.
    pub sink: Option<SinkPath>,
    /// How many times the sink graph builder has run for this engine.
    pub sink_builds: nat,
    /// The tag of the most recent source load; handed out by `set_source`
    /// and compared against every incoming event.
    pub generation: nat,
    /// The active media source, read-only once applied.
    pub source: Option<Seq<char>>,
    /// The source's total duration in whole seconds, once reported by an
    /// event of the current generation.
    pub duration: Option<u64>,
}

/// The engine's internal invariant: the builder has run exactly as often
/// as a sink exists — never twice.
pub open spec fn engine_wf(m: EngineModel) -> bool {
    m.sink_builds == (if m.sink is Some {
        1nat
    } else {
        0nat
    })
}

/// A freshly constructed engine: no sink yet, no source, nothing known.
pub open spec fn engine_init() -> EngineModel {
    EngineModel { sink: None, sink_builds: 0, generation: 0, source: None, duration: None }
}

/// Lazy sink construction: a second call finds the sink built and does
/// nothing; an unavailable probe leaves the engine without a sink.
pub open spec fn engine_ensure_sink(m: EngineModel, probe: SinkProbe) -> EngineModel {
    if m.sink is Some {
        m
    } else {
        match spec_sink_path_for(probe) {
            Some(path) => EngineModel { sink: Some(path), sink_builds: m.sink_builds + 1, ..m },
            None => m,
        }
    }
}

/// Applying a new source: the generation advances, the new source is
/// active, and everything derived from the old one is invalidated.
pub open spec fn engine_set_source(m: EngineModel, uri: Seq<char>) -> EngineModel {
    EngineModel { generation: m.generation + 1, source: Some(uri), duration: None, ..m }
}

/// Whether an event tagged `g` belongs to the latest load.  Before any
/// load no tag has been handed out, so nothing is accepted.
pub open spec fn engine_accepts(m: EngineModel, g: nat) -> bool {
    m.source is Some && g == m.generation
}

/// Delivering an event: a stale tag changes nothing; a current
/// `DurationKnown` records the duration; other current events carry
/// information for the controller but leave the engine as it was.
pub open spec fn engine_deliver(m: EngineModel, g: nat, ev: PipelineEvent) -> EngineModel {
    if engine_accepts(m, g) {
        match ev {
            PipelineEvent::DurationKnown(d) => EngineModel { duration: Some(d), ..m },
            PipelineEvent::PositionAdvanced(_) => m,
            PipelineEvent::PlaybackError(_) => m,
        }
    } else {
        m
    }
}

/// A later duration report for the current playback: the latest value
/// wins; an absent one changes nothing.
pub open spec fn engine_refresh_duration(m: EngineModel, total: Option<u64>) -> EngineModel {
    match total {
        Some(d) => EngineModel { duration: Some(d), ..m },
        None => m,
    }
}

/// Where a seek to `target` (whole seconds, possibly negative) comes out:
/// clamped to `[0, duration]` when the duration is known, rejected
/// otherwise.
pub open spec fn spec_clamped_position(target: int, duration: u64) -> u64 {
    if target < 0 {
        0u64
    } else if target > duration {
        duration
    } else {
        target as u64
    }
}

/// The outcome a seek request must have against engine state `m`.
pub open spec fn spec_seek_outcome(m: EngineModel, target: int) -> SeekOutcome {
    match m.duration {
        Some(d) => SeekOutcome::Applied(spec_clamped_position(target, d)),
        None => SeekOutcome::Rejected,
    }
}

/// The single pipeline owner.  The real pipeline lives outside; this type
/// holds every decision made about it: which sink graph it gets, which
/// load is current, what is known about that load, and what each
/// transport command amounts to.
pub struct PlaybackEngine {
    sink: Option<SinkGraph>,
    sink_builds: u64,
    generation: u64,
    source: Option<String>,
    duration: Option<u64>,
}

impl View for PlaybackEngine {
    type V = EngineModel;

    closed spec fn view(&self) -> EngineModel {
        EngineModel {
            sink: match self.sink {
                Some(g) => Some(g.path),
                None => None,
            },
            sink_builds: self.sink_builds as nat,
            generation: self.generation as nat,
            source: match self.source {
                Some(s) => Some(s@),
                None => None,
            },
            duration: self.duration,
        }
    }
}

impl PlaybackEngine {
    /// A fresh engine with nothing built and nothing loaded.
    pub fn new() -> (e: PlaybackEngine)
        ensures
            e@ == engine_init(),
    {
        PlaybackEngine { sink: None, sink_builds: 0, generation: 0, source: None, duration: None }
    }

    /// Build the sink graph if it has not been built yet.  The capability
    /// decision is made here exactly once per engine; later calls return
    /// without re-evaluating it.  An unavailable surface is fatal: the
    /// engine stays sinkless and the error must abort window construction.
    pub fn ensure_sink(&mut self, probe: SinkProbe) -> (r: Result<(), SinkUnavailable>)
        requires
            engine_wf(old(self)@),
        ensures
            final(self)@ == engine_ensure_sink(old(self)@, probe),
            engine_wf(final(self)@),
            r is Ok <==> final(self)@.sink is Some,
            r is Ok <==> (old(self)@.sink is Some || !(probe is Unavailable)),
    {
        if self.sink.is_some() {
            return Ok(());
        }
        let builder = SinkGraphBuilder::new();
        match builder.build(probe) {
            Ok(graph) => {
                self.sink = Some(graph);
                self.sink_builds = self.sink_builds + 1;
                Ok(())
            },
            Err(e) => Err(e),
        }
    }

    /// Apply a new media source and return the generation tag of this
    /// load.  Pipeline events belonging to the load must carry this tag.
    /// Everything derived from the previous source is invalidated.
    pub fn set_source(&mut self, uri: String) -> (generation: u64)
        requires
            old(self)@.generation < u64::MAX as nat,
        ensures
            final(self)@ == engine_set_source(old(self)@, uri@),
            generation as nat == final(self)@.generation,
    {
        self.generation = self.generation + 1;
        self.source = Some(uri);
        self.duration = None;
        self.generation
    }

    /// Deliver a pipeline event tagged with the generation of the load it
    /// belongs to.  Returns whether the event belongs to the latest load;
    /// a stale event is dropped without any effect.
    pub fn deliver(&mut self, generation: u64, event: &PipelineEvent) -> (accepted: bool)
        ensures
            final(self)@ == engine_deliver(old(self)@, generation as nat, *event),
            accepted == engine_accepts(old(self)@, generation as nat),
    {
        if self.source.is_some() && generation == self.generation {
            if let PipelineEvent::DurationKnown(d) = event {
                self.duration = Some(*d);
            }
            true
        } else {
            false
        }
    }

    /// Record a duration reported alongside a position sample of the
    /// current playback: the latest value wins.
    pub fn refresh_duration(&mut self, total: Option<u64>)
        ensures
            final(self)@ == engine_refresh_duration(old(self)@, total),
    {
        if let Some(d) = total {
            self.duration = Some(d);
        }
    }

    /// Command the pipeline to play.  Returns whether the command was
    /// issued: before the duration of a load is known the engine is not
    /// ready and the call is a no-op.
    pub fn play(&mut self) -> (issued: bool)
        ensures
            final(self)@ == old(self)@,
            issued == (old(self)@.duration is Some),
    {
        self.duration.is_some()
    }

    /// Command the pipeline to pause.  Same readiness rule as `play`.
    pub fn pause(&mut self) -> (issued: bool)
        ensures
            final(self)@ == old(self)@,
            issued == (old(self)@.duration is Some),
    {
        self.duration.is_some()
    }

    /// Request a seek to `target` whole seconds.  Applied with the target
    /// clamped to `[0, duration]` when the duration is known; rejected as
    /// a distinguishable no-op while it is unknown.
    pub fn seek(&mut self, target: i64) -> (r: SeekOutcome)
        ensures
            final(self)@ == old(self)@,
            r == spec_seek_outcome(old(self)@, target as int),
    {
        match self.duration {
            None => SeekOutcome::Rejected,
            Some(d) => {
                let pos: u64 = if target < 0 {
                    0
                } else {
                    let t: u64 = target as u64;
                    if t > d {
                        d
                    } else {
                        t
                    }
                };
                SeekOutcome::Applied(pos)
            },
        }
    }

    /// The active source URI, if a source was ever set.
    pub fn source_uri(&self) -> (uri: Option<String>)
        ensures
            uri is Some <==> self@.source is Some,
            uri matches Some(u) ==> Some(u@) == self@.source,
    {
        match &self.source {
            Some(s) => Some(s.clone()),
            None => None,
        }
    }

    /// The generation tag of the latest load.
    pub fn current_generation(&self) -> (g: u64)
        ensures
            g as nat == self@.generation,
    {
        self.generation
    }

    /// The duration of the current source, if an event of the current
    /// generation has reported it.
    pub fn known_duration(&self) -> (d: Option<u64>)
        ensures
            d == self@.duration,
    {
        self.duration
    }

    /// The rendering path decided for this engine, once the sink graph is
    /// built.
    pub fn sink_path(&self) -> (p: Option<SinkPath>)
        ensures
            p == self@.sink,
    {
        match &self.sink {
            Some(g) => Some(g.path),
            None => None,
        }
    }

    /// How many times the sink graph builder has run for this engine.
    pub fn sink_build_count(&self) -> (n: u64)
        ensures
            n as nat == self@.sink_builds,
    {
        self.sink_builds
    }
}

/// Anything the surrounding program can ask of an engine, for stating
/// properties of whole histories of calls.
pub ghost enum EngineOp {
    EnsureSink(SinkProbe),
    SetSource(Seq<char>),
    Deliver(nat, PipelineEvent),
    RefreshDuration(Option<u64>),
    Play,
    Pause,
    Seek(int),
}

/// The engine state after one operation, exactly as the corresponding
/// method's contract describes it.
pub open spec fn engine_op_step(m: EngineModel, op: EngineOp) -> EngineModel {
    match op {
        EngineOp::EnsureSink(probe) => engine_ensure_sink(m, probe),
        EngineOp::SetSource(uri) => engine_set_source(m, uri),
        EngineOp::Deliver(g, ev) => engine_deliver(m, g, ev),
        EngineOp::RefreshDuration(total) => engine_refresh_duration(m, total),
        EngineOp::Play => m,
        EngineOp::Pause => m,
        EngineOp::Seek(_) => m,
    }
}

/// The engine state after a whole history of operations.
pub open spec fn engine_run(m: EngineModel, ops: Seq<EngineOp>) -> EngineModel
    decreases ops.len(),
{
    if ops.len() == 0 {
        m
    } else {
        engine_run(engine_op_step(m, ops[0]), ops.drop_first())
    }
}

/// The sink graph is built at most once per engine, no matter what the
/// history holds — starts, stops, loads, seeks, even repeated lazy
/// construction calls.  Once built, the capability decision never
/// changes.
pub proof fn lemma_sink_built_at_most_once(m: EngineModel, ops: Seq<EngineOp>)
    requires
        engine_wf(m),
    ensures
        engine_wf(engine_run(m, ops)),
        engine_run(m, ops).sink_builds <= 1,
        engine_run(m, ops).sink_builds >= m.sink_builds,
        m.sink is Some ==> engine_run(m, ops).sink == m.sink && engine_run(m, ops).sink_builds
            == m.sink_builds,
    decreases ops.len(),
{
    if ops.len() > 0 {
        let m1 = engine_op_step(m, ops[0]);
        assert(engine_wf(m1));
        lemma_sink_built_at_most_once(m1, ops.drop_first());
    }
}

/// A seek against a known duration always lands inside `[0, duration]`:
/// targets below zero land on zero, targets past the end land on the end,
/// and targets inside the range are taken as they are.
pub proof fn lemma_seek_clamps_to_range(target: int, duration: u64)
    ensures
        spec_clamped_position(target, duration) <= duration,
        target < 0 ==> spec_clamped_position(target, duration) == 0,
        target > duration ==> spec_clamped_position(target, duration) == duration,
        0 <= target <= duration ==> spec_clamped_position(target, duration) == target,
{
}

/// Generations never move backwards: every tag handed out by an earlier
/// load stays below or at the tag of every later one.
pub proof fn lemma_generation_monotonic(m: EngineModel, ops: Seq<EngineOp>)
    ensures
        engine_run(m, ops).generation >= m.generation,
    decreases ops.len(),
{
    if ops.len() > 0 {
        lemma_generation_monotonic(engine_op_step(m, ops[0]), ops.drop_first());
    }
}

/// An event whose tag is not the latest load's is dropped without any
/// effect on the engine.
pub proof fn lemma_stale_event_dropped(m: EngineModel, g: nat, ev: PipelineEvent)
    requires
        !engine_accepts(m, g),
    ensures
        engine_deliver(m, g, ev) == m,
{
}

/// Loading a new source abandons the previous load: afterwards, every
/// event tagged with any generation handed out before the load — the
/// previous load's included — is dropped.
pub proof fn lemma_superseded_generation_dropped(
    m: EngineModel,
    uri: Seq<char>,
    g: nat,
    ev: PipelineEvent,
)
    requires
        g <= m.generation,
    ensures
        ({
            let m1 = engine_set_source(m, uri);
            engine_deliver(m1, g, ev) == m1
        }),
{
}

} // verus!
