//! Choosing and describing the rendering sink graph.
//!
//! At startup the presentation layer probes whether its paintable surface
//! offers a hardware-backed rendering context.  The builder here turns the
//! probe result into the sink graph the pipeline must be given: either the
//! direct accelerated sink, or a composite of a format-conversion stage
//! linked in front of the base sink so both paths look uniform to the
//! engine.  If no sink can be constructed at all, playback is impossible
//! for the whole window lifetime and the failure is surfaced at startup.

use vstd::prelude::*;

verus! {

/// What probing the presentation surface found.
#[derive(Clone, Copy, Debug, PartialEq, Eq, Structural)]
pub enum SinkProbe {
    /// A hardware-backed rendering context is available.
    Accelerated,
    /// Only a software path is available; frames need format conversion.
    Software,
    /// No sink element can be constructed at all.
    Unavailable,
}

/// The shape of the sink graph the pipeline is built with.
#[derive(Clone, Copy, Debug, PartialEq, Eq, Structural)]
pub enum SinkPath {
    /// The base sink bound directly to the hardware-capable context.
    Accelerated,
    /// A conversion stage linked to the base sink, exposed as one
    /// composite sink.
    SoftwareConverted,
}

/// The constructed sink graph: its capability decision, made once per
/// engine lifetime and immutable thereafter.
#[derive(Clone, Copy, Debug, PartialEq, Eq, Structural)]
pub struct SinkGraph {
    /// Which rendering path the graph was built for.
    pub path: SinkPath,
}

/// Fatal startup failure: no sink element could be constructed, so no
/// source can ever be rendered in this window.
#[derive(Clone, Copy, Debug, PartialEq, Eq, Structural)]
pub struct SinkUnavailable;

/// The sink path a probe result leads to, or `None` when no sink can be
/// built.
pub open spec fn spec_sink_path_for(probe: SinkProbe) -> Option<SinkPath> {
    match probe {
        SinkProbe::Accelerated => Some(SinkPath::Accelerated),
        SinkProbe::Software => Some(SinkPath::SoftwareConverted),
        SinkProbe::Unavailable => None,
    }
}

/// Builds the sink graph for a probed surface capability.  The engine
/// invokes it once and caches the result.
pub struct SinkGraphBuilder;

impl SinkGraphBuilder {
    /// A fresh builder.
    pub fn new() -> (b: SinkGraphBuilder) {
        SinkGraphBuilder
    }

    /// Decide the rendering path for `probe` and describe the graph to
    /// construct.  Consumes the builder: one decision per builder.
    ///
    /// An accelerated context yields the direct accelerated sink; a
    /// software-only surface yields the conversion-stage composite; an
    /// unavailable surface is a fatal startup error.
    pub fn build(self, probe: SinkProbe) -> (r: Result<SinkGraph, SinkUnavailable>)
        ensures
            r matches Ok(g) ==> Some(g.path) == spec_sink_path_for(probe),
            r is Ok <==> !(probe is Unavailable),
    {
        match probe {
            SinkProbe::Accelerated => Ok(SinkGraph { path: SinkPath::Accelerated }),
            SinkProbe::Software => Ok(SinkGraph { path: SinkPath::SoftwareConverted }),
            SinkProbe::Unavailable => Err(SinkUnavailable),
        }
    }
}

} // verus!
