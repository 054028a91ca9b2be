//! How the health service's data sink is put together from its
//! configuration: which sinks and event processors it has, and whether the
//! processors run in front of the sinks.

use vstd::prelude::*;

verus! {

/// A sink events are delivered to.
#[derive(Clone, Copy, Debug, PartialEq, Eq, Structural)]
pub enum SinkKind {
    Tracing,
    Prometheus,
    HealthOverride,
}

/// A processor that derives events from events.
#[derive(Clone, Copy, Debug, PartialEq, Eq, Structural)]
pub enum ProcessorKind {
    /// Turns collected readings into health reports.
    HealthReport,
    /// Detects leaks, with this minimum number of leak alerts per report.
    LeakDetection(usize),
}

/// Which sinks and processors the configuration enables.
#[derive(Clone, Copy, Debug)]
pub struct SinksEnabled {
    pub tracing: bool,
    pub prometheus: bool,
    pub health_override: bool,
    /// The leak detection threshold, when leak detection is enabled.
    pub leak_detection: Option<usize>,
}

/// The data sink of the service.
pub enum DataSinkPlan {
    /// No sink is enabled: events are dropped.
    NoSink,
    /// The sinks, together, receive every event.
    Composite(Vec<SinkKind>),
    /// The processors run on each event and the sinks receive what comes out.
    Pipeline(Vec<ProcessorKind>, Vec<SinkKind>),
}

/// `k` when `on`, else nothing.
pub open spec fn when<T>(on: bool, k: T) -> Seq<T> {
    if on {
        seq![k]
    } else {
        Seq::empty()
    }
}

/// The enabled sinks, in the order they are created.
pub open spec fn sinks_of(cfg: SinksEnabled) -> Seq<SinkKind> {
    when(cfg.tracing, SinkKind::Tracing) + when(cfg.prometheus, SinkKind::Prometheus) + when(
        cfg.health_override,
        SinkKind::HealthOverride,
    )
}

/// The processors, in the order they run: health reports are derived only
/// when something consumes them (tracing, the health override sink or leak
/// detection); then leak detection, when enabled.
pub open spec fn processors_of(cfg: SinksEnabled) -> Seq<ProcessorKind> {
    when(cfg.tracing || cfg.health_override || cfg.leak_detection is Some, ProcessorKind::HealthReport)
        + match cfg.leak_detection {
        Some(n) => seq![ProcessorKind::LeakDetection(n)],
        None => Seq::empty(),
    }
}

/// The data sink for `cfg`: none without sinks; the sinks alone without
/// processors; otherwise the processors in front of the sinks.
pub fn data_sink_plan(cfg: SinksEnabled) -> (r: DataSinkPlan)
    ensures
        sinks_of(cfg).len() == 0 ==> r is NoSink,
        sinks_of(cfg).len() != 0 && processors_of(cfg).len() == 0 ==> (r matches DataSinkPlan::Composite(s)
            && s@ == sinks_of(cfg)),
        sinks_of(cfg).len() != 0 && processors_of(cfg).len() != 0 ==> (r matches DataSinkPlan::Pipeline(p, s)
            && p@ == processors_of(cfg) && s@ == sinks_of(cfg)),
{
    let mut sinks: Vec<SinkKind> = Vec::new();
    if cfg.tracing {
        sinks.push(SinkKind::Tracing);
    }
    if cfg.prometheus {
        sinks.push(SinkKind::Prometheus);
    }
    let mut processors: Vec<ProcessorKind> = Vec::new();
    if cfg.tracing || cfg.health_override || cfg.leak_detection.is_some() {
        processors.push(ProcessorKind::HealthReport);
    }
    match cfg.leak_detection {
        Some(n) => processors.push(ProcessorKind::LeakDetection(n)),
        None => {},
    }
    if cfg.health_override {
        sinks.push(SinkKind::HealthOverride);
    }
    assert(sinks@ =~= sinks_of(cfg));
    assert(processors@ =~= processors_of(cfg));
    if sinks.len() == 0 {
        DataSinkPlan::NoSink
    } else if processors.len() == 0 {
        DataSinkPlan::Composite(sinks)
    } else {
        DataSinkPlan::Pipeline(processors, sinks)
    }
}

} // verus!
