//! The result router: which storage backend receives a run's metrics and
//! which receives its samples. The relational store is always there and is
//! the one fallback when a preferred backend is not configured.
use vstd::prelude::*;

use crate::eval::{OutputConfig, SampleRecord, SampleResultLocation};

verus! {

/// A storage backend for results.
#[derive(Clone, Copy, Debug, PartialEq, Eq, Structural)]
pub enum Backend {
    Relational,
    Analytics,
    ObjectStore,
}

/// Which of the optional backends this worker was configured with.
#[derive(Clone, Copy, Debug, PartialEq, Eq, Structural)]
pub struct ConfiguredBackends {
    pub analytics: bool,
    pub object_store: bool,
}

/// How the samples of a result are to be stored.
#[derive(Clone, Debug)]
pub enum SampleWrite {
    /// Write the inline samples to a backend.
    Inline { backend: Backend, samples: Vec<SampleRecord> },
    /// The engine already stored the samples: record where, against the run,
    /// in the relational store.
    Location { run_id: u128, location: SampleResultLocation },
}

/// Where each part of an evaluation result goes. `M` is the metric record.
#[derive(Clone, Debug)]
pub struct PersistPlan<M> {
    pub metrics_backend: Backend,
    pub metrics: Vec<M>,
    pub samples: SampleWrite,
}

/// Whether a backend is available: the relational store always is.
pub open spec fn is_available(backend: Backend, configured: ConfiguredBackends) -> bool {
    match backend {
        Backend::Relational => true,
        Backend::Analytics => configured.analytics,
        Backend::ObjectStore => configured.object_store,
    }
}

/// Metrics go to the analytics store only when the run asks for it and it is
/// configured; everywhere else to the relational store.
pub open spec fn metrics_target(output: OutputConfig, configured: ConfiguredBackends) -> Backend {
    if output is ClickHouse && configured.analytics {
        Backend::Analytics
    } else {
        Backend::Relational
    }
}

/// Inline samples go to the backend that the output mode prefers when it is
/// configured, else to the relational store.
pub open spec fn inline_samples_target(output: OutputConfig, configured: ConfiguredBackends) -> Backend {
    match output {
        OutputConfig::DbOnly => Backend::Relational,
        OutputConfig::ObjectStore { .. } => if configured.object_store {
            Backend::ObjectStore
        } else {
            Backend::Relational
        },
        OutputConfig::ClickHouse { .. } | OutputConfig::Hybrid { .. } => if configured.analytics {
            Backend::Analytics
        } else {
            Backend::Relational
        },
    }
}

pub fn metrics_backend(output: &OutputConfig, configured: ConfiguredBackends) -> (b: Backend)
    ensures
        b == metrics_target(*output, configured),
{
    match output {
        OutputConfig::ClickHouse { .. } => if configured.analytics {
            Backend::Analytics
        } else {
            Backend::Relational
        },
        _ => Backend::Relational,
    }
}

pub fn inline_samples_backend(output: &OutputConfig, configured: ConfiguredBackends) -> (b: Backend)
    ensures
        b == inline_samples_target(*output, configured),
{
    match output {
        OutputConfig::DbOnly => Backend::Relational,
        OutputConfig::ObjectStore { .. } => if configured.object_store {
            Backend::ObjectStore
        } else {
            Backend::Relational
        },
        OutputConfig::ClickHouse { .. } | OutputConfig::Hybrid { .. } => if configured.analytics {
            Backend::Analytics
        } else {
            Backend::Relational
        },
    }
}

/// Plans the storage of an evaluation result of run `run_id`. Every metric
/// record goes, in order, to one backend, whatever the output mode; inline
/// samples go whole to one backend; a reported location is recorded, not
/// copied.
pub fn plan_persistence<M>(
    output: &OutputConfig,
    configured: ConfiguredBackends,
    run_id: u128,
    metrics: Vec<M>,
    samples: SampleResultLocation,
) -> (plan: PersistPlan<M>)
    ensures
        plan.metrics_backend == metrics_target(*output, configured),
        plan.metrics@ == metrics@,
        match samples {
            SampleResultLocation::Inline { samples } => plan.samples == (SampleWrite::Inline {
                backend: inline_samples_target(*output, configured),
                samples,
            }),
            _ => plan.samples == (SampleWrite::Location { run_id, location: samples }),
        },
{
    let metrics_backend = metrics_backend(output, configured);
    let samples = match samples {
        SampleResultLocation::Inline { samples } => SampleWrite::Inline {
            backend: inline_samples_backend(output, configured),
            samples,
        },
        location => SampleWrite::Location { run_id, location },
    };
    PersistPlan { metrics_backend, metrics, samples }
}

/// The router never picks a backend that is not configured: a preferred
/// backend that is missing falls back to the relational store.
pub proof fn targets_are_available(output: OutputConfig, configured: ConfiguredBackends)
    ensures
        is_available(metrics_target(output, configured), configured),
        is_available(inline_samples_target(output, configured), configured),
{
}

/// A run that asks for the analytics store on a worker without one has both
/// its metrics and its inline samples stored in the relational store.
pub proof fn analytics_fallback(output: OutputConfig, configured: ConfiguredBackends)
    requires
        output is ClickHouse,
        !configured.analytics,
    ensures
        metrics_target(output, configured) == Backend::Relational,
        inline_samples_target(output, configured) == Backend::Relational,
{
}

/// Metrics leave the relational store only for a run that asks for the
/// analytics store.
pub proof fn metrics_stay_relational(output: OutputConfig, configured: ConfiguredBackends)
    requires
        !(output is ClickHouse),
    ensures
        metrics_target(output, configured) == Backend::Relational,
{
}

} // verus!
