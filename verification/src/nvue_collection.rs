//! One collection round of the NVUE REST collector: the events it emits
//! for what each fetch returned, what each fetch contributed, and the
//! labels and keys of its metrics.

use vstd::prelude::*;
use crate::health_metrics::{
    app_status_code, app_status_value, diagnostic_opcode_code, diagnostic_opcode_value, nvue_metric_key,
    partition_health_code, partition_health_value, system_health_code, system_health_value, IterationResult,
};
use crate::text::{extend_str, string_of};

verus! {

/// The outcome of one NVUE fetch.
#[derive(Clone, Copy, Debug, PartialEq, Eq, Structural)]
pub enum Fetched {
    /// The request failed.
    Failed,
    /// The switch has nothing of this kind.
    Absent,
    /// This many entities were read and emitted.
    Got(usize),
}

/// Entities a fetch contributed.
pub open spec fn entities(f: Fetched) -> nat {
    match f {
        Fetched::Got(n) => n as nat,
        _ => 0,
    }
}

/// Failures a fetch contributed.
pub open spec fn failures(f: Fetched) -> nat {
    match f {
        Fetched::Failed => 1,
        _ => 0,
    }
}

fn entities_of(f: Fetched) -> (n: usize)
    ensures
        n == entities(f),
{
    match f {
        Fetched::Got(n) => n,
        _ => 0,
    }
}

/// The result of a round from its four fetches (system health, cluster
/// applications, SDN partitions, link diagnostics): data is always fresh,
/// the entities are those read, and each failed fetch is a tolerated
/// failure.
pub fn nvue_iteration_result(
    system_health: Fetched,
    apps: Fetched,
    partitions: Fetched,
    diagnostics: Fetched,
) -> (r: IterationResult)
    requires
        entities(system_health) + entities(apps) + entities(partitions) + entities(diagnostics)
            <= usize::MAX,
    ensures
        r.refresh_triggered,
        r.entity_count == Some(
            (entities(system_health) + entities(apps) + entities(partitions) + entities(diagnostics)) as usize,
        ),
        r.fetch_failures == failures(system_health) + failures(apps) + failures(partitions)
            + failures(diagnostics),
{
    let count = entities_of(system_health) + entities_of(apps) + entities_of(partitions) + entities_of(
        diagnostics,
    );
    let mut failed: usize = 0;
    if system_health == Fetched::Failed {
        failed = failed + 1;
    }
    if apps == Fetched::Failed {
        failed = failed + 1;
    }
    if partitions == Fetched::Failed {
        failed = failed + 1;
    }
    if diagnostics == Fetched::Failed {
        failed = failed + 1;
    }
    IterationResult { refresh_triggered: true, entity_count: Some(count), fetch_failures: failed }
}

/// The name a partition is shown by: its name, else its id.
pub fn partition_display_name(name: &Option<String>, id: &str) -> (r: String)
    ensures
        r@ == match name {
            Some(n) => n@,
            None => id@,
        },
{
    match name {
        Some(n) => n.clone(),
        None => String::from_str(id),
    }
}

/// The entity qualifier of a link diagnostic: `interface:code`.
pub fn link_diagnostic_qualifier(interface: &str, code: &str) -> (r: String)
    ensures
        r@ == interface@ + ":"@ + code@,
{
    let mut v: Vec<char> = Vec::new();
    extend_str(&mut v, interface);
    extend_str(&mut v, ":");
    extend_str(&mut v, code);
    string_of(&v)
}

/// What one NVUE fetch returned.
pub enum Fetch<T> {
    /// The request failed.
    Failed,
    /// The switch has nothing of this kind.
    Absent,
    /// What was read.
    Got(T),
}

/// One cluster application as NVUE reports it.
pub struct AppFacts {
    pub name: String,
    pub status: Option<String>,
}

/// One SDN partition as NVUE reports it.
pub struct PartitionFacts {
    pub id: String,
    pub name: Option<String>,
    pub health: Option<String>,
    pub num_gpus: Option<u64>,
}

/// One link diagnostic as NVUE reports it.
pub struct LinkDiagnosticFacts {
    pub interface: String,
    pub code: String,
    pub status: String,
}

/// A metric sample the collector emits; its value is a state code or a count.
pub struct NvueMetric {
    pub key: String,
    pub metric_type: String,
    pub unit: String,
    pub value: u64,
    pub labels: Vec<(String, String)>,
}

/// An event the collector emits during a round.
pub enum NvueEvent {
    CollectionStart,
    Metric(NvueMetric),
    CollectionEnd,
}

/// A metric as plain values: key, metric type, unit, value and labels.
pub type MetricView = (Seq<char>, Seq<char>, Seq<char>, u64, Seq<(Seq<char>, Seq<char>)>);

/// The labels as plain values.
pub open spec fn labels_view(l: Seq<(String, String)>) -> Seq<(Seq<char>, Seq<char>)> {
    l.map_values(|p: (String, String)| (p.0@, p.1@))
}

/// A metric as plain values.
pub open spec fn metric_view(m: NvueMetric) -> MetricView {
    (m.key@, m.metric_type@, m.unit@, m.value, labels_view(m.labels@))
}

/// The text of an optional string.
pub open spec fn opt_text(s: Option<String>) -> Option<Seq<char>> {
    match s {
        Some(t) => Some(t@),
        None => None,
    }
}

/// The metric of the system health, when it was read.
pub open spec fn health_metrics(h: Fetch<Option<String>>) -> Seq<MetricView> {
    match h {
        Fetch::Got(status) => seq![
            ("system_health"@, "system_health"@, "state"@, system_health_value(opt_text(status)) as u64, Seq::empty()),
        ],
        _ => Seq::empty(),
    }
}

/// The metric of one cluster application.
pub open spec fn app_metric(a: AppFacts) -> MetricView {
    (
        "cluster_app"@ + ":"@ + a.name@,
        "cluster_app"@,
        "state"@,
        app_status_value(opt_text(a.status)) as u64,
        seq![("app_name"@, a.name@)],
    )
}

/// The metrics of the cluster applications, in the order read.
pub open spec fn app_metrics(apps: Seq<AppFacts>) -> Seq<MetricView> {
    apps.map_values(|a: AppFacts| app_metric(a))
}

/// The labels of a partition's metrics: its id and the name it is shown by.
pub open spec fn partition_labels(p: PartitionFacts) -> Seq<(Seq<char>, Seq<char>)> {
    seq![
        ("partition_id"@, p.id@),
        ("partition_name"@, match p.name {
            Some(n) => n@,
            None => p.id@,
        }),
    ]
}

/// The two metrics of a partition: its health, then its GPU count.
pub open spec fn partition_metric_pair(p: PartitionFacts) -> Seq<MetricView> {
    seq![
        ("partition_health"@ + ":"@ + p.id@, "partition_health"@, "state"@, partition_health_value(opt_text(p.health)) as u64,
            partition_labels(p)),
        ("partition_gpu"@ + ":"@ + p.id@, "partition_gpu"@, "count"@, match p.num_gpus {
            Some(n) => n,
            None => 0u64,
        }, partition_labels(p)),
    ]
}

/// The metrics of the partitions, two per partition, in the order read.
pub open spec fn partition_metrics(ps: Seq<PartitionFacts>) -> Seq<MetricView>
    decreases ps.len(),
{
    if ps.len() == 0 {
        Seq::empty()
    } else {
        partition_metrics(ps.drop_last()) + partition_metric_pair(ps.last())
    }
}

/// The metric of one link diagnostic.
pub open spec fn diagnostic_metric(d: LinkDiagnosticFacts) -> MetricView {
    (
        "link_diagnostic"@ + ":"@ + (d.interface@ + ":"@ + d.code@),
        "link_diagnostic"@,
        "state"@,
        diagnostic_opcode_value(d.code@) as u64,
        seq![("interface_name"@, d.interface@), ("opcode"@, d.code@), ("diagnostic_status"@, d.status@)],
    )
}

/// The metrics of the link diagnostics, in the order read.
pub open spec fn diagnostic_metrics(ds: Seq<LinkDiagnosticFacts>) -> Seq<MetricView> {
    ds.map_values(|d: LinkDiagnosticFacts| diagnostic_metric(d))
}

/// What a fetch of a list contributed.
pub open spec fn fetched_list<T>(f: Fetch<Vec<T>>) -> Fetched {
    match f {
        Fetch::Failed => Fetched::Failed,
        Fetch::Absent => Fetched::Absent,
        Fetch::Got(v) => Fetched::Got(v@.len() as usize),
    }
}

/// What the system health fetch contributed.
pub open spec fn fetched_health(h: Fetch<Option<String>>) -> Fetched {
    match h {
        Fetch::Failed => Fetched::Failed,
        Fetch::Absent => Fetched::Absent,
        Fetch::Got(_) => Fetched::Got(1),
    }
}

/// What the link diagnostics fetch contributed (`None` when it failed).
pub open spec fn fetched_diagnostics(d: Option<Vec<LinkDiagnosticFacts>>) -> Fetched {
    match d {
        None => Fetched::Failed,
        Some(v) => Fetched::Got(v@.len() as usize),
    }
}

/// The metrics of a round, in the order emitted.
pub open spec fn round_metrics(
    health: Fetch<Option<String>>,
    apps: Fetch<Vec<AppFacts>>,
    partitions: Fetch<Vec<PartitionFacts>>,
    diagnostics: Option<Vec<LinkDiagnosticFacts>>,
) -> Seq<MetricView> {
    health_metrics(health) + match apps {
        Fetch::Got(v) => app_metrics(v@),
        _ => Seq::empty(),
    } + match partitions {
        Fetch::Got(v) => partition_metrics(v@),
        _ => Seq::empty(),
    } + match diagnostics {
        Some(v) => diagnostic_metrics(v@),
        None => Seq::empty(),
    }
}

/// Whether `events` is the start event followed by the metrics `ms`.
pub open spec fn started_with(events: Seq<NvueEvent>, ms: Seq<MetricView>) -> bool {
    &&& events.len() == ms.len() + 1
    &&& events[0] is CollectionStart
    &&& forall|i: int| 0 <= i < ms.len() ==> (#[trigger] events[i + 1] matches NvueEvent::Metric(m) && metric_view(m)
        == ms[i])
}

fn opt_as_str(s: &Option<String>) -> (r: Option<&str>)
    ensures
        match r {
            Some(t) => Some(t@),
            None => None,
        } == opt_text(*s),
{
    match s {
        Some(t) => Some(t.as_str()),
        None => None,
    }
}

fn label(k: &str, v: &str) -> (r: (String, String))
    ensures
        r.0@ == k@,
        r.1@ == v@,
{
    (String::from_str(k), String::from_str(v))
}

fn push_metric(
    events: &mut Vec<NvueEvent>,
    metric_type: &str,
    qualifier: Option<&str>,
    value: u64,
    unit: &str,
    labels: Vec<(String, String)>,
    Ghost(ms): Ghost<Seq<MetricView>>,
)
    requires
        started_with(old(events)@, ms),
    ensures
        started_with(
            final(events)@,
            ms.push(
                (
                    match qualifier {
                        Some(q) => metric_type@ + ":"@ + q@,
                        None => metric_type@,
                    },
                    metric_type@,
                    unit@,
                    value,
                    labels_view(labels@),
                ),
            ),
        ),
{
    let key = nvue_metric_key(metric_type, qualifier);
    let m = NvueMetric {
        key,
        metric_type: String::from_str(metric_type),
        unit: String::from_str(unit),
        value,
        labels,
    };
    let ghost mv = metric_view(m);
    events.push(NvueEvent::Metric(m));
    assert forall|i: int| 0 <= i < ms.push(mv).len() implies (#[trigger] events@[i + 1] matches NvueEvent::Metric(
        m,
    ) && metric_view(m) == ms.push(mv)[i]) by {
        if i < ms.len() {
            assert(events@[i + 1] == old(events)@[i + 1]);
        }
    }
}

fn push_app_metrics(events: &mut Vec<NvueEvent>, list: &Vec<AppFacts>, Ghost(base): Ghost<Seq<MetricView>>)
    requires
        started_with(old(events)@, base),
    ensures
        started_with(final(events)@, base + app_metrics(list@)),
{
    let ghost mut ms = base;
    let mut i: usize = 0;
    while i < list.len()
        invariant
            i <= list@.len(),
            started_with(events@, ms),
            ms == base + app_metrics(list@.take(i as int)),
        decreases list.len() - i,
    {
        let a = &list[i];
        let code = app_status_code(opt_as_str(&a.status));
        let mut labels: Vec<(String, String)> = Vec::new();
        labels.push(label("app_name", a.name.as_str()));
        assert(labels_view(labels@) =~= seq![("app_name"@, a.name@)]);
        push_metric(events, "cluster_app", Some(a.name.as_str()), code as u64, "state", labels, Ghost(ms));
        proof {
            ms = ms.push(app_metric(*a));
            assert(app_metrics(list@.take(i + 1)) =~= app_metrics(list@.take(i as int)).push(app_metric(*a)));
        }
        i = i + 1;
    }
    assert(list@.take(list@.len() as int) =~= list@);
}

fn push_partition_metrics(events: &mut Vec<NvueEvent>, list: &Vec<PartitionFacts>, Ghost(base): Ghost<Seq<MetricView>>)
    requires
        started_with(old(events)@, base),
    ensures
        started_with(final(events)@, base + partition_metrics(list@)),
{
    let ghost mut ms = base;
    let mut i: usize = 0;
    assert(partition_metrics(list@.take(0)) =~= Seq::<MetricView>::empty());
    assert(base + Seq::<MetricView>::empty() =~= base);
    while i < list.len()
        invariant
            i <= list@.len(),
            started_with(events@, ms),
            ms == base + partition_metrics(list@.take(i as int)),
        decreases list.len() - i,
    {
        let p = &list[i];
        let shown = partition_display_name(&p.name, p.id.as_str());
        let code = partition_health_code(opt_as_str(&p.health));
        let mut labels: Vec<(String, String)> = Vec::new();
        labels.push(label("partition_id", p.id.as_str()));
        labels.push(label("partition_name", shown.as_str()));
        let mut labels2: Vec<(String, String)> = Vec::new();
        labels2.push(label("partition_id", p.id.as_str()));
        labels2.push(label("partition_name", shown.as_str()));
        let gpus: u64 = match p.num_gpus {
            Some(n) => n,
            None => 0,
        };
        let ghost pair = partition_metric_pair(*p);
        assert(labels_view(labels@) =~= partition_labels(*p));
        assert(labels_view(labels2@) =~= partition_labels(*p));
        push_metric(events, "partition_health", Some(p.id.as_str()), code as u64, "state", labels, Ghost(ms));
        assert(pair[0] == ("partition_health"@ + ":"@ + p.id@, "partition_health"@, "state"@, code as u64, labels_view(labels@)));
        proof {
            ms = ms.push(pair[0]);
        }
        push_metric(events, "partition_gpu", Some(p.id.as_str()), gpus, "count", labels2, Ghost(ms));
        assert(pair[1] == ("partition_gpu"@ + ":"@ + p.id@, "partition_gpu"@, "count"@, gpus, labels_view(labels2@)));
        proof {
            ms = ms.push(pair[1]);
            assert(list@.take(i + 1).drop_last() =~= list@.take(i as int));
            assert(list@.take(i + 1).last() == *p);
            assert(partition_metrics(list@.take(i + 1)) == partition_metrics(list@.take(i as int)) + pair);
            assert(ms =~= base + partition_metrics(list@.take(i + 1)));
        }
        i = i + 1;
    }
    assert(list@.take(list@.len() as int) =~= list@);
}

fn push_diagnostic_metrics(events: &mut Vec<NvueEvent>, list: &Vec<LinkDiagnosticFacts>, Ghost(base): Ghost<Seq<MetricView>>)
    requires
        started_with(old(events)@, base),
    ensures
        started_with(final(events)@, base + diagnostic_metrics(list@)),
{
    let ghost mut ms = base;
    let mut i: usize = 0;
    while i < list.len()
        invariant
            i <= list@.len(),
            started_with(events@, ms),
            ms == base + diagnostic_metrics(list@.take(i as int)),
        decreases list.len() - i,
    {
        let d = &list[i];
        let code = diagnostic_opcode_code(d.code.as_str());
        let q = link_diagnostic_qualifier(d.interface.as_str(), d.code.as_str());
        let mut labels: Vec<(String, String)> = Vec::new();
        labels.push(label("interface_name", d.interface.as_str()));
        labels.push(label("opcode", d.code.as_str()));
        labels.push(label("diagnostic_status", d.status.as_str()));
        assert(labels_view(labels@) =~= seq![
            ("interface_name"@, d.interface@),
            ("opcode"@, d.code@),
            ("diagnostic_status"@, d.status@),
        ]);
        push_metric(events, "link_diagnostic", Some(q.as_str()), code as u64, "state", labels, Ghost(ms));
        proof {
            ms = ms.push(diagnostic_metric(*d));
            assert(diagnostic_metrics(list@.take(i + 1)) =~= diagnostic_metrics(list@.take(i as int)).push(
                diagnostic_metric(*d),
            ));
        }
        i = i + 1;
    }
    assert(list@.take(list@.len() as int) =~= list@);
}

/// One round of the NVUE REST collector, from what its four fetches
/// returned (system health, cluster applications, SDN partitions, link
/// diagnostics; `None` for failed diagnostics): the events it emits, the
/// start of collection, one metric for the system health when read, one
/// per application, two per partition and one per diagnostic, then the end
/// of collection; and the round's result.
pub fn nvue_iteration_plan(
    health: Fetch<Option<String>>,
    apps: Fetch<Vec<AppFacts>>,
    partitions: Fetch<Vec<PartitionFacts>>,
    diagnostics: Option<Vec<LinkDiagnosticFacts>>,
) -> (r: (Vec<NvueEvent>, IterationResult))
    requires
        entities(fetched_health(health)) + entities(fetched_list(apps)) + entities(fetched_list(partitions))
            + entities(fetched_diagnostics(diagnostics)) <= usize::MAX,
    ensures
        r.0@.len() == round_metrics(health, apps, partitions, diagnostics).len() + 2,
        started_with(r.0@.drop_last(), round_metrics(health, apps, partitions, diagnostics)),
        r.0@.last() is CollectionEnd,
        r.1.refresh_triggered,
        r.1.entity_count == Some(
            (entities(fetched_health(health)) + entities(fetched_list(apps)) + entities(fetched_list(partitions))
                + entities(fetched_diagnostics(diagnostics))) as usize,
        ),
        r.1.fetch_failures == failures(fetched_health(health)) + failures(fetched_list(apps)) + failures(
            fetched_list(partitions),
        ) + failures(fetched_diagnostics(diagnostics)),
{
    let mut events: Vec<NvueEvent> = Vec::new();
    events.push(NvueEvent::CollectionStart);
    assert(started_with(events@, Seq::empty()));
    let f_health = match &health {
        Fetch::Got(status) => {
            let code = system_health_code(opt_as_str(status));
            push_metric(&mut events, "system_health", None, code as u64, "state", Vec::new(), Ghost(Seq::empty()));
            assert(labels_view(Seq::<(String, String)>::empty()) =~= Seq::empty());
            assert(Seq::<MetricView>::empty().push(health_metrics(health)[0]) =~= health_metrics(health));
            Fetched::Got(1)
        },
        Fetch::Absent => Fetched::Absent,
        Fetch::Failed => Fetched::Failed,
    };
    let ghost m1 = health_metrics(health);
    let f_apps = match &apps {
        Fetch::Got(list) => {
            push_app_metrics(&mut events, list, Ghost(m1));
            Fetched::Got(list.len())
        },
        Fetch::Absent => Fetched::Absent,
        Fetch::Failed => Fetched::Failed,
    };
    let ghost m2 = m1 + match apps {
        Fetch::Got(v) => app_metrics(v@),
        _ => Seq::empty(),
    };
    assert(started_with(events@, m2)) by {
        if !(apps is Got) {
            assert(m2 =~= m1);
        }
    }
    let f_parts = match &partitions {
        Fetch::Got(list) => {
            push_partition_metrics(&mut events, list, Ghost(m2));
            Fetched::Got(list.len())
        },
        Fetch::Absent => Fetched::Absent,
        Fetch::Failed => Fetched::Failed,
    };
    let ghost m3 = m2 + match partitions {
        Fetch::Got(v) => partition_metrics(v@),
        _ => Seq::empty(),
    };
    assert(started_with(events@, m3)) by {
        if !(partitions is Got) {
            assert(m3 =~= m2);
        }
    }
    let f_diags = match &diagnostics {
        Some(list) => {
            push_diagnostic_metrics(&mut events, list, Ghost(m3));
            Fetched::Got(list.len())
        },
        None => Fetched::Failed,
    };
    let ghost m4 = m3 + match diagnostics {
        Some(v) => diagnostic_metrics(v@),
        None => Seq::empty(),
    };
    assert(started_with(events@, m4)) by {
        if diagnostics is None {
            assert(m4 =~= m3);
        }
    }
    assert(m4 == round_metrics(health, apps, partitions, diagnostics));
    let ghost before = events@;
    events.push(NvueEvent::CollectionEnd);
    assert(events@.drop_last() =~= before);
    let result = nvue_iteration_result(f_health, f_apps, f_parts, f_diags);
    (events, result)
}

} // verus!
