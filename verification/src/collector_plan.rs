//! Which periodic collectors to start for a discovered BMC endpoint, how
//! their metric registries and metrics are named, and what one finished
//! iteration records.

use vstd::prelude::*;
use crate::health_metrics::IterationResult;
use crate::text::{contains_seq, extend_str, str_contains, string_of};

verus! {

/// The kinds of periodic collector run against an endpoint.
#[derive(Clone, Copy, Debug, PartialEq, Eq, Structural)]
pub enum CollectorKind {
    Sensor,
    Logs,
    Firmware,
    Nmxt,
    NvueRest,
}

/// Which collectors the configuration enables.
#[derive(Clone, Copy, Debug)]
pub struct CollectorsEnabled {
    pub sensors: bool,
    pub logs: bool,
    pub firmware: bool,
    pub nmxt: bool,
    /// NVUE is enabled and so is its REST collector.
    pub nvue_rest: bool,
}

/// Whether a kind of collector is wanted for an endpoint: NMX-T and NVUE
/// collectors run only against switches.
pub open spec fn wanted(cfg: CollectorsEnabled, k: CollectorKind, is_switch: bool) -> bool {
    match k {
        CollectorKind::Sensor => cfg.sensors,
        CollectorKind::Logs => cfg.logs,
        CollectorKind::Firmware => cfg.firmware,
        CollectorKind::Nmxt => cfg.nmxt && is_switch,
        CollectorKind::NvueRest => cfg.nvue_rest && is_switch,
    }
}

/// The place of a kind in the order collectors are started.
pub open spec fn kind_rank(k: CollectorKind) -> int {
    match k {
        CollectorKind::Sensor => 0,
        CollectorKind::Logs => 1,
        CollectorKind::Firmware => 2,
        CollectorKind::Nmxt => 3,
        CollectorKind::NvueRest => 4,
    }
}

/// `k`, when it is wanted and not already running.
pub open spec fn pick(cfg: CollectorsEnabled, running: Seq<CollectorKind>, is_switch: bool, k: CollectorKind) -> Seq<CollectorKind> {
    if wanted(cfg, k, is_switch) && !running.contains(k) {
        seq![k]
    } else {
        Seq::empty()
    }
}

/// The collectors to start, in the order they are started.
pub open spec fn start_plan(cfg: CollectorsEnabled, running: Seq<CollectorKind>, is_switch: bool) -> Seq<CollectorKind> {
    pick(cfg, running, is_switch, CollectorKind::Sensor) + pick(cfg, running, is_switch, CollectorKind::Logs)
        + pick(cfg, running, is_switch, CollectorKind::Firmware) + pick(
        cfg,
        running,
        is_switch,
        CollectorKind::Nmxt,
    ) + pick(cfg, running, is_switch, CollectorKind::NvueRest)
}

fn is_running(running: &Vec<CollectorKind>, k: CollectorKind) -> (r: bool)
    ensures
        r == running@.contains(k),
{
    let mut i: usize = 0;
    while i < running.len()
        invariant
            i <= running@.len(),
            forall|j: int| 0 <= j < i ==> running@[j] != k,
        decreases running.len() - i,
    {
        if running[i] == k {
            assert(running@[i as int] == k);
            return true;
        }
        i = i + 1;
    }
    false
}

fn push_pick(
    plan: &mut Vec<CollectorKind>,
    cfg: CollectorsEnabled,
    running: &Vec<CollectorKind>,
    is_switch: bool,
    k: CollectorKind,
    want: bool,
)
    requires
        want == wanted(cfg, k, is_switch),
    ensures
        final(plan)@ == old(plan)@ + pick(cfg, running@, is_switch, k),
{
    if want && !is_running(running, k) {
        plan.push(k);
        assert(plan@ =~= old(plan)@ + pick(cfg, running@, is_switch, k));
    } else {
        assert(plan@ =~= old(plan)@ + pick(cfg, running@, is_switch, k));
    }
}

/// The collectors to start for an endpoint, given those already running
/// for it and whether it is a switch.
pub fn collectors_to_start(cfg: CollectorsEnabled, running: &Vec<CollectorKind>, is_switch: bool) -> (r: Vec<CollectorKind>)
    ensures
        r@ == start_plan(cfg, running@, is_switch),
{
    let mut plan: Vec<CollectorKind> = Vec::new();
    push_pick(&mut plan, cfg, running, is_switch, CollectorKind::Sensor, cfg.sensors);
    push_pick(&mut plan, cfg, running, is_switch, CollectorKind::Logs, cfg.logs);
    push_pick(&mut plan, cfg, running, is_switch, CollectorKind::Firmware, cfg.firmware);
    push_pick(&mut plan, cfg, running, is_switch, CollectorKind::Nmxt, cfg.nmxt && is_switch);
    push_pick(&mut plan, cfg, running, is_switch, CollectorKind::NvueRest, cfg.nvue_rest && is_switch);
    assert(plan@ =~= start_plan(cfg, running@, is_switch));
    plan
}

/// One step of starting a collector.
#[derive(Clone, Copy, Debug, PartialEq, Eq, Structural)]
pub enum StartStep {
    /// Create the collector's log file writer (logs collector only).
    OpenLogWriter,
    /// Create the collector's metrics registry.
    CreateRegistry,
    /// Start the collector.
    StartCollector,
}

/// The steps of starting a collector of kind `k`, in order: the logs
/// collector first opens its log file writer; every collector then gets
/// its registry and is started.
pub open spec fn start_steps_of(k: CollectorKind) -> Seq<StartStep> {
    if k == CollectorKind::Logs {
        seq![StartStep::OpenLogWriter, StartStep::CreateRegistry, StartStep::StartCollector]
    } else {
        seq![StartStep::CreateRegistry, StartStep::StartCollector]
    }
}

/// The steps of starting a collector of kind `k`, in order.
pub fn start_steps(k: CollectorKind) -> (r: Vec<StartStep>)
    ensures
        r@ == start_steps_of(k),
{
    let mut r: Vec<StartStep> = Vec::new();
    if k == CollectorKind::Logs {
        r.push(StartStep::OpenLogWriter);
    }
    r.push(StartStep::CreateRegistry);
    r.push(StartStep::StartCollector);
    assert(r@ =~= start_steps_of(k));
    r
}

/// What starting one collector came to.
#[derive(Clone, Copy, Debug, PartialEq, Eq, Structural)]
pub enum StartAttempt {
    /// The collector runs.
    Started,
    /// Its log file writer could not be created: the collector is skipped.
    WriterFailed,
    /// Its metrics registry could not be created: spawning stops with that error.
    RegistryFailed,
    /// It did not start: the collector is skipped.
    StartFailed,
}

/// What a start step that succeeded (`ok`) or failed decides: a failure
/// ends the attempt with the step's failure, the start of the collector
/// ends it with success, and any other success goes on to the next step
/// (`None`).
pub fn attempt_after(step: StartStep, ok: bool) -> (r: Option<StartAttempt>)
    ensures
        !ok ==> r == Some(
            match step {
                StartStep::OpenLogWriter => StartAttempt::WriterFailed,
                StartStep::CreateRegistry => StartAttempt::RegistryFailed,
                StartStep::StartCollector => StartAttempt::StartFailed,
            },
        ),
        ok && step == StartStep::StartCollector ==> r == Some(StartAttempt::Started),
        ok && step != StartStep::StartCollector ==> r is None,
{
    if !ok {
        Some(
            match step {
                StartStep::OpenLogWriter => StartAttempt::WriterFailed,
                StartStep::CreateRegistry => StartAttempt::RegistryFailed,
                StartStep::StartCollector => StartAttempt::StartFailed,
            },
        )
    } else {
        match step {
            StartStep::StartCollector => Some(StartAttempt::Started),
            _ => None,
        }
    }
}

/// What spawning the collectors of an endpoint does next.
#[derive(Clone, Copy, Debug, PartialEq, Eq, Structural)]
pub enum SpawnAction {
    /// Try to start a collector of this kind.
    Attempt(CollectorKind),
    /// Spawning is over; `aborted` when a registry could not be created.
    Finish { aborted: bool },
}

/// The first action for the planned collectors `plan`.
pub fn spawn_first(plan: &Vec<CollectorKind>) -> (r: SpawnAction)
    ensures
        plan@.len() > 0 ==> r == SpawnAction::Attempt(plan@[0]),
        plan@.len() == 0 ==> r == (SpawnAction::Finish { aborted: false }),
{
    if plan.len() > 0 {
        SpawnAction::Attempt(plan[0])
    } else {
        SpawnAction::Finish { aborted: false }
    }
}

/// The action after the attempt on `plan[done]` came to `attempt`: a
/// started collector joins those running for the endpoint; a registry
/// failure stops spawning, so the later kinds are not tried; a skipped
/// collector does not stop the others.
pub fn spawn_next(
    plan: &Vec<CollectorKind>,
    done: usize,
    attempt: StartAttempt,
    running: &mut Vec<CollectorKind>,
) -> (r: SpawnAction)
    requires
        done < plan@.len(),
    ensures
        attempt == StartAttempt::Started ==> final(running)@ == old(running)@.push(plan@[done as int]),
        attempt != StartAttempt::Started ==> final(running)@ == old(running)@,
        attempt == StartAttempt::RegistryFailed ==> r == (SpawnAction::Finish { aborted: true }),
        attempt != StartAttempt::RegistryFailed && done + 1 < plan@.len() ==> r == SpawnAction::Attempt(
            plan@[done + 1],
        ),
        attempt != StartAttempt::RegistryFailed && done + 1 == plan@.len() ==> r == (SpawnAction::Finish {
            aborted: false,
        }),
{
    if attempt == StartAttempt::Started {
        running.push(plan[done]);
    }
    if attempt == StartAttempt::RegistryFailed {
        SpawnAction::Finish { aborted: true }
    } else if done < plan.len() - 1 {
        SpawnAction::Attempt(plan[done + 1])
    } else {
        SpawnAction::Finish { aborted: false }
    }
}

/// Kinds in strictly increasing start order.
pub open spec fn rank_sorted(s: Seq<CollectorKind>) -> bool {
    forall|i: int, j: int| 0 <= i < j < s.len() ==> kind_rank(#[trigger] s[i]) < kind_rank(#[trigger] s[j])
}

proof fn lemma_concat_contains(a: Seq<CollectorKind>, b: Seq<CollectorKind>, x: CollectorKind)
    ensures
        (a + b).contains(x) <==> (a.contains(x) || b.contains(x)),
{
    if (a + b).contains(x) {
        let i = choose|i: int| 0 <= i < (a + b).len() && (a + b)[i] == x;
        if i < a.len() {
            assert(a[i] == x);
        } else {
            assert(b[i - a.len()] == x);
        }
    }
    if a.contains(x) {
        let i = choose|i: int| 0 <= i < a.len() && a[i] == x;
        assert((a + b)[i] == x);
    }
    if b.contains(x) {
        let i = choose|i: int| 0 <= i < b.len() && b[i] == x;
        assert((a + b)[a.len() + i] == x);
    }
}

proof fn lemma_concat_sorted(a: Seq<CollectorKind>, b: Seq<CollectorKind>, r: int)
    requires
        rank_sorted(a),
        rank_sorted(b),
        forall|i: int| 0 <= i < a.len() ==> kind_rank(#[trigger] a[i]) < r,
        forall|i: int| 0 <= i < b.len() ==> kind_rank(#[trigger] b[i]) >= r,
    ensures
        rank_sorted(a + b),
{
    let c = a + b;
    assert forall|i: int, j: int| 0 <= i < j < c.len() implies kind_rank(#[trigger] c[i]) < kind_rank(#[trigger] c[j]) by {
        if j < a.len() {
            assert(c[i] == a[i] && c[j] == a[j]);
        } else if i < a.len() {
            assert(c[i] == a[i] && c[j] == b[j - a.len()]);
        } else {
            assert(c[i] == b[i - a.len()] && c[j] == b[j - a.len()]);
        }
    }
}

proof fn lemma_pick(cfg: CollectorsEnabled, running: Seq<CollectorKind>, is_switch: bool, k: CollectorKind, x: CollectorKind)
    ensures
        pick(cfg, running, is_switch, k).contains(x) <==> (x == k && wanted(cfg, k, is_switch) && !running.contains(k)),
        rank_sorted(pick(cfg, running, is_switch, k)),
        forall|i: int| 0 <= i < pick(cfg, running, is_switch, k).len() ==> #[trigger] pick(cfg, running, is_switch, k)[i] == k,
{
    let p = pick(cfg, running, is_switch, k);
    if p.contains(x) {
        let i = choose|i: int| 0 <= i < p.len() && p[i] == x;
    }
    if x == k && wanted(cfg, k, is_switch) && !running.contains(k) {
        assert(p[0] == x);
    }
}

/// Law: each kind of collector is started only when its own switch in the
/// configuration is on (NMX-T and NVUE only on switches) and it is not
/// already running, and every such kind is started, in the order sensor,
/// logs, firmware, NMX-T, NVUE, each once.
pub proof fn lemma_start_plan_follows_switches(cfg: CollectorsEnabled, running: Seq<CollectorKind>, is_switch: bool)
    ensures
        start_plan(cfg, running, is_switch).contains(CollectorKind::Sensor) <==> (cfg.sensors && !running.contains(
            CollectorKind::Sensor,
        )),
        start_plan(cfg, running, is_switch).contains(CollectorKind::Logs) <==> (cfg.logs && !running.contains(
            CollectorKind::Logs,
        )),
        start_plan(cfg, running, is_switch).contains(CollectorKind::Firmware) <==> (cfg.firmware
            && !running.contains(CollectorKind::Firmware)),
        start_plan(cfg, running, is_switch).contains(CollectorKind::Nmxt) <==> (cfg.nmxt && is_switch
            && !running.contains(CollectorKind::Nmxt)),
        start_plan(cfg, running, is_switch).contains(CollectorKind::NvueRest) <==> (cfg.nvue_rest && is_switch
            && !running.contains(CollectorKind::NvueRest)),
        rank_sorted(start_plan(cfg, running, is_switch)),
{
    let p1 = pick(cfg, running, is_switch, CollectorKind::Sensor);
    let p2 = pick(cfg, running, is_switch, CollectorKind::Logs);
    let p3 = pick(cfg, running, is_switch, CollectorKind::Firmware);
    let p4 = pick(cfg, running, is_switch, CollectorKind::Nmxt);
    let p5 = pick(cfg, running, is_switch, CollectorKind::NvueRest);
    let q2 = p1 + p2;
    let q3 = q2 + p3;
    let q4 = q3 + p4;
    let plan = q4 + p5;
    assert(plan == start_plan(cfg, running, is_switch));
    assert forall|x: CollectorKind| plan.contains(x) <==> (wanted(cfg, x, is_switch) && !running.contains(x)) by {
        lemma_pick(cfg, running, is_switch, CollectorKind::Sensor, x);
        lemma_pick(cfg, running, is_switch, CollectorKind::Logs, x);
        lemma_pick(cfg, running, is_switch, CollectorKind::Firmware, x);
        lemma_pick(cfg, running, is_switch, CollectorKind::Nmxt, x);
        lemma_pick(cfg, running, is_switch, CollectorKind::NvueRest, x);
        lemma_concat_contains(p1, p2, x);
        lemma_concat_contains(q2, p3, x);
        lemma_concat_contains(q3, p4, x);
        lemma_concat_contains(q4, p5, x);
    }
    let x = CollectorKind::Sensor;
    lemma_pick(cfg, running, is_switch, CollectorKind::Sensor, x);
    lemma_pick(cfg, running, is_switch, CollectorKind::Logs, x);
    lemma_pick(cfg, running, is_switch, CollectorKind::Firmware, x);
    lemma_pick(cfg, running, is_switch, CollectorKind::Nmxt, x);
    lemma_pick(cfg, running, is_switch, CollectorKind::NvueRest, x);
    lemma_concat_sorted(p1, p2, 1);
    assert forall|i: int| 0 <= i < q2.len() implies kind_rank(#[trigger] q2[i]) < 2 by {
        if i < p1.len() {
            assert(q2[i] == p1[i]);
        } else {
            assert(q2[i] == p2[i - p1.len()]);
        }
    }
    lemma_concat_sorted(q2, p3, 2);
    assert forall|i: int| 0 <= i < q3.len() implies kind_rank(#[trigger] q3[i]) < 3 by {
        if i < q2.len() {
            assert(q3[i] == q2[i]);
        } else {
            assert(q3[i] == p3[i - q2.len()]);
        }
    }
    lemma_concat_sorted(q3, p4, 3);
    assert forall|i: int| 0 <= i < q4.len() implies kind_rank(#[trigger] q4[i]) < 4 by {
        if i < q3.len() {
            assert(q4[i] == q3[i]);
        } else {
            assert(q4[i] == p4[i - q3.len()]);
        }
    }
    lemma_concat_sorted(q4, p5, 4);
}

/// Starting collectors is idempotent: once the planned collectors run,
/// planning again for the same endpoint starts nothing more.
pub proof fn lemma_start_plan_idempotent(cfg: CollectorsEnabled, running: Seq<CollectorKind>, is_switch: bool)
    ensures
        start_plan(cfg, running + start_plan(cfg, running, is_switch), is_switch).len() == 0,
{
    let plan = start_plan(cfg, running, is_switch);
    let after = running + plan;
    assert forall|k: CollectorKind| wanted(cfg, k, is_switch) implies #[trigger] after.contains(k) by {
        if running.contains(k) {
            let i = choose|i: int| 0 <= i < running.len() && running[i] == k;
            assert(after[i] == k);
        } else {
            let p1 = pick(cfg, running, is_switch, CollectorKind::Sensor);
            let p2 = pick(cfg, running, is_switch, CollectorKind::Logs);
            let p3 = pick(cfg, running, is_switch, CollectorKind::Firmware);
            let p4 = pick(cfg, running, is_switch, CollectorKind::Nmxt);
            let p5 = pick(cfg, running, is_switch, CollectorKind::NvueRest);
            let idx: int = match k {
                CollectorKind::Sensor => 0,
                CollectorKind::Logs => p1.len() as int,
                CollectorKind::Firmware => (p1.len() + p2.len()) as int,
                CollectorKind::Nmxt => (p1.len() + p2.len() + p3.len()) as int,
                CollectorKind::NvueRest => (p1.len() + p2.len() + p3.len() + p4.len()) as int,
            };
            assert(plan[idx] == k);
            assert(after[running.len() + idx] == k);
        }
    }
    assert(pick(cfg, after, is_switch, CollectorKind::Sensor).len() == 0);
    assert(pick(cfg, after, is_switch, CollectorKind::Logs).len() == 0);
    assert(pick(cfg, after, is_switch, CollectorKind::Firmware).len() == 0);
    assert(pick(cfg, after, is_switch, CollectorKind::Nmxt).len() == 0);
    assert(pick(cfg, after, is_switch, CollectorKind::NvueRest).len() == 0);
}

/// The name part of a collector kind in its registry name.
pub open spec fn kind_prefix(k: CollectorKind) -> Seq<char> {
    match k {
        CollectorKind::Sensor => "sensor"@,
        CollectorKind::Logs => "log"@,
        CollectorKind::Firmware => "firmware"@,
        CollectorKind::Nmxt => "nmxt"@,
        CollectorKind::NvueRest => "nvue_rest"@,
    }
}

/// The name of the metric registry of a collector for an endpoint.
pub fn collector_registry_name(k: CollectorKind, endpoint_key: &str) -> (r: String)
    ensures
        r@ == kind_prefix(k) + "_collector_"@ + endpoint_key@,
{
    let mut v: Vec<char> = Vec::new();
    match k {
        CollectorKind::Sensor => extend_str(&mut v, "sensor"),
        CollectorKind::Logs => extend_str(&mut v, "log"),
        CollectorKind::Firmware => extend_str(&mut v, "firmware"),
        CollectorKind::Nmxt => extend_str(&mut v, "nmxt"),
        CollectorKind::NvueRest => extend_str(&mut v, "nvue_rest"),
    }
    extend_str(&mut v, "_collector_");
    extend_str(&mut v, endpoint_key);
    string_of(&v)
}

/// The metrics a running collector keeps, named under its registry prefix.
#[derive(Clone, Debug)]
pub struct CollectorMetricNames {
    pub iteration_seconds: String,
    pub refresh_total: String,
    pub monitored_entities: String,
    pub fetch_failures_total: String,
}

fn suffixed(prefix: &str, suffix: &str) -> (r: String)
    ensures
        r@ == prefix@ + suffix@,
{
    let mut v: Vec<char> = Vec::new();
    extend_str(&mut v, prefix);
    extend_str(&mut v, suffix);
    string_of(&v)
}

/// The names of a collector's metrics under registry prefix `prefix`.
pub fn collector_metric_names(prefix: &str) -> (r: CollectorMetricNames)
    ensures
        r.iteration_seconds@ == prefix@ + "_collector_iteration_seconds"@,
        r.refresh_total@ == prefix@ + "_collector_refresh_total"@,
        r.monitored_entities@ == prefix@ + "_monitored_entities"@,
        r.fetch_failures_total@ == prefix@ + "_collector_fetch_failures_total"@,
{
    CollectorMetricNames {
        iteration_seconds: suffixed(prefix, "_collector_iteration_seconds"),
        refresh_total: suffixed(prefix, "_collector_refresh_total"),
        monitored_entities: suffixed(prefix, "_monitored_entities"),
        fetch_failures_total: suffixed(prefix, "_collector_fetch_failures_total"),
    }
}

/// What a successful iteration records: a refresh to count, the number
/// of monitored entities to set, and fetch failures to add.
#[derive(Clone, Copy, Debug, PartialEq, Eq, Structural)]
pub struct IterationUpdate {
    pub count_refresh: bool,
    pub set_entities: Option<usize>,
    pub add_fetch_failures: Option<u64>,
}

/// What to record for a successful iteration.
pub fn iteration_update(r: &IterationResult) -> (u: IterationUpdate)
    ensures
        u.count_refresh == r.refresh_triggered,
        u.set_entities == r.entity_count,
        u.add_fetch_failures == (if r.fetch_failures > 0 {
            Some(r.fetch_failures as u64)
        } else {
            None
        }),
{
    IterationUpdate {
        count_refresh: r.refresh_triggered,
        set_entities: r.entity_count,
        add_fetch_failures: if r.fetch_failures > 0 {
            Some(r.fetch_failures as u64)
        } else {
            None
        },
    }
}

/// Whether an HTTP error message reports refused credentials.
pub fn is_auth_http_message(message: &str) -> (r: bool)
    ensures
        r == (contains_seq(message@, "HTTP 401"@) || contains_seq(message@, "HTTP 403"@)),
{
    str_contains(message, "HTTP 401") || str_contains(message, "HTTP 403")
}

/// The `Forwarded` header value sent through a BMC proxy.
pub fn forwarded_header_value(ip: &str) -> (r: String)
    ensures
        r@ == "host="@ + ip@,
{
    suffixed("host=", ip)
}

/// The name of the counter of failed component operations.
pub fn component_failures_metric_name(prefix: &str) -> (r: String)
    ensures
        r@ == prefix@ + "_component_failures_total"@,
{
    suffixed(prefix, "_component_failures_total")
}

/// The name of the histogram of component operation durations.
pub fn component_duration_metric_name(prefix: &str) -> (r: String)
    ensures
        r@ == prefix@ + "_component_duration_seconds"@,
{
    suffixed(prefix, "_component_duration_seconds")
}

/// The name of a gauge family: the prefix, the reading's name, its metric
/// type and its unit, joined by underscores.
pub fn gauge_family_name(prefix: &str, name: &str, metric_type: &str, unit: &str) -> (r: String)
    ensures
        r@ == prefix@ + "_"@ + name@ + "_"@ + metric_type@ + "_"@ + unit@,
{
    let mut v: Vec<char> = Vec::new();
    extend_str(&mut v, prefix);
    extend_str(&mut v, "_");
    extend_str(&mut v, name);
    extend_str(&mut v, "_");
    extend_str(&mut v, metric_type);
    extend_str(&mut v, "_");
    extend_str(&mut v, unit);
    string_of(&v)
}

/// Label pairs as plain values.
pub open spec fn pairs_view(v: Seq<(String, String)>) -> Seq<(Seq<char>, Seq<char>)> {
    v.map_values(|e: (String, String)| (e.0@, e.1@))
}

/// One label pair when the value is there, none otherwise.
pub open spec fn opt_pair(name: Seq<char>, value: Option<String>) -> Seq<(Seq<char>, Seq<char>)> {
    match value {
        Some(v) => seq![(name, v@)],
        None => Seq::empty(),
    }
}

fn push_pair(v: &mut Vec<(String, String)>, name: &str, value: String)
    ensures
        pairs_view(final(v)@) == pairs_view(old(v)@).push((name@, value@)),
{
    v.push((String::from_str(name), value));
    assert(pairs_view(v@) =~= pairs_view(old(v)@).push((name@, value@)));
}

/// The labels every metric forwarded for an endpoint's collector carries:
/// the endpoint's key, MAC address and IP address, the collector type,
/// and the machine id and switch serial when they are known.
pub fn stream_static_labels(
    endpoint_key: &str,
    mac: &[u8; 6],
    ip: &str,
    collector_type: &str,
    machine_id: &Option<String>,
    switch_serial: &Option<String>,
) -> (r: Vec<(String, String)>)
    ensures
        pairs_view(r@) == seq![
            ("endpoint_key"@, endpoint_key@),
            ("endpoint_mac"@, crate::boot_order::mac_text(mac@)),
            ("endpoint_ip"@, ip@),
            ("collector_type"@, collector_type@),
        ] + opt_pair("machine_id"@, *machine_id) + opt_pair("switch_serial"@, *switch_serial),
{
    let mut r: Vec<(String, String)> = Vec::new();
    assert(pairs_view(r@) =~= Seq::empty());
    push_pair(&mut r, "endpoint_key", String::from_str(endpoint_key));
    let m = crate::boot_order::mac_digits(mac, ":");
    push_pair(&mut r, "endpoint_mac", string_of(&m));
    push_pair(&mut r, "endpoint_ip", String::from_str(ip));
    push_pair(&mut r, "collector_type", String::from_str(collector_type));
    let ghost base = pairs_view(r@);
    match machine_id {
        Some(id) => push_pair(&mut r, "machine_id", id.clone()),
        None => {},
    }
    let ghost mid = pairs_view(r@);
    assert(mid =~= base + opt_pair("machine_id"@, *machine_id));
    match switch_serial {
        Some(sn) => push_pair(&mut r, "switch_serial", sn.clone()),
        None => {},
    }
    assert(pairs_view(r@) =~= mid + opt_pair("switch_serial"@, *switch_serial));
    r
}

/// How an endpoint is named in logs: the serial number of its switch when
/// the endpoint is a switch BMC, otherwise its MAC address as text.
pub fn endpoint_log_identity(mac: &[u8; 6], switch_serial: &Option<String>) -> (r: String)
    ensures
        r@ == match switch_serial {
            Some(s) => s@,
            None => crate::boot_order::mac_text(mac@),
        },
{
    match switch_serial {
        Some(s) => s.clone(),
        None => {
            let m = crate::boot_order::mac_digits(mac, ":");
            string_of(&m)
        },
    }
}

/// What a failed collector iteration reported, as far as telling whether
/// the BMC refused the collector's credentials goes.
#[derive(Clone, Debug)]
pub enum IterationFailure {
    /// An HTTP error, with its message.
    Http(String),
    /// A BMC answer with an unexpected HTTP status code.
    BmcStatus(u16),
    /// Any other failure.
    Other,
}

/// Whether a failure means the BMC refused the credentials: an HTTP error
/// that reports status 401 or 403, or a BMC answer with one of those
/// codes. After such a failure the collector refreshes its credentials
/// once and reports the failure.
pub fn is_auth_failure(f: &IterationFailure) -> (r: bool)
    ensures
        r == match f {
            IterationFailure::Http(m) => contains_seq(m@, "HTTP 401"@) || contains_seq(m@, "HTTP 403"@),
            IterationFailure::BmcStatus(code) => *code == 401 || *code == 403,
            IterationFailure::Other => false,
        },
{
    match f {
        IterationFailure::Http(m) => is_auth_http_message(m.as_str()),
        IterationFailure::BmcStatus(code) => *code == 401 || *code == 403,
        IterationFailure::Other => false,
    }
}

/// The constant labels of a collector's four metrics: its type and the key
/// of its endpoint.
pub fn collector_const_labels(collector_type: &str, endpoint_key: &str) -> (r: Vec<(String, String)>)
    ensures
        pairs_view(r@) == seq![("collector_type"@, collector_type@), ("endpoint_key"@, endpoint_key@)],
{
    let mut r: Vec<(String, String)> = Vec::new();
    assert(pairs_view(r@) =~= Seq::<(Seq<char>, Seq<char>)>::empty());
    push_pair(&mut r, "collector_type", String::from_str(collector_type));
    push_pair(&mut r, "endpoint_key", String::from_str(endpoint_key));
    assert(pairs_view(r@) =~= seq![("collector_type"@, collector_type@), ("endpoint_key"@, endpoint_key@)]);
    r
}

/// How a collector reaches its BMC: through the proxy, when one is
/// configured, with a `Forwarded` header naming the endpoint's IP address;
/// otherwise at the endpoint's own URL, with no extra header.
pub fn bmc_connection(proxy_url: &Option<String>, endpoint_url: String, ip: &str) -> (r: (String, Option<String>))
    ensures
        proxy_url matches Some(p) ==> (r.0@ == p@ && (r.1 matches Some(h) && h@ == "host="@ + ip@)),
        proxy_url is None ==> (r.0@ == endpoint_url@ && r.1 is None),
{
    match proxy_url {
        Some(p) => (p.clone(), Some(forwarded_header_value(ip))),
        None => (endpoint_url, None),
    }
}

} // verus!
