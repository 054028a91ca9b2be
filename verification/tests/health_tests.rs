use std::collections::HashMap;
use std::path::PathBuf;

use carbide::collector_plan::{
    collector_metric_names, collector_registry_name, collectors_to_start, endpoint_log_identity,
    forwarded_header_value, is_auth_failure, is_auth_http_message, iteration_update, CollectorKind,
    CollectorsEnabled, IterationFailure, attempt_after, spawn_first, spawn_next, start_steps, SpawnAction,
    StartAttempt, StartStep,
};
use carbide::gauge_table::GaugeTable;
use carbide::health_metrics::{
    app_status_code, diagnostic_opcode_code, logs_state_file_path, partition_health_code,
    sanitize_unit, system_health_code, ComponentKind, IterationResult,
};
use carbide::collector_plan::{bmc_connection, collector_const_labels};
use carbide::service_wiring::{
    active_endpoints_gauge_name, discovery_endpoints_gauge_name, discovery_pause_nanos, limiter_choice, LimiterChoice,
    RateLimitSettings,
};
use carbide::sink_plan::{data_sink_plan, DataSinkPlan, ProcessorKind, SinkKind, SinksEnabled};
use carbide::leak_events::{Classification, LeakEventProcessor, LeakReport, Probe};
use carbide::pending_reports::{HealthOverrideKey, PendingReports, ReportSource};

#[test]
fn test_logs_state_file_path_replaces_endpoint_id() {
    let path = PathBuf::from(logs_state_file_path("/tmp/logs_{machine_id}.json", "endpoint-42"));
    assert_eq!(path, PathBuf::from("/tmp/logs_endpoint-42.json"));
}

#[test]
fn logs_state_file_path_replaces_every_placeholder() {
    let path = PathBuf::from(logs_state_file_path("/{machine_id}/{machine_id}.state", "m1"));
    assert_eq!(path, PathBuf::from("/m1/m1.state"));
    let path = PathBuf::from(logs_state_file_path("/var/state.json", "m1"));
    assert_eq!(path, PathBuf::from("/var/state.json"));
}

fn system_health_to_f64(s: Option<&str>) -> f64 {
    system_health_code(s) as f64
}

fn partition_health_to_f64(s: Option<&str>) -> f64 {
    partition_health_code(s) as f64
}

fn app_status_to_f64(s: Option<&str>) -> f64 {
    app_status_code(s) as f64
}

fn diagnostic_opcode_to_f64(s: &str) -> f64 {
    diagnostic_opcode_code(s) as f64
}

#[test]
fn test_system_health_mapping() {
    assert_eq!(system_health_to_f64(Some("OK")), 1.0);
    assert_eq!(system_health_to_f64(Some("Not OK")), 2.0);
    assert_eq!(system_health_to_f64(None), 0.0);
    assert_eq!(system_health_to_f64(Some("unknown_value")), 0.0);
}

#[test]
fn test_partition_health_mapping() {
    assert_eq!(partition_health_to_f64(Some("unknown")), 0.0);
    assert_eq!(partition_health_to_f64(Some("healthy")), 1.0);
    assert_eq!(partition_health_to_f64(Some("degraded_bandwidth")), 2.0);
    assert_eq!(partition_health_to_f64(Some("degraded")), 3.0);
    assert_eq!(partition_health_to_f64(Some("unhealthy")), 4.0);
    assert_eq!(partition_health_to_f64(None), 0.0);
}

#[test]
fn test_app_status_mapping() {
    assert_eq!(app_status_to_f64(Some("ok")), 1.0);
    assert_eq!(app_status_to_f64(Some("not ok")), 2.0);
    assert_eq!(app_status_to_f64(None), 0.0);
    assert_eq!(app_status_to_f64(Some("other")), 0.0);
}

#[test]
fn test_diagnostic_opcode_mapping() {
    assert_eq!(diagnostic_opcode_to_f64("0"), 0.0);
    assert_eq!(diagnostic_opcode_to_f64("2"), 1.0);
    assert_eq!(diagnostic_opcode_to_f64("1024"), 1.0);
    assert_eq!(diagnostic_opcode_to_f64("57"), 1.0);
}

#[test]
fn does_not_emit_alert_when_threshold_not_met() {
    let processor = LeakEventProcessor::new(2);
    let derived = processor.derived_report(&vec![Some("LeakDetector_Probe".to_string())]);
    assert_eq!(derived.alerts.len(), 0);
    assert_eq!(derived.successes.len(), 1);
    assert_eq!(derived.successes[0].probe_id, Probe::LeakDetection);
}

#[test]
fn emits_derived_leak_report_when_threshold_met() {
    let processor = LeakEventProcessor::new(1);
    let derived = processor.derived_report(&vec![Some("LeakDetector_Probe".to_string())]);
    assert_eq!(derived.source, ReportSource::TrayLeakDetection);
    assert_eq!(derived.alerts.len(), 1);
    assert_eq!(derived.alerts[0].probe_id, Probe::LeakDetection);
    assert!(derived.alerts[0]
        .classifications
        .iter()
        .any(|classification| classification == &Classification::Leak));
}

#[test]
fn leak_report_message_names_the_detectors() {
    let processor = LeakEventProcessor::new(1);
    let report = processor.process_alert_targets(&vec![Some("LeakDetector_Probe".to_string())]);
    match report {
        LeakReport::Leak { message } => {
            assert_eq!(
                message,
                "Leak detected: 1 leak-detector alerts reached threshold 1 (detectors: LeakDetector_Probe)"
            );
        }
        LeakReport::NoLeak => panic!("expected a leak"),
    }
    let derived = processor.derived_report(&vec![Some("LeakDetector_Probe".to_string())]);
    assert_eq!(
        derived.alerts[0].message,
        "Leak detected: 1 leak-detector alerts reached threshold 1 (detectors: LeakDetector_Probe)"
    );
    assert!(derived.alerts[0].target.is_none());
    assert!(derived.successes.is_empty());
    let quiet = LeakEventProcessor::new(2).process_alert_targets(&vec![Some("LeakDetector_Probe".to_string())]);
    assert!(matches!(quiet, LeakReport::NoLeak));
}

#[test]
fn leak_report_lists_distinct_detectors_in_order() {
    let processor = LeakEventProcessor::new(2);
    let targets = vec![
        Some("LeakDetector_B".to_string()),
        None,
        Some("Temp_1".to_string()),
        Some("LeakDetector_A".to_string()),
        Some("LeakDetector_B".to_string()),
    ];
    match processor.process_alert_targets(&targets) {
        LeakReport::Leak { message } => assert_eq!(
            message,
            "Leak detected: 3 leak-detector alerts reached threshold 2 (detectors: LeakDetector_A, LeakDetector_B)"
        ),
        LeakReport::NoLeak => panic!("expected a leak"),
    }
    assert!(processor.is_leaking(2));
    assert!(!processor.is_leaking(1));
}

fn key(machine: &str, source: ReportSource) -> HealthOverrideKey {
    HealthOverrideKey { machine_id: machine.to_string(), source }
}

#[test]
fn latest_reports_are_preserved() {
    let mut queue: PendingReports<ReportSource> = PendingReports::new();
    let a = "fm100htjtiaehv1n5vh67tbmqq4eabcjdng40f7jupsadbedhruh6rag1l0";
    let b = "fm100htjsaledfasinabqqer70e2ua5ksqj4kfjii0v0a90vulps48c1h7g";
    let c = "fm100htes3rn1npvbtm5qd57dkilaag7ljugl1llmm7rfuq1ov50i0rpl30";
    queue.save_latest(key(a, ReportSource::BmcSensors), ReportSource::BmcSensors);
    queue.save_latest(key(a, ReportSource::BmcSensors), ReportSource::BmcSensors);
    queue.save_latest(key(b, ReportSource::TrayLeakDetection), ReportSource::TrayLeakDetection);
    queue.save_latest(key(c, ReportSource::BmcSensors), ReportSource::BmcSensors);
    queue.save_latest(key(b, ReportSource::BmcSensors), ReportSource::BmcSensors);

    let mut drained = HashMap::new();
    while let Some((k, job)) = queue.pop() {
        drained.insert((k.machine_id, k.source), job);
    }
    assert_eq!(drained.len(), 4);
}

#[test]
fn reinserting_hot_key_moves_it_to_back() {
    let mut queue: PendingReports<ReportSource> = PendingReports::new();
    let a = "fm100htjtiaehv1n5vh67tbmqq4eabcjdng40f7jupsadbedhruh6rag1l0";
    let b = "fm100htjsaledfasinabqqer70e2ua5ksqj4kfjii0v0a90vulps48c1h7g";
    queue.save_latest(key(a, ReportSource::BmcSensors), ReportSource::BmcSensors);
    queue.save_latest(key(b, ReportSource::BmcSensors), ReportSource::BmcSensors);

    let first = queue.pop().unwrap();
    assert_eq!(first.0.machine_id, a);

    queue.save_latest(key(a, ReportSource::TrayLeakDetection), ReportSource::TrayLeakDetection);

    let second = queue.pop().unwrap();
    let third = queue.pop().unwrap();
    assert_eq!(second.0.machine_id, b);
    assert_eq!(third.0.machine_id, a);
    assert_eq!(third.1, ReportSource::TrayLeakDetection);
}

#[test]
fn saving_a_pending_key_replaces_its_report_in_place() {
    let mut queue: PendingReports<u32> = PendingReports::new();
    queue.save_latest(key("a", ReportSource::BmcSensors), 1);
    queue.save_latest(key("b", ReportSource::BmcSensors), 2);
    queue.save_latest(key("a", ReportSource::BmcSensors), 3);
    assert_eq!(queue.len(), 2);
    let (k, v) = queue.pop().unwrap();
    assert_eq!((k.machine_id.as_str(), v), ("a", 3));
    let (k, v) = queue.pop().unwrap();
    assert_eq!((k.machine_id.as_str(), v), ("b", 2));
    assert!(queue.pop().is_none());
}

#[test]
fn gauge_table_sweeps_keys_not_recorded_this_round() {
    let mut table: GaugeTable<u32> = GaugeTable::new();
    table.begin_update();
    table.record("a".to_string(), 1);
    table.record("b".to_string(), 2);
    table.sweep_stale();
    assert_eq!(table.len(), 2);
    table.begin_update();
    table.record("b".to_string(), 5);
    table.sweep_stale();
    assert_eq!(table.len(), 1);
    assert_eq!(table.slots()[0].key, "b");
    assert_eq!(table.slots()[0].value, 5);
    table.begin_update();
    table.sweep_stale();
    assert_eq!(table.len(), 0);
}

#[test]
fn units_are_sanitized() {
    assert_eq!(sanitize_unit("Celsius"), "celsius");
    assert_eq!(sanitize_unit("°C"), "celsius");
    assert_eq!(sanitize_unit("W"), "watts");
    assert_eq!(sanitize_unit("RPM/x"), "rpm_x");
    assert_eq!(ComponentKind::Collector.as_str(), "collector");
    assert_eq!(ComponentKind::Sink.as_str(), "sink");
}

fn all_enabled() -> CollectorsEnabled {
    CollectorsEnabled { sensors: true, logs: true, firmware: true, nmxt: true, nvue_rest: true }
}

#[test]
fn test_spawn_is_idempotent_when_collectors_are_disabled() {
    let cfg = CollectorsEnabled { sensors: false, logs: false, firmware: false, nmxt: false, nvue_rest: false };
    let first = collectors_to_start(cfg, &vec![], true);
    assert!(first.is_empty());
    let second = collectors_to_start(cfg, &first, true);
    assert!(second.is_empty());
}

#[test]
fn spawn_starts_switch_collectors_only_for_switches() {
    assert_eq!(
        collectors_to_start(all_enabled(), &vec![], false),
        vec![CollectorKind::Sensor, CollectorKind::Logs, CollectorKind::Firmware]
    );
    assert_eq!(
        collectors_to_start(all_enabled(), &vec![], true),
        vec![
            CollectorKind::Sensor,
            CollectorKind::Logs,
            CollectorKind::Firmware,
            CollectorKind::Nmxt,
            CollectorKind::NvueRest
        ]
    );
}

#[test]
fn spawn_twice_starts_nothing_new() {
    let first = collectors_to_start(all_enabled(), &vec![CollectorKind::Logs], true);
    assert_eq!(
        first,
        vec![CollectorKind::Sensor, CollectorKind::Firmware, CollectorKind::Nmxt, CollectorKind::NvueRest]
    );
    let mut running = vec![CollectorKind::Logs];
    running.extend(first);
    assert!(collectors_to_start(all_enabled(), &running, true).is_empty());
}

#[test]
fn collector_registries_and_metrics_are_named_by_kind_and_prefix() {
    assert_eq!(collector_registry_name(CollectorKind::Logs, "k1"), "log_collector_k1");
    assert_eq!(collector_registry_name(CollectorKind::NvueRest, "k1"), "nvue_rest_collector_k1");
    let names = collector_metric_names("health");
    assert_eq!(names.iteration_seconds, "health_collector_iteration_seconds");
    assert_eq!(names.refresh_total, "health_collector_refresh_total");
    assert_eq!(names.monitored_entities, "health_monitored_entities");
    assert_eq!(names.fetch_failures_total, "health_collector_fetch_failures_total");
    assert_eq!(forwarded_header_value("10.0.0.1"), "host=10.0.0.1");
}

#[test]
fn iteration_results_update_the_collector_metrics() {
    let u = iteration_update(&IterationResult { refresh_triggered: true, entity_count: Some(7), fetch_failures: 0 });
    assert!(u.count_refresh);
    assert_eq!(u.set_entities, Some(7));
    assert_eq!(u.add_fetch_failures, None);
    let u = iteration_update(&IterationResult { refresh_triggered: false, entity_count: None, fetch_failures: 3 });
    assert!(!u.count_refresh);
    assert_eq!(u.add_fetch_failures, Some(3));
}

#[test]
fn auth_failures_are_recognised_from_http_messages() {
    assert!(is_auth_http_message("request failed: HTTP 401 Unauthorized"));
    assert!(is_auth_http_message("HTTP 403"));
    assert!(!is_auth_http_message("HTTP 500"));
}

#[test]
fn test_endpoint_log_identity_falls_back_to_mac_without_metadata() {
    let mac = [0xaa, 0xbb, 0xcc, 0xdd, 0xee, 0xff];
    assert_eq!(endpoint_log_identity(&mac, &None), "AA:BB:CC:DD:EE:FF");
}

#[test]
fn test_endpoint_log_identity_uses_switch_serial_when_available() {
    let mac = [0x11, 0x22, 0x33, 0x44, 0x55, 0x66];
    assert_eq!(endpoint_log_identity(&mac, &Some("switch-serial-1".to_string())), "switch-serial-1");
}

#[test]
fn auth_failures_are_401_and_403_answers() {
    assert!(is_auth_failure(&IterationFailure::Http("request failed: HTTP 401 Unauthorized".to_string())));
    assert!(!is_auth_failure(&IterationFailure::Http("HTTP 500".to_string())));
    assert!(is_auth_failure(&IterationFailure::BmcStatus(403)));
    assert!(!is_auth_failure(&IterationFailure::BmcStatus(404)));
    assert!(!is_auth_failure(&IterationFailure::Other));
}

#[test]
fn gauge_round_keeps_exactly_the_last_recorded_values() {
    let mut table: GaugeTable<u32> = GaugeTable::new();
    table.begin_update();
    table.record("old".to_string(), 1);
    table.record("kept".to_string(), 2);
    table.sweep_stale();
    table.begin_update();
    table.record("kept".to_string(), 3);
    table.record("new".to_string(), 4);
    table.record("kept".to_string(), 5);
    table.sweep_stale();
    let mut got: Vec<(String, u32)> = table.slots().iter().map(|s| (s.key.clone(), s.value)).collect();
    got.sort();
    assert_eq!(got, vec![("kept".to_string(), 5), ("new".to_string(), 4)]);
}

#[test]
fn sanitizing_a_sanitized_unit_gives_it_back() {
    for u in ["%", "°F", "Amps", "hz", "RPM/x", "Cel", "kW·h", "V"] {
        let once = sanitize_unit(u);
        assert_eq!(sanitize_unit(&once), once);
        assert!(once.chars().all(|c| c.is_ascii_lowercase() || c.is_ascii_digit() || c == '_'));
    }
    assert_eq!(sanitize_unit("kW·h"), "kw_h");
    assert_eq!(sanitize_unit("%"), "percent");
}

/// Spawns the planned collectors; `fails` names the kind and step that fail.
fn spawn(plan: Vec<CollectorKind>, fails: &[(CollectorKind, StartStep)]) -> (Vec<CollectorKind>, Vec<CollectorKind>, bool) {
    let mut running = Vec::new();
    let mut tried = Vec::new();
    let mut action = spawn_first(&plan);
    loop {
        match action {
            SpawnAction::Attempt(kind) => {
                let done = tried.len();
                tried.push(kind);
                let mut attempt = None;
                for step in start_steps(kind) {
                    let ok = !fails.contains(&(kind, step));
                    attempt = attempt_after(step, ok);
                    if attempt.is_some() {
                        break;
                    }
                }
                action = spawn_next(&plan, done, attempt.expect("the last step decides"), &mut running);
            }
            SpawnAction::Finish { aborted } => return (tried, running, aborted),
        }
    }
}

#[test]
fn collector_start_failures_skip_only_their_kind() {
    let plan = vec![CollectorKind::Sensor, CollectorKind::Logs, CollectorKind::Firmware];
    let (tried, running, aborted) = spawn(
        plan.clone(),
        &[(CollectorKind::Logs, StartStep::OpenLogWriter), (CollectorKind::Sensor, StartStep::StartCollector)],
    );
    assert_eq!(tried, plan);
    assert_eq!(running, vec![CollectorKind::Firmware]);
    assert!(!aborted);
    assert_eq!(
        start_steps(CollectorKind::Logs),
        vec![StartStep::OpenLogWriter, StartStep::CreateRegistry, StartStep::StartCollector]
    );
    assert_eq!(start_steps(CollectorKind::Nmxt), vec![StartStep::CreateRegistry, StartStep::StartCollector]);
}

#[test]
fn registry_failure_stops_the_later_kinds() {
    let plan = vec![CollectorKind::Sensor, CollectorKind::Logs, CollectorKind::Firmware];
    let (tried, running, aborted) = spawn(plan, &[(CollectorKind::Logs, StartStep::CreateRegistry)]);
    assert_eq!(tried, vec![CollectorKind::Sensor, CollectorKind::Logs]);
    assert_eq!(running, vec![CollectorKind::Sensor]);
    assert!(aborted);
    assert_eq!(attempt_after(StartStep::CreateRegistry, false), Some(StartAttempt::RegistryFailed));
    assert_eq!(attempt_after(StartStep::CreateRegistry, true), None);
}

#[test]
fn data_sink_is_assembled_from_the_configuration() {
    let none = SinksEnabled { tracing: false, prometheus: false, health_override: false, leak_detection: Some(2) };
    assert!(matches!(data_sink_plan(none), DataSinkPlan::NoSink));
    let prom = SinksEnabled { tracing: false, prometheus: true, health_override: false, leak_detection: None };
    match data_sink_plan(prom) {
        DataSinkPlan::Composite(s) => assert_eq!(s, vec![SinkKind::Prometheus]),
        _ => panic!("expected the sinks alone"),
    }
    let all = SinksEnabled { tracing: true, prometheus: true, health_override: true, leak_detection: Some(3) };
    match data_sink_plan(all) {
        DataSinkPlan::Pipeline(p, s) => {
            assert_eq!(p, vec![ProcessorKind::HealthReport, ProcessorKind::LeakDetection(3)]);
            assert_eq!(s, vec![SinkKind::Tracing, SinkKind::Prometheus, SinkKind::HealthOverride]);
        }
        _ => panic!("expected a pipeline"),
    }
    let overrides = SinksEnabled { tracing: false, prometheus: false, health_override: true, leak_detection: None };
    match data_sink_plan(overrides) {
        DataSinkPlan::Pipeline(p, s) => {
            assert_eq!(p, vec![ProcessorKind::HealthReport]);
            assert_eq!(s, vec![SinkKind::HealthOverride]);
        }
        _ => panic!("expected a pipeline"),
    }
}

#[test]
fn collector_metrics_carry_type_and_endpoint_labels() {
    assert_eq!(
        collector_const_labels("sensor_collector", "42:9e:b1:bd:9d:dd"),
        vec![
            ("collector_type".to_string(), "sensor_collector".to_string()),
            ("endpoint_key".to_string(), "42:9e:b1:bd:9d:dd".to_string()),
        ]
    );
}

#[test]
fn bmc_is_reached_through_the_proxy_when_configured() {
    let (url, header) = bmc_connection(&Some("https://proxy:8443".to_string()), "https://10.0.0.1:443".to_string(), "10.0.0.1");
    assert_eq!(url, "https://proxy:8443");
    assert_eq!(header.as_deref(), Some("host=10.0.0.1"));
    let (url, header) = bmc_connection(&None, "https://10.0.0.1:443".to_string(), "10.0.0.1");
    assert_eq!(url, "https://10.0.0.1:443");
    assert!(header.is_none());
}

#[test]
fn service_wiring_decisions() {
    assert_eq!(discovery_pause_nanos(None), 300_000_000_000);
    assert_eq!(discovery_pause_nanos(Some(5_000_000_000)), 5_000_000_000);
    let settings = RateLimitSettings { bucket_burst: 10, bucket_replenish_nanos: 100_000_000, max_jitter_nanos: 7 };
    assert_eq!(
        limiter_choice(Some(settings)),
        LimiterChoice::Bucket { burst: 10, replenish_nanos: 100_000_000, max_jitter_nanos: 7 }
    );
    assert_eq!(limiter_choice(None), LimiterChoice::Noop);
    assert_eq!(active_endpoints_gauge_name("health"), "health_active_endpoints");
    assert_eq!(discovery_endpoints_gauge_name("health"), "health_discovery_endpoints");
}
