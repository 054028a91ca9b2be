use carbide::dpf_deployment::{
    init_first, init_next, init_steps, service_configuration_plan, services_to_apply, service_template_plan, InitAction, InitStep,
};
use carbide::dpf_types::ServiceDefinition;
use carbide::dpf_naming::{
    bfb_name, dpu_cr_name, dpu_device_cr_name, dpu_node_cr_name, node_id_from_dpu_node_cr_name,
};
use carbide::dpf_sdk::{
    node_labels_current, password_after_write, refresh_step, RefreshStep, DPU_ENABLED_LABEL,
};
use carbide::dpf_types::{DpfError, DpuPhase, DpuStatusPhase, InitDpfResourcesConfig, DEFAULT_FLAVOR_NAME};
use carbide::label_map::LabelMap;

#[test]
fn test_dpu_phase_from_status() {
    assert_eq!(DpuPhase::from(DpuStatusPhase::Ready), DpuPhase::Ready);
    assert_eq!(DpuPhase::from(DpuStatusPhase::Error), DpuPhase::Error);
    assert_eq!(DpuPhase::from(DpuStatusPhase::Deleting), DpuPhase::Deleting);
    assert_eq!(
        DpuPhase::from(DpuStatusPhase::Rebooting),
        DpuPhase::Rebooting
    );
    assert_eq!(
        DpuPhase::from(DpuStatusPhase::Initializing),
        DpuPhase::Provisioning("Initializing".into())
    );
    assert_eq!(
        DpuPhase::from(DpuStatusPhase::Pending),
        DpuPhase::Provisioning("Pending".into())
    );
    assert_eq!(
        DpuPhase::from(DpuStatusPhase::OsInstalling),
        DpuPhase::Provisioning("OsInstalling".into())
    );
    assert_eq!(
        DpuPhase::from(DpuStatusPhase::NodeEffect),
        DpuPhase::NodeEffect
    );
    assert_eq!(
        DpuPhase::from(DpuStatusPhase::CheckingHostRebootRequired),
        DpuPhase::Rebooting
    );
    assert_eq!(
        DpuPhase::from(DpuStatusPhase::NodeEffectRemoval),
        DpuPhase::NodeEffect
    );
}

#[test]
fn test_dpu_phase_equality() {
    assert_eq!(DpuPhase::Ready, DpuPhase::Ready);
    assert_ne!(
        DpuPhase::Ready,
        DpuPhase::Provisioning("Initializing".into())
    );
    assert_eq!(DpuPhase::Rebooting, DpuPhase::Rebooting);
}

#[test]
fn test_init_config_defaults() {
    let config = InitDpfResourcesConfig::default();
    assert!(config.bfb_url.is_empty());
    assert_eq!(config.deployment_name, "dpu-deployment");
    assert_eq!(config.flavor_name, DEFAULT_FLAVOR_NAME);
    assert!(config.services.is_empty());
}

#[test]
fn test_init_config_custom() {
    let config = InitDpfResourcesConfig {
        bfb_url: "http://example.com/test.bfb".to_string(),
        deployment_name: "my-deployment".to_string(),
        flavor_name: "my-flavor".to_string(),
        services: vec![],
        bfcfg_template: None,
    };

    assert_eq!(config.bfb_url, "http://example.com/test.bfb");
    assert_eq!(config.deployment_name, "my-deployment");
    assert_eq!(config.flavor_name, "my-flavor");
}

fn refresh(last: &str, fetched: Result<String, DpfError>, write_fails: bool) -> (String, Vec<String>) {
    let mut written = Vec::new();
    let next = match refresh_step(last, fetched) {
        RefreshStep::Keep => last.to_string(),
        RefreshStep::Write(new_password) => {
            let write = if write_fails {
                Err(DpfError::Api { code: 500, message: "write failed".to_string() })
            } else {
                written.push(new_password.clone());
                Ok(())
            };
            password_after_write(last.to_string(), new_password, write)
        }
    };
    (next, written)
}

#[test]
fn test_refresh_writes_secret_when_password_changes() {
    let (result, written) = refresh("old-password", Ok("new-password".to_string()), false);
    assert_eq!(result, "new-password");
    assert_eq!(written.as_slice(), &["new-password"]);
}

#[test]
fn test_refresh_skips_write_when_password_unchanged() {
    let (result, written) = refresh("same", Ok("same".to_string()), false);
    assert_eq!(result, "same");
    assert!(written.is_empty());
}

#[test]
fn test_refresh_retains_last_password_on_write_failure() {
    let (result, _) = refresh("old-password", Ok("new-password".to_string()), true);
    assert_eq!(result, "old-password");
}

#[test]
fn refresh_keeps_password_when_provider_fails() {
    let (result, written) = refresh(
        "old-password",
        Err(DpfError::ConfigError("provider down".to_string())),
        false,
    );
    assert_eq!(result, "old-password");
    assert!(written.is_empty());
}

#[test]
fn test_create_bfb_deterministic_name() {
    let url = "http://example.com/some.bfb";
    let name1 = bfb_name(url);
    let name2 = bfb_name(url);
    assert_eq!(name1, name2, "same URL must produce the same BFB name");
    assert!(name1.starts_with("bf-bundle-"));
}

#[test]
fn test_create_bfb_name_valid_k8s() {
    let url = "http://example.com/UPPER_case/special?chars=true&foo=bar#fragment";
    let name = bfb_name(url);
    assert!(name.len() <= 253, "name length {} exceeds 253", name.len());
    assert!(
        name.chars()
            .all(|c| c.is_ascii_lowercase() || c.is_ascii_digit() || c == '-' || c == '.'),
        "name contains invalid characters: {name}"
    );
    assert!(name.chars().next().unwrap().is_ascii_alphanumeric());
    assert!(name.chars().last().unwrap().is_ascii_alphanumeric());
}

#[test]
fn test_create_bfb_different_urls_different_names() {
    let name_a = bfb_name("http://a.example.com/a.bfb");
    let name_b = bfb_name("http://b.example.com/b.bfb");
    assert_ne!(name_a, name_b);
}

#[test]
fn bfb_name_is_the_sha256_of_the_url() {
    // sha256("abc") is ba7816bf8f01cfea414140de5dae2223b00361a396177a9cb410ff61f20015ad
    assert_eq!(
        bfb_name("abc"),
        "bf-bundle-ba7816bf8f01cfea414140de5dae2223b00361a396177a9cb410ff61f20015ad"
    );
    assert_eq!(bfb_name("abc").len(), "bf-bundle-".len() + 64);
}

#[test]
fn cr_names_follow_the_naming_scheme() {
    assert_eq!(dpu_node_cr_name("host-001"), "node-host-001");
    assert_eq!(dpu_device_cr_name("dpu-001"), "device-dpu-001");
    assert_eq!(dpu_cr_name("dpu-001", "host-001"), "node-host-001-device-dpu-001");
    assert_eq!(node_id_from_dpu_node_cr_name("node-host-001"), "host-001");
    assert_eq!(node_id_from_dpu_node_cr_name("other"), "other");
}

#[test]
fn node_id_round_trips_through_the_cr_name() {
    let name = dpu_node_cr_name("abc-42");
    assert_eq!(node_id_from_dpu_node_cr_name(&name), "abc-42");
}

fn labels(pairs: &[(&str, &str)]) -> LabelMap {
    let mut m = LabelMap::new();
    for (k, v) in pairs {
        m.insert(k.to_string(), v.to_string());
    }
    m
}

#[test]
fn test_verify_node_labels_current_labels_returns_true() {
    let required = labels(&[("test/node", "true")]);
    let node = labels(&[("test/node", "true")]);
    assert!(node_labels_current(Some(Some(&node)), &required));
}

#[test]
fn test_verify_node_labels_missing_node_returns_true() {
    let required = labels(&[("test/node", "true")]);
    assert!(node_labels_current(None, &required));
}

#[test]
fn test_verify_node_labels_stale_labels_returns_false() {
    let required = labels(&[("test/node", "true")]);
    let node = labels(&[("old/stale-label", "true")]);
    assert!(!node_labels_current(Some(Some(&node)), &required));
}

#[test]
fn test_verify_node_labels_no_labels_returns_false() {
    let required = labels(&[("test/node", "true")]);
    assert!(!node_labels_current(Some(None), &required));
}

#[test]
fn test_verify_node_labels_superset_returns_true() {
    let required = labels(&[("test/node", "true")]);
    let node = labels(&[("test/node", "true"), ("extra/label", "extra-value")]);
    assert!(node_labels_current(Some(Some(&node)), &required));
}

#[test]
fn test_verify_node_labels_wrong_value_returns_false() {
    let required = labels(&[("test/node", "true")]);
    let node = labels(&[("test/node", "false")]);
    assert!(!node_labels_current(Some(Some(&node)), &required));
}

#[test]
fn dpu_enabled_label_name() {
    assert_eq!(DPU_ENABLED_LABEL, "feature.node.kubernetes.io/dpu-enabled");
}

#[test]
fn service_configuration_carries_helm_values_only_for_objects() {
    let mut svc = ServiceDefinition::new("dts", "https://helm.example", "dts", "1.0.0");
    let mut values = serde_json::Map::new();
    values.insert("exposedPorts".to_string(), serde_json::Value::Bool(true));
    svc.config_values = Some(serde_json::Value::Object(values));
    let plan = service_configuration_plan(svc);
    assert!(plan.helm_chart_values);
    assert!(plan.has_service_configuration);
    assert_eq!(plan.name, "dts");

    let mut svc = ServiceDefinition::new("dts", "https://helm.example", "dts", "1.0.0");
    svc.config_values = Some(serde_json::Value::String("flat".to_string()));
    let plan = service_configuration_plan(svc);
    assert!(!plan.helm_chart_values);
    assert!(!plan.has_service_configuration);
    assert!(plan.interfaces.is_none());
}

#[test]
fn default_flavor_installs_hbn_configuration() {
    let f = carbide::dpf_flavor::default_flavor("dpf-operator-system", "dpu-flavor");
    assert_eq!(f.name, "dpu-flavor");
    assert_eq!(f.namespace, "dpf-operator-system");
    assert_eq!(f.config_files.len(), 3);
    assert_eq!(f.config_files[0].path, "/var/lib/hbn/etc/supervisor/conf.d/acltool.conf");
    assert_eq!(
        f.config_files[0].raw,
        "[program: cl-acltool]\ncommand = bash -c \"sleep 5 && /usr/cumulus/bin/cl-acltool -i\"\nstartsecs = 0\nautorestart = false\npriority = 200\n"
    );
    let rules = &f.config_files[1].raw;
    assert!(rules.starts_with("[iptables]\n-t filter -A FORWARD -p udp -d 255.255.255.255 --dport 67 -m physdev --physdev-in pf0hpf_if -m comment --comment 'offload:0' -j DROP\n"));
    assert!(rules.ends_with("--physdev-in pf0vf15_if -m comment --comment 'offload:0' -j DROP\n"));
    assert_eq!(rules.lines().count(), 18);
    assert_eq!(
        f.config_files[2].raw,
        "net.ipv6.conf.all.forwarding = 1\nkernel.shmmax = 4294967296\nvm.nr_hugepages=2048\nvm.min_free_kbytes=67584\n"
    );
    assert_eq!(f.config_files[2].permissions, "0644");
}

#[test]
fn service_template_deploys_the_helm_chart() {
    let mut svc = ServiceDefinition::new("dts", "https://helm.example", "doca-telemetry", "1.2.3");
    let plan = service_template_plan("ns", &svc);
    assert_eq!(
        (plan.name.as_str(), plan.namespace.as_str(), plan.chart.as_str(), plan.repo_url.as_str(), plan.version.as_str()),
        ("dts", "ns", "doca-telemetry", "https://helm.example", "1.2.3")
    );
    assert!(!plan.helm_values);
    let mut values = serde_json::Map::new();
    values.insert("image".to_string(), serde_json::Value::String("x".to_string()));
    svc.helm_values = Some(serde_json::Value::Object(values));
    assert!(service_template_plan("ns", &svc).helm_values);
    svc.helm_values = Some(serde_json::Value::Bool(true));
    assert!(!service_template_plan("ns", &svc).helm_values);
}

/// Runs the initialization steps, failing the step at position `fail_at`;
/// returns the steps taken and the result.
fn run_init(n_services: usize, bfcfg: bool, fail_at: Option<usize>) -> (Vec<InitStep>, Result<(), DpfError>) {
    let steps = init_steps(n_services, bfcfg);
    let mut taken = Vec::new();
    let mut action = init_first(&steps);
    loop {
        match action {
            InitAction::Perform(step) => {
                let done = taken.len();
                assert_eq!(step, steps[done]);
                taken.push(step);
                let outcome = if fail_at == Some(done) {
                    Err(DpfError::Api { code: 500, message: "refused".to_string() })
                } else {
                    Ok(())
                };
                action = init_next(&steps, done, outcome);
            }
            InitAction::Finish(r) => return (taken, r),
        }
    }
}

#[test]
fn initialization_steps_run_in_order() {
    let (taken, r) = run_init(2, true, None);
    assert!(r.is_ok());
    assert_eq!(
        taken,
        vec![
            InitStep::CreateBfb,
            InitStep::CreateFlavor,
            InitStep::ApplyServiceTemplate(0),
            InitStep::ApplyServiceConfiguration(0),
            InitStep::ApplyServiceTemplate(1),
            InitStep::ApplyServiceConfiguration(1),
            InitStep::ApplyDeployment,
            InitStep::ApplyBfCfgTemplate,
        ]
    );
    let (taken, r) = run_init(0, false, None);
    assert!(r.is_ok());
    assert_eq!(taken, vec![InitStep::CreateBfb, InitStep::CreateFlavor, InitStep::ApplyDeployment]);
}

#[test]
fn initialization_stops_at_the_first_error() {
    let (taken, r) = run_init(1, false, Some(1));
    assert_eq!(taken, vec![InitStep::CreateBfb, InitStep::CreateFlavor]);
    assert!(matches!(r, Err(DpfError::Api { code: 500, .. })));
    let (taken, r) = run_init(1, true, Some(4));
    assert_eq!(taken.len(), 5);
    assert!(r.is_err());
}

#[test]
fn default_services_are_used_when_none_are_configured() {
    let defaults = vec![ServiceDefinition::new("dts", "https://helm.example", "doca-telemetry", "1.22.1")];
    let chosen = services_to_apply(Vec::new(), defaults);
    assert_eq!(chosen.len(), 1);
    assert_eq!(chosen[0].name, "dts");
    let configured = vec![
        ServiceDefinition::new("a", "https://r", "a", "1"),
        ServiceDefinition::new("b", "https://r", "b", "1"),
    ];
    let defaults = vec![ServiceDefinition::new("dts", "https://helm.example", "doca-telemetry", "1.22.1")];
    let chosen = services_to_apply(configured, defaults);
    let names: Vec<&str> = chosen.iter().map(|s| s.name.as_str()).collect();
    assert_eq!(names, vec!["a", "b"]);
}
