use carbide::bmc_attrs::HwType;
use carbide::bmc_dgx::{dgx_pcie_device_ids, hgx_gpu_sxm_chassis};
use carbide::bmc_gb200::{Bluefield3, FirmwareVersions, Mode};
use carbide::collector_plan::{
    component_duration_metric_name, component_failures_metric_name, gauge_family_name,
    stream_static_labels,
};
use carbide::dpf_labeler::{NoLabels, ResourceLabeler};
use carbide::dpf_types::DpuNodeInfo;
use carbide::explore_manager::{manager_config, Config as ManagerConfig};
use carbide::bmc_attrs::ExploreError;
use carbide::explore_system::{
    choose_system, interface_mac, need_assembly_sn, need_network_device_fns, needs_oob_from_boot_options,
    pcie_chassis, system_config, undetected_platform_status,
};
use carbide::nvue_collection::{
    link_diagnostic_qualifier, nvue_iteration_plan, nvue_iteration_result, partition_display_name, AppFacts, Fetch,
    Fetched, LinkDiagnosticFacts, NvueEvent, PartitionFacts,
};

#[test]
fn manager_resources_follow_the_hardware_family() {
    let c = manager_config(Some(HwType::Supermicro));
    assert!(c.need_host_interfaces && c.need_oem_supermicro_kcs_interface && c.need_oem_supermicro_sys_lockdown);
    assert!(!c.need_oem_dell_attributes);
    assert!(manager_config(Some(HwType::Dell)).need_oem_dell_attributes);
    assert_eq!(manager_config(None), ManagerConfig::default());
    assert_eq!(manager_config(Some(HwType::Gb200)), ManagerConfig::default());
}

#[test]
fn system_and_chassis_choices() {
    assert!(system_config("Bluefield").need_oem_nvidia_bluefield);
    assert!(!system_config("System_0").need_oem_nvidia_bluefield);
    assert_eq!(choose_system(&vec![false, false, true, true]).unwrap(), 2);
    assert_eq!(choose_system(&vec![true, false]).unwrap(), 0);
    assert!(choose_system(&vec![]).is_err());
    assert!(pcie_chassis(Some(HwType::Viking), "HGX_GPU_SXM_1", "DGX"));
    assert!(!pcie_chassis(Some(HwType::Viking), "DGX", "DGX"));
    assert!(pcie_chassis(Some(HwType::Dell), "System.Embedded.1", "System.Embedded.1"));
    assert!(!pcie_chassis(None, "x", "x"));
    assert!(need_network_device_fns(&Some("Dell".to_string())));
    assert!(!need_network_device_fns(&None));
    assert!(need_assembly_sn("Chassis_0", &Some("GB200 NVL".to_string())));
    assert!(!need_assembly_sn("Chassis_1", &Some("GB200 NVL".to_string())));
    let st = undetected_platform_status();
    assert!(!st.is_done);
    assert_eq!(st.diffs[0].key, "platform type");
}

#[test]
fn nvue_round_counts_entities_and_failures() {
    let r = nvue_iteration_result(Fetched::Got(1), Fetched::Failed, Fetched::Got(3), Fetched::Absent);
    assert!(r.refresh_triggered);
    assert_eq!(r.entity_count, Some(4));
    assert_eq!(r.fetch_failures, 1);
    assert_eq!(partition_display_name(&None, "p1"), "p1");
    assert_eq!(partition_display_name(&Some("gpus".to_string()), "p1"), "gpus");
    assert_eq!(link_diagnostic_qualifier("swp1", "1024"), "swp1:1024");
}

#[test]
fn metric_names_and_stream_labels() {
    assert_eq!(component_failures_metric_name("health"), "health_component_failures_total");
    assert_eq!(component_duration_metric_name("health"), "health_component_duration_seconds");
    assert_eq!(gauge_family_name("p", "temp", "gauge", "celsius"), "p_temp_gauge_celsius");
    let labels = stream_static_labels(
        "42:9e:b1:bd:9d:dd",
        &[0x42, 0x9e, 0xb1, 0xbd, 0x9d, 0xdd],
        "10.0.0.1",
        "sensor_collector",
        &None,
        &Some("SN1".to_string()),
    );
    let got: Vec<(&str, &str)> = labels.iter().map(|(k, v)| (k.as_str(), v.as_str())).collect();
    assert_eq!(
        got,
        vec![
            ("endpoint_key", "42:9e:b1:bd:9d:dd"),
            ("endpoint_mac", "42:9E:B1:BD:9D:DD"),
            ("endpoint_ip", "10.0.0.1"),
            ("collector_type", "sensor_collector"),
            ("switch_serial", "SN1"),
        ]
    );
}

#[test]
fn dgx_gpu_chassis_and_pcie_ids() {
    let c = hgx_gpu_sxm_chassis(3, "GPU-SN-3");
    assert_eq!(c.id, "HGX_GPU_SXM_3");
    assert_eq!(c.chassis_type, "Other");
    let devices = c.pcie_devices.unwrap();
    assert_eq!(devices.len(), 1);
    assert_eq!(devices[0].id, "GPU_SXM_3");
    assert_eq!(devices[0].serial_number.as_deref(), Some("GPU-SN-3"));
    let ids = dgx_pcie_device_ids();
    assert_eq!(ids.len(), 133);
    assert_eq!(ids[0], "00_00_00");
    assert_eq!(ids[10], "00_00_0A");
    assert_eq!(ids[132], "00_00_84");
}

#[test]
fn bluefield_host_nic_variants() {
    let card = Bluefield3 {
        product_serial_number: "MT1".to_string(),
        host_mac_address: [1, 2, 3, 4, 5, 6],
        bmc_mac_address: [1, 2, 3, 4, 5, 7],
        oob_mac_address: None,
        mode: Mode::SuperNIC { nic_mode: true },
        firmware_versions: FirmwareVersions {
            bmc: "b".to_string(),
            uefi: "u".to_string(),
            dpu_nic: "32.1".to_string(),
            erot: "e".to_string(),
        },
    };
    let nic = card.host_nic();
    assert_eq!(nic.serial_number.as_deref(), Some("MT1                 "));
    assert_eq!(nic.part_number.as_deref(), Some("900-9D3B4-00CC-EA0"));
    let h100 = card.host_nic_h100_variant();
    assert_eq!(h100.part_number.as_deref(), Some("900-9D3B4-00CC-EA0       "));
    assert_eq!(h100.manufacturer.as_deref(), Some("MLNX"));
    assert!(h100.description.is_none());
}

#[test]
fn no_labels_labeler_gives_no_labels() {
    let info = DpuNodeInfo {
        node_id: "n".to_string(),
        host_bmc_ip: "10.0.0.1".to_string(),
        device_ids: vec![],
        host_machine_id: "m".to_string(),
    };
    assert!(NoLabels.node_labels().is_empty());
    assert!(NoLabels.node_context_labels(&info).is_empty());
    assert!(NoLabels.dpu_label_selector().is_none());
}

#[test]
fn bluefield_oob_interface_is_crafted_only_when_missing() {
    let ids = vec!["tmfifo_net0".to_string(), "OOB_NET0".to_string()];
    assert!(!needs_oob_from_boot_options(Some(HwType::Bluefield), &ids));
    let ids = vec!["tmfifo_net0".to_string()];
    assert!(needs_oob_from_boot_options(Some(HwType::Bluefield), &ids));
    assert!(!needs_oob_from_boot_options(Some(HwType::Dell), &ids));
    assert!(!needs_oob_from_boot_options(None, &ids));
}

#[test]
fn junk_mac_is_tolerated_only_on_disabled_interfaces() {
    let junk = || Some(("zz".to_string(), Err("invalid digit".to_string())));
    assert_eq!(interface_mac(junk(), Some(false)).unwrap(), None);
    match interface_mac(junk(), Some(true)) {
        Err(ExploreError::InvalidValue(m)) => assert_eq!(m, "MAC address not valid: zz (err: invalid digit)"),
        _ => panic!("expected an invalid value"),
    }
    assert!(interface_mac(junk(), None).is_err());
    let good = Some(("aa:bb:cc:dd:ee:ff".to_string(), Ok([0xaa, 0xbb, 0xcc, 0xdd, 0xee, 0xff])));
    assert_eq!(interface_mac(good, Some(true)).unwrap(), Some([0xaa, 0xbb, 0xcc, 0xdd, 0xee, 0xff]));
    assert_eq!(interface_mac(None, None).unwrap(), None);
}

fn metric_summary(e: &NvueEvent) -> (String, String, u64, Vec<(String, String)>) {
    match e {
        NvueEvent::Metric(m) => (m.key.clone(), m.unit.clone(), m.value, m.labels.clone()),
        _ => panic!("expected a metric"),
    }
}

#[test]
fn nvue_round_emits_events_in_order() {
    let apps = vec![AppFacts { name: "app1".to_string(), status: Some("not ok".to_string()) }];
    let partitions = vec![PartitionFacts {
        id: "p1".to_string(),
        name: None,
        health: Some("degraded".to_string()),
        num_gpus: Some(4),
    }];
    let diagnostics = vec![LinkDiagnosticFacts {
        interface: "swp1".to_string(),
        code: "57".to_string(),
        status: "No issue was observed".to_string(),
    }];
    let (events, result) = nvue_iteration_plan(
        Fetch::Got(Some("OK".to_string())),
        Fetch::Got(apps),
        Fetch::Got(partitions),
        Some(diagnostics),
    );
    assert_eq!(events.len(), 7);
    assert!(matches!(events[0], NvueEvent::CollectionStart));
    assert!(matches!(events[6], NvueEvent::CollectionEnd));
    assert_eq!(metric_summary(&events[1]), ("system_health".to_string(), "state".to_string(), 1, vec![]));
    assert_eq!(
        metric_summary(&events[2]),
        ("cluster_app:app1".to_string(), "state".to_string(), 2, vec![("app_name".to_string(), "app1".to_string())])
    );
    let part_labels = vec![
        ("partition_id".to_string(), "p1".to_string()),
        ("partition_name".to_string(), "p1".to_string()),
    ];
    assert_eq!(
        metric_summary(&events[3]),
        ("partition_health:p1".to_string(), "state".to_string(), 3, part_labels.clone())
    );
    assert_eq!(metric_summary(&events[4]), ("partition_gpu:p1".to_string(), "count".to_string(), 4, part_labels));
    assert_eq!(
        metric_summary(&events[5]),
        (
            "link_diagnostic:swp1:57".to_string(),
            "state".to_string(),
            1,
            vec![
                ("interface_name".to_string(), "swp1".to_string()),
                ("opcode".to_string(), "57".to_string()),
                ("diagnostic_status".to_string(), "No issue was observed".to_string()),
            ]
        )
    );
    assert!(result.refresh_triggered);
    assert_eq!(result.entity_count, Some(4));
    assert_eq!(result.fetch_failures, 0);
}

#[test]
fn nvue_round_with_failed_fetches_still_brackets_events() {
    let (events, result) = nvue_iteration_plan(Fetch::Failed, Fetch::Absent, Fetch::Failed, None);
    assert_eq!(events.len(), 2);
    assert!(matches!(events[0], NvueEvent::CollectionStart));
    assert!(matches!(events[1], NvueEvent::CollectionEnd));
    assert_eq!(result.entity_count, Some(0));
    assert_eq!(result.fetch_failures, 3);
}
