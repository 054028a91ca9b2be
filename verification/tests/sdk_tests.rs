use carbide::dpf_flavor::default_flavor;
use carbide::dpf_labeler::{NoLabels, ResourceLabeler};
use carbide::dpf_naming::{bfb_name, dpu_device_cr_name, dpu_node_cr_name};
use carbide::dpf_sdk::{
    bfb_outcome, created_outcome, dpu_cr_name_for_node, dpu_device_plan, dpu_node_plan, existing_resource_outcome,
    needs_existing_lookup, node_deletion_outcome, node_deletion_steps, node_registration_step, CreateOutcome,
    DpuDevicePlan, DpuNodePlan, NodeDeletionStep, NodeRegistrationStep,
};
use carbide::dpf_types::{DpfError, DpuDeviceInfo, DpuNodeInfo, DEFAULT_FLAVOR_NAME};
use carbide::label_map::LabelMap;

const TEST_NAMESPACE: &str = "test-ns";

fn device_info() -> DpuDeviceInfo {
    DpuDeviceInfo {
        device_id: "dpu-001".to_string(),
        dpu_bmc_ip: "10.0.0.10".to_string(),
        host_bmc_ip: "10.0.0.1".to_string(),
        serial_number: "SN123456".to_string(),
        host_machine_id: "host-aaa".to_string(),
        dpu_machine_id: "dpu-bbb".to_string(),
    }
}

fn node_info(device_ids: &[&str]) -> DpuNodeInfo {
    DpuNodeInfo {
        node_id: "host-001".to_string(),
        host_bmc_ip: "10.0.0.1".to_string(),
        device_ids: device_ids.iter().map(|d| d.to_string()).collect(),
        host_machine_id: "host-aaa".to_string(),
    }
}

fn map_of(pairs: &[(&str, String)]) -> LabelMap {
    let mut m = LabelMap::new();
    for (k, v) in pairs {
        m.insert(k.to_string(), v.clone());
    }
    m
}

struct TestLabeler;

impl ResourceLabeler for TestLabeler {
    fn device_labels(&self, info: &DpuDeviceInfo) -> LabelMap {
        map_of(&[
            ("test/device", "true".to_string()),
            ("test/host-bmc-ip", info.host_bmc_ip.clone()),
            ("test/host-machine-id", info.host_machine_id.clone()),
            ("test/dpu-machine-id", info.dpu_machine_id.clone()),
        ])
    }

    fn node_labels(&self) -> LabelMap {
        map_of(&[("test/node", "true".to_string())])
    }

    fn node_context_labels(&self, info: &DpuNodeInfo) -> LabelMap {
        map_of(&[("test/host-machine-id", info.host_machine_id.clone())])
    }
}

/// A namespace's resources as a Kubernetes API server holds them, with
/// whether each carries a deletion timestamp.
#[derive(Default)]
struct Store {
    devices: Vec<(DpuDevicePlan, bool)>,
    nodes: Vec<(DpuNodePlan, bool)>,
    /// Names of the DPU resources the operator created.
    dpus: Vec<String>,
}

impl Store {
    fn create_device(&mut self, plan: DpuDevicePlan) -> (CreateOutcome, Option<bool>) {
        if let Some((_, terminating)) =
            self.devices.iter().find(|(d, _)| d.name == plan.name && d.namespace == plan.namespace)
        {
            return (CreateOutcome::AlreadyExists, Some(*terminating));
        }
        self.devices.push((plan, false));
        (CreateOutcome::Created, None)
    }

    /// Creates the node, or hands the plan back with the existing node's
    /// deletion mark when one of that name exists.
    fn create_node(&mut self, plan: DpuNodePlan) -> (CreateOutcome, Option<bool>, Option<DpuNodePlan>) {
        if let Some((_, terminating)) = self.nodes.iter().find(|(n, _)| n.name == plan.name) {
            return (CreateOutcome::AlreadyExists, Some(*terminating), Some(plan));
        }
        self.nodes.push((plan, false));
        (CreateOutcome::Created, None, None)
    }

    /// Gives the existing node the plan's labels and DPUs.
    fn update_node(&mut self, plan: DpuNodePlan) -> Result<(), DpfError> {
        match self.nodes.iter_mut().find(|(n, _)| n.name == plan.name) {
            Some((n, _)) => {
                n.labels = plan.labels;
                n.dpus = plan.dpus;
                Ok(())
            }
            None => Err(DpfError::NotFound { kind: "DPUNode".to_string(), name: plan.name }),
        }
    }

    /// Runs the deletion steps of a node and returns how the deletion ends.
    fn delete_node(&mut self, node_labels: &LabelMap, name: &str) -> Result<(), DpfError> {
        let mut patch: Result<(), DpfError> = Ok(());
        let mut delete: Result<(), DpfError> = Ok(());
        for step in node_deletion_steps(node_labels) {
            match step {
                NodeDeletionStep::RemoveLabels(keys) => {
                    match self.nodes.iter_mut().find(|(n, _)| n.name == name) {
                        Some((n, _)) => {
                            if let Some(labels) = &n.labels {
                                let mut kept = LabelMap::new();
                                for (k, v) in labels.entries() {
                                    if !keys.contains(k) {
                                        kept.insert(k.clone(), v.clone());
                                    }
                                }
                                n.labels = if kept.is_empty() { None } else { Some(kept) };
                            }
                        }
                        None => {
                            patch = Err(DpfError::NotFound { kind: "DPUNode".to_string(), name: name.to_string() })
                        }
                    }
                }
                NodeDeletionStep::Delete => {
                    let before = self.nodes.len();
                    self.nodes.retain(|(n, _)| n.name != name);
                    if self.nodes.len() == before {
                        delete = Err(DpfError::NotFound { kind: "DPUNode".to_string(), name: name.to_string() });
                    }
                }
            }
        }
        node_deletion_outcome(patch, delete)
    }
}

fn register_dpu_device<L: ResourceLabeler>(
    store: &mut Store,
    labeler: &L,
    info: DpuDeviceInfo,
) -> Result<(), DpfError> {
    register_dpu_device_in(store, TEST_NAMESPACE, labeler, info)
}

fn register_dpu_device_in<L: ResourceLabeler>(
    store: &mut Store,
    namespace: &str,
    labeler: &L,
    info: DpuDeviceInfo,
) -> Result<(), DpfError> {
    let labels = labeler.device_labels(&info);
    let plan = dpu_device_plan(namespace, info, labels);
    let name = plan.name.clone();
    let (create, existing) = store.create_device(plan);
    if needs_existing_lookup(&create) {
        existing_resource_outcome("DPUDevice", &name, "re-register", Ok(existing))
    } else {
        created_outcome(create)
    }
}

fn register_dpu_node<L: ResourceLabeler>(
    store: &mut Store,
    labeler: &L,
    info: DpuNodeInfo,
) -> Result<(), DpfError> {
    let context = labeler.node_context_labels(&info);
    let plan = dpu_node_plan(TEST_NAMESPACE, info, labeler.node_labels(), &context);
    let name = plan.name.clone();
    let (create, existing, returned) = store.create_node(plan);
    if needs_existing_lookup(&create) {
        match node_registration_step(&name, Ok(existing)) {
            NodeRegistrationStep::Finish(r) => r,
            NodeRegistrationStep::UpdateExisting => store.update_node(returned.unwrap()),
        }
    } else {
        created_outcome(create)
    }
}

fn existing_device(terminating: bool) -> (DpuDevicePlan, bool) {
    (dpu_device_plan(TEST_NAMESPACE, device_info(), LabelMap::new()), terminating)
}

fn existing_node(terminating: bool) -> (DpuNodePlan, bool) {
    let plan = dpu_node_plan(TEST_NAMESPACE, node_info(&[]), LabelMap::new(), &LabelMap::new());
    assert_eq!(plan.name, dpu_node_cr_name("host-001"));
    (plan, terminating)
}

#[test]
fn test_register_dpu_device() {
    let mut store = Store::default();
    register_dpu_device(&mut store, &NoLabels, device_info()).unwrap();
    assert_eq!(store.devices.len(), 1);
    assert_eq!(store.devices[0].0.serial_number, "SN123456");
}

#[test]
fn test_register_dpu_node() {
    let mut store = Store::default();
    register_dpu_node(&mut store, &NoLabels, node_info(&["dpu-001", "dpu-002"])).unwrap();
    assert_eq!(store.nodes.len(), 1);
    assert_eq!(store.nodes[0].0.name, "node-host-001");
    assert_eq!(store.nodes[0].0.dpus.len(), 2);
}

#[test]
fn test_dpu_device_info_labels() {
    let mut store = Store::default();
    register_dpu_device(&mut store, &TestLabeler, device_info()).unwrap();
    let labels = store.devices[0].0.labels.as_ref().unwrap();
    assert_eq!(labels.get("test/device"), Some(&"true".to_string()));
    assert_eq!(labels.get("test/host-bmc-ip"), Some(&"10.0.0.1".to_string()));
    assert_eq!(labels.get("test/host-machine-id"), Some(&"host-aaa".to_string()));
    assert_eq!(labels.get("test/dpu-machine-id"), Some(&"dpu-bbb".to_string()));
}

#[test]
fn test_dpu_device_no_labels_without_labeler() {
    let mut store = Store::default();
    register_dpu_device(&mut store, &NoLabels, device_info()).unwrap();
    assert!(store.devices[0].0.labels.is_none());
}

#[test]
fn test_dpu_node_labels() {
    let mut store = Store::default();
    register_dpu_node(&mut store, &TestLabeler, node_info(&["dpu-001"])).unwrap();
    let labels = store.nodes[0].0.labels.as_ref().unwrap();
    assert_eq!(labels.get("test/node"), Some(&"true".to_string()));
    assert_eq!(
        labels.get("test/host-machine-id"),
        Some(&"host-aaa".to_string()),
        "contextual label from node_context_labels should be merged"
    );
}

#[test]
fn test_dpu_node_no_labels_without_labeler() {
    let mut store = Store::default();
    register_dpu_node(&mut store, &NoLabels, node_info(&["dpu-001"])).unwrap();
    assert!(store.nodes[0].0.labels.is_none());
}

#[test]
fn test_node_label_removal_patch_contains_labeler_keys() {
    let keys = TestLabeler.node_labels().keys();
    assert!(keys.contains(&"test/node".to_string()));
    assert_eq!(keys.len(), 1);
}

#[test]
fn test_node_label_removal_patch_empty_without_labeler() {
    assert!(NoLabels.node_labels().keys().is_empty());
}

#[test]
fn test_register_dpu_device_fails_when_terminating() {
    let mut store = Store::default();
    store.devices.push(existing_device(true));
    let err = register_dpu_device(&mut store, &NoLabels, device_info()).unwrap_err();
    assert!(matches!(err, DpfError::InvalidState(_)), "expected InvalidState, got: {err:?}");
}

#[test]
fn test_register_dpu_device_ok_when_existing_not_terminating() {
    let mut store = Store::default();
    store.devices.push(existing_device(false));
    register_dpu_device(&mut store, &NoLabels, device_info()).unwrap();
}

#[test]
fn test_register_dpu_node_fails_when_terminating() {
    let mut store = Store::default();
    store.nodes.push(existing_node(true));
    let err = register_dpu_node(&mut store, &NoLabels, node_info(&["dpu-001"])).unwrap_err();
    assert!(matches!(err, DpfError::InvalidState(_)), "expected InvalidState, got: {err:?}");
}

#[test]
fn test_register_dpu_node_ok_when_existing_not_terminating() {
    let mut store = Store::default();
    store.nodes.push(existing_node(false));
    register_dpu_node(&mut store, &NoLabels, node_info(&["dpu-001"])).unwrap();
}

fn create_dpu_flavor(existing: Option<bool>) -> Result<(), DpfError> {
    let flavor = default_flavor(TEST_NAMESPACE, DEFAULT_FLAVOR_NAME);
    assert_eq!(flavor.name, DEFAULT_FLAVOR_NAME);
    match existing {
        Some(terminating) => {
            existing_resource_outcome("DPUFlavor", DEFAULT_FLAVOR_NAME, "re-create", Ok(Some(terminating)))
        }
        None => created_outcome(CreateOutcome::Created),
    }
}

#[test]
fn test_create_dpu_flavor_fails_when_terminating() {
    let err = create_dpu_flavor(Some(true)).unwrap_err();
    assert!(matches!(err, DpfError::InvalidState(_)), "expected InvalidState, got: {err:?}");
}

#[test]
fn test_create_dpu_flavor_ok_when_existing_not_terminating() {
    create_dpu_flavor(Some(false)).unwrap();
}

#[test]
fn test_create_bfb_reuses_existing() {
    let url = "http://example.com/reuse.bfb";
    let mut store: Vec<String> = Vec::new();
    let mut create = |name: String| {
        let outcome = if store.contains(&name) {
            CreateOutcome::AlreadyExists
        } else {
            store.push(name.clone());
            CreateOutcome::Created
        };
        bfb_outcome(name, outcome).unwrap()
    };
    let name1 = create(bfb_name(url));
    let name2 = create(bfb_name(url));
    assert_eq!(name1, name2);
    assert_eq!(store.len(), 1, "only one BFB should exist");
}

#[test]
fn terminating_message_names_the_resource() {
    let r = existing_resource_outcome("DPUDevice", &dpu_device_cr_name("dpu-001"), "re-register", Ok(Some(true)));
    match r {
        Err(DpfError::InvalidState(m)) => assert_eq!(
            m,
            "DPUDevice device-dpu-001 is being deleted (has deletionTimestamp); cannot re-register until the old resource is fully removed"
        ),
        other => panic!("unexpected {other:?}"),
    }
}

#[test]
fn lookup_error_is_returned_as_is() {
    let r = existing_resource_outcome(
        "DPUNode",
        "node-host-001",
        "re-register",
        Err(DpfError::Api { code: 500, message: "boom".to_string() }),
    );
    assert!(matches!(r, Err(DpfError::Api { code: 500, .. })));
}

#[test]
fn test_delete_dpu_device() {
    let mut store = Store::default();
    register_dpu_device(&mut store, &NoLabels, device_info()).unwrap();
    assert_eq!(store.devices.len(), 1);
    let cr_name = dpu_device_cr_name("dpu-001");
    store.devices.retain(|(d, _)| d.name != cr_name);
    assert_eq!(store.devices.len(), 0);
}

#[test]
fn test_delete_dpu_node() {
    let mut store = Store::default();
    register_dpu_node(&mut store, &NoLabels, node_info(&["dpu-001"])).unwrap();
    assert_eq!(store.nodes.len(), 1);
    store.delete_node(&NoLabels.node_labels(), "node-host-001").unwrap();
    assert_eq!(store.nodes.len(), 0);
}

#[test]
fn deleting_a_node_first_removes_its_labels() {
    let steps = node_deletion_steps(&TestLabeler.node_labels());
    assert_eq!(steps.len(), 2);
    match &steps[0] {
        NodeDeletionStep::RemoveLabels(keys) => assert_eq!(keys, &vec!["test/node".to_string()]),
        NodeDeletionStep::Delete => panic!("labels must be removed first"),
    }
    assert!(matches!(steps[1], NodeDeletionStep::Delete));
}

#[test]
fn failed_label_removal_does_not_stop_node_deletion() {
    let mut store = Store::default();
    assert!(store.delete_node(&TestLabeler.node_labels(), "node-host-001").is_err());
    let r = node_deletion_outcome(Err(DpfError::Api { code: 500, message: "patch".to_string() }), Ok(()));
    assert!(r.is_ok());
    let r = node_deletion_outcome(Ok(()), Err(DpfError::Api { code: 500, message: "delete".to_string() }));
    assert!(matches!(r, Err(DpfError::Api { code: 500, .. })));
}

#[test]
fn registering_an_existing_node_updates_it() {
    let mut store = Store::default();
    store.nodes.push(existing_node(false));
    assert!(store.nodes[0].0.dpus.is_empty());
    register_dpu_node(&mut store, &TestLabeler, node_info(&["dpu-001", "dpu-002"])).unwrap();
    assert_eq!(store.nodes.len(), 1);
    let node = &store.nodes[0].0;
    assert_eq!(node.dpus, vec![dpu_device_cr_name("dpu-001"), dpu_device_cr_name("dpu-002")]);
    let labels = node.labels.as_ref().expect("labels were updated");
    assert_eq!(labels.get("test/node"), Some(&"true".to_string()));
    assert_eq!(labels.get("test/host-machine-id"), Some(&"host-aaa".to_string()));
}

#[test]
fn node_registration_after_lookup() {
    assert!(matches!(node_registration_step("node-host-001", Ok(Some(false))), NodeRegistrationStep::UpdateExisting));
    assert!(matches!(node_registration_step("node-host-001", Ok(None)), NodeRegistrationStep::Finish(Ok(()))));
    match node_registration_step("node-host-001", Ok(Some(true))) {
        NodeRegistrationStep::Finish(Err(DpfError::InvalidState(m))) => assert_eq!(
            m,
            "DPUNode node-host-001 is being deleted (has deletionTimestamp); cannot re-register until the old resource is fully removed"
        ),
        _ => panic!("a node being deleted cannot be registered again"),
    }
    assert!(matches!(
        node_registration_step("node-host-001", Err(DpfError::Api { code: 503, message: "down".to_string() })),
        NodeRegistrationStep::Finish(Err(DpfError::Api { code: 503, .. }))
    ));
}

#[test]
fn test_reprovision_dpu_deletes_dpu_not_device() {
    let mut store = Store::default();
    let mut info = device_info();
    info.serial_number = "SN123".to_string();
    register_dpu_device(&mut store, &NoLabels, info).unwrap();
    store.dpus.push("node-dpu-001-device-dpu-001".to_string());
    let cr_name = dpu_cr_name_for_node("dpu-001", "node-dpu-001");
    store.dpus.retain(|d| *d != cr_name);
    assert_eq!(store.dpus.len(), 0, "DPU CR should be deleted");
    assert_eq!(store.devices.len(), 1, "DPUDevice should remain");
}

#[test]
fn test_namespace_isolation() {
    let mut store = Store::default();
    let info1 = DpuDeviceInfo {
        device_id: "dpu-001".to_string(),
        dpu_bmc_ip: "10.0.0.10".to_string(),
        host_bmc_ip: "10.0.0.1".to_string(),
        serial_number: "SN111".to_string(),
        host_machine_id: "host-111".to_string(),
        dpu_machine_id: "dpu-111".to_string(),
    };
    let info2 = DpuDeviceInfo {
        device_id: "dpu-002".to_string(),
        dpu_bmc_ip: "10.0.0.20".to_string(),
        host_bmc_ip: "10.0.0.2".to_string(),
        serial_number: "SN222".to_string(),
        host_machine_id: "host-222".to_string(),
        dpu_machine_id: "dpu-222".to_string(),
    };
    register_dpu_device_in(&mut store, "namespace-1", &NoLabels, info1).unwrap();
    register_dpu_device_in(&mut store, "namespace-2", &NoLabels, info2).unwrap();
    let devices1: Vec<&DpuDevicePlan> =
        store.devices.iter().map(|(d, _)| d).filter(|d| d.namespace == "namespace-1").collect();
    let devices2: Vec<&DpuDevicePlan> =
        store.devices.iter().map(|(d, _)| d).filter(|d| d.namespace == "namespace-2").collect();
    assert_eq!(devices1.len(), 1);
    assert_eq!(devices2.len(), 1);
    assert_eq!(devices1[0].serial_number, "SN111");
    assert_eq!(devices2[0].serial_number, "SN222");
}

#[test]
fn bfb_names_are_valid_resource_names() {
    for url in ["http://example.com/a.bfb", "", "https://x/y?z=1"] {
        let name = bfb_name(url);
        assert_eq!(name.len(), 74);
        assert!(name.starts_with("bf-bundle-"));
        assert!(name.chars().all(|c| c.is_ascii_lowercase() || c.is_ascii_digit() || c == '-'));
    }
    assert_eq!(bfb_name("http://example.com/a.bfb"), bfb_name("http://example.com/a.bfb"));
    assert_ne!(bfb_name("http://example.com/a.bfb"), bfb_name("http://example.com/b.bfb"));
}

#[test]
fn label_keys_come_in_ascending_order() {
    let mut m = LabelMap::new();
    m.insert("zeta".to_string(), "1".to_string());
    m.insert("alpha".to_string(), "2".to_string());
    m.insert("mid".to_string(), "3".to_string());
    m.insert("alpha".to_string(), "4".to_string());
    m.insert("al".to_string(), "5".to_string());
    assert_eq!(m.keys(), vec!["al".to_string(), "alpha".to_string(), "mid".to_string(), "zeta".to_string()]);
    let entries: Vec<(String, String)> = m.entries().clone();
    assert_eq!(entries[1], ("alpha".to_string(), "4".to_string()));
    assert_eq!(m.len(), 4);
}
