//! Types of the DPF SDK: DPU lifecycle phases, device and node
//! registration records, events and service definitions.

use vstd::prelude::*;
use crate::label_map::LabelMap;

verus! {

/// Phase reported by the DPF operator in a DPU's status.
#[derive(Clone, Copy, Debug, PartialEq, Eq, Structural)]
pub enum DpuStatusPhase {
    Initializing,
    NodeEffect,
    Pending,
    ConfigFwParameters,
    PrepareBfb,
    OsInstalling,
    DpuClusterConfig,
    HostNetworkConfiguration,
    Ready,
    Error,
    Deleting,
    Rebooting,
    InitializeInterface,
    CheckingHostRebootRequired,
    NodeEffectRemoval,
}

/// Phase of the DPU lifecycle, as callers act on it. The operator's
/// provisioning sub-phases are kept as the detail of `Provisioning`.
#[derive(Clone, Debug, PartialEq, Eq)]
pub enum DpuPhase {
    /// DPU is being provisioned by the operator.
    Provisioning(String),
    /// DPU is waiting on node effect (maintenance hold).
    NodeEffect,
    /// Host reboot required before DPU can progress.
    Rebooting,
    /// DPU is ready and operational.
    Ready,
    /// DPU is in an error state.
    Error,
    /// DPU is being deleted.
    Deleting,
}

/// The mathematical value of a [`DpuPhase`].
pub enum DpuPhaseView {
    Provisioning(Seq<char>),
    NodeEffect,
    Rebooting,
    Ready,
    Error,
    Deleting,
}

impl View for DpuPhase {
    type V = DpuPhaseView;

    open spec fn view(&self) -> DpuPhaseView {
        match self {
            DpuPhase::Provisioning(d) => DpuPhaseView::Provisioning(d@),
            DpuPhase::NodeEffect => DpuPhaseView::NodeEffect,
            DpuPhase::Rebooting => DpuPhaseView::Rebooting,
            DpuPhase::Ready => DpuPhaseView::Ready,
            DpuPhase::Error => DpuPhaseView::Error,
            DpuPhase::Deleting => DpuPhaseView::Deleting,
        }
    }
}

/// The caller-facing phase for an operator phase.
pub open spec fn phase_of_status(p: DpuStatusPhase) -> DpuPhaseView {
    match p {
        DpuStatusPhase::Initializing => DpuPhaseView::Provisioning("Initializing"@),
        DpuStatusPhase::NodeEffect => DpuPhaseView::NodeEffect,
        DpuStatusPhase::Pending => DpuPhaseView::Provisioning("Pending"@),
        DpuStatusPhase::ConfigFwParameters => DpuPhaseView::Provisioning("ConfigFwParameters"@),
        DpuStatusPhase::PrepareBfb => DpuPhaseView::Provisioning("PrepareBfb"@),
        DpuStatusPhase::OsInstalling => DpuPhaseView::Provisioning("OsInstalling"@),
        DpuStatusPhase::DpuClusterConfig => DpuPhaseView::Provisioning("DpuClusterConfig"@),
        DpuStatusPhase::HostNetworkConfiguration => DpuPhaseView::Provisioning("HostNetworkConfiguration"@),
        DpuStatusPhase::Ready => DpuPhaseView::Ready,
        DpuStatusPhase::Error => DpuPhaseView::Error,
        DpuStatusPhase::Deleting => DpuPhaseView::Deleting,
        DpuStatusPhase::Rebooting => DpuPhaseView::Rebooting,
        DpuStatusPhase::InitializeInterface => DpuPhaseView::Provisioning("InitializeInterface"@),
        DpuStatusPhase::CheckingHostRebootRequired => DpuPhaseView::Rebooting,
        DpuStatusPhase::NodeEffectRemoval => DpuPhaseView::NodeEffect,
    }
}

/// The operator's intermediate provisioning phases.
pub open spec fn is_provisioning_status(p: DpuStatusPhase) -> bool {
    p == DpuStatusPhase::Initializing || p == DpuStatusPhase::Pending || p == DpuStatusPhase::ConfigFwParameters
        || p == DpuStatusPhase::PrepareBfb || p == DpuStatusPhase::OsInstalling || p
        == DpuStatusPhase::DpuClusterConfig || p == DpuStatusPhase::HostNetworkConfiguration || p
        == DpuStatusPhase::InitializeInterface
}

/// Law: only the operator's Ready phase makes a DPU ready, only its Error
/// phase an error and only its Deleting phase a deletion; its node-effect
/// phases are the node effect and its reboot phases a reboot; exactly the
/// intermediate provisioning phases are reported as provisioning, each
/// carrying its own name, so two different provisioning phases are told
/// apart.
pub proof fn lemma_phase_of_status(p: DpuStatusPhase, q: DpuStatusPhase)
    ensures
        phase_of_status(p) == DpuPhaseView::Ready <==> p == DpuStatusPhase::Ready,
        phase_of_status(p) == DpuPhaseView::Error <==> p == DpuStatusPhase::Error,
        phase_of_status(p) == DpuPhaseView::Deleting <==> p == DpuStatusPhase::Deleting,
        phase_of_status(p) == DpuPhaseView::NodeEffect <==> (p == DpuStatusPhase::NodeEffect || p
            == DpuStatusPhase::NodeEffectRemoval),
        phase_of_status(p) == DpuPhaseView::Rebooting <==> (p == DpuStatusPhase::Rebooting || p
            == DpuStatusPhase::CheckingHostRebootRequired),
        phase_of_status(p) is Provisioning <==> is_provisioning_status(p),
        p == DpuStatusPhase::Initializing ==> phase_of_status(p) == DpuPhaseView::Provisioning("Initializing"@),
        p == DpuStatusPhase::Pending ==> phase_of_status(p) == DpuPhaseView::Provisioning("Pending"@),
        p == DpuStatusPhase::ConfigFwParameters ==> phase_of_status(p) == DpuPhaseView::Provisioning(
            "ConfigFwParameters"@,
        ),
        p == DpuStatusPhase::PrepareBfb ==> phase_of_status(p) == DpuPhaseView::Provisioning("PrepareBfb"@),
        p == DpuStatusPhase::OsInstalling ==> phase_of_status(p) == DpuPhaseView::Provisioning("OsInstalling"@),
        p == DpuStatusPhase::DpuClusterConfig ==> phase_of_status(p) == DpuPhaseView::Provisioning(
            "DpuClusterConfig"@,
        ),
        p == DpuStatusPhase::HostNetworkConfiguration ==> phase_of_status(p) == DpuPhaseView::Provisioning(
            "HostNetworkConfiguration"@,
        ),
        p == DpuStatusPhase::InitializeInterface ==> phase_of_status(p) == DpuPhaseView::Provisioning(
            "InitializeInterface"@,
        ),
        is_provisioning_status(p) && is_provisioning_status(q) && p != q ==> phase_of_status(p) != phase_of_status(q),
{
    reveal_strlit("Initializing");
    reveal_strlit("Pending");
    reveal_strlit("ConfigFwParameters");
    reveal_strlit("PrepareBfb");
    reveal_strlit("OsInstalling");
    reveal_strlit("DpuClusterConfig");
    reveal_strlit("HostNetworkConfiguration");
    reveal_strlit("InitializeInterface");
    if is_provisioning_status(p) && is_provisioning_status(q) && p != q {
        let a = phase_text(phase_of_status(p));
        let b = phase_text(phase_of_status(q));
        assert(a.len() != b.len() || a[0] != b[0] || a[1] != b[1]);
    }
}

/// The text of a phase: the provisioning detail, or the phase's name.
pub open spec fn phase_text(p: DpuPhaseView) -> Seq<char> {
    match p {
        DpuPhaseView::Provisioning(d) => d,
        DpuPhaseView::NodeEffect => "NodeEffect"@,
        DpuPhaseView::Rebooting => "Rebooting"@,
        DpuPhaseView::Ready => "Ready"@,
        DpuPhaseView::Error => "Error"@,
        DpuPhaseView::Deleting => "Deleting"@,
    }
}

impl DpuPhase {
    /// The caller-facing phase for the operator's phase.
    pub fn from(phase: DpuStatusPhase) -> (r: DpuPhase)
        ensures
            r@ == phase_of_status(phase),
    {
        match phase {
            DpuStatusPhase::Initializing => DpuPhase::Provisioning(String::from_str("Initializing")),
            DpuStatusPhase::NodeEffect => DpuPhase::NodeEffect,
            DpuStatusPhase::Pending => DpuPhase::Provisioning(String::from_str("Pending")),
            DpuStatusPhase::ConfigFwParameters => DpuPhase::Provisioning(String::from_str("ConfigFwParameters")),
            DpuStatusPhase::PrepareBfb => DpuPhase::Provisioning(String::from_str("PrepareBfb")),
            DpuStatusPhase::OsInstalling => DpuPhase::Provisioning(String::from_str("OsInstalling")),
            DpuStatusPhase::DpuClusterConfig => DpuPhase::Provisioning(String::from_str("DpuClusterConfig")),
            DpuStatusPhase::HostNetworkConfiguration => DpuPhase::Provisioning(
                String::from_str("HostNetworkConfiguration"),
            ),
            DpuStatusPhase::Ready => DpuPhase::Ready,
            DpuStatusPhase::Error => DpuPhase::Error,
            DpuStatusPhase::Deleting => DpuPhase::Deleting,
            DpuStatusPhase::Rebooting => DpuPhase::Rebooting,
            DpuStatusPhase::InitializeInterface => DpuPhase::Provisioning(String::from_str("InitializeInterface")),
            DpuStatusPhase::CheckingHostRebootRequired => DpuPhase::Rebooting,
            DpuStatusPhase::NodeEffectRemoval => DpuPhase::NodeEffect,
        }
    }
}

impl AsRef<str> for DpuPhase {
    /// The provisioning detail, or the phase's name.
    fn as_ref(&self) -> (r: &str)
        ensures
            r@ == phase_text(self@),
    {
        match self {
            DpuPhase::Provisioning(detail) => detail.as_str(),
            DpuPhase::NodeEffect => "NodeEffect",
            DpuPhase::Rebooting => "Rebooting",
            DpuPhase::Ready => "Ready",
            DpuPhase::Error => "Error",
            DpuPhase::Deleting => "Deleting",
        }
    }
}

/// Information about a DPU device (DPUDevice CR).
#[derive(Clone, Debug)]
pub struct DpuDeviceInfo {
    /// Identifier for this device (e.g. `01-02-03-04-05-06`); the DPUDevice
    /// CR is named after it.
    pub device_id: String,
    /// BMC IP address for the DPU.
    pub dpu_bmc_ip: String,
    /// BMC IP address for the host.
    pub host_bmc_ip: String,
    /// Serial number of the DPU.
    pub serial_number: String,
    /// Caller-defined identifier for the host machine.
    pub host_machine_id: String,
    /// Caller-defined identifier for the DPU machine.
    pub dpu_machine_id: String,
}

/// Information about a DPU node (host with DPUs).
#[derive(Clone, Debug)]
pub struct DpuNodeInfo {
    /// Identifier for this node; the DPUNode CR is named after it.
    pub node_id: String,
    /// BMC IP of the host.
    pub host_bmc_ip: String,
    /// Identifiers of each device attached to this node.
    pub device_ids: Vec<String>,
    /// Caller-defined identifier for the host machine.
    pub host_machine_id: String,
}

/// Event emitted on any DPU resource change.
#[derive(Clone, Debug)]
pub struct DpuEvent {
    /// Name of the DPU resource.
    pub dpu_name: String,
    /// DPU device name (DPUDevice CR name).
    pub device_name: String,
    /// Name of the DPUNode containing this DPU.
    pub node_name: String,
    /// Observed phase.
    pub phase: DpuPhase,
}

/// Event emitted when a DPU is in the Rebooting phase.
#[derive(Clone, Debug)]
pub struct RebootRequiredEvent {
    pub dpu_name: String,
    pub node_name: String,
    pub host_bmc_ip: String,
}

/// Event emitted when a DPU is in the NodeEffect phase.
#[derive(Clone, Debug)]
pub struct MaintenanceEvent {
    pub dpu_name: String,
    pub node_name: String,
}

/// Event emitted when a DPU is in the Ready phase.
#[derive(Clone, Debug)]
pub struct DpuReadyEvent {
    pub dpu_name: String,
    pub device_name: String,
    pub node_name: String,
}

/// Event emitted when a DPU is in the Error phase.
#[derive(Clone, Debug)]
pub struct DpuErrorEvent {
    pub dpu_name: String,
    pub device_name: String,
    pub node_name: String,
}

/// Service type for configPorts (DPUServiceConfiguration).
#[derive(Clone, Copy, Debug, PartialEq, Eq, Structural)]
pub enum ConfigPortsServiceType {
    NodePort,
    ClusterIp,
    /// No Service is created for the ports (the operator's `None`).
    NoService,
}

/// Protocol for a config port.
#[derive(Clone, Copy, Debug, PartialEq, Eq, Structural)]
pub enum ServiceConfigPortProtocol {
    Tcp,
    Udp,
}

/// Single port entry for DPUServiceConfiguration.serviceConfiguration.configPorts.
#[derive(Clone, Debug)]
pub struct ServiceConfigPort {
    pub name: String,
    pub port: i64,
    pub protocol: ServiceConfigPortProtocol,
    pub node_port: Option<i64>,
}

/// Network interface for a DPU service.
#[derive(Clone, Debug)]
pub struct ServiceInterface {
    /// Interface name.
    pub name: String,
    /// Network name.
    pub network: String,
}

/// Service chain switch connecting a physical interface to a service interface.
#[derive(Clone, Debug)]
pub struct ServiceChainSwitch {
    /// Physical interface label (e.g. "p0", "p1", "pf0hpf").
    pub physical_interface: String,
    /// Service name (e.g. "doca-hbn").
    pub service_name: String,
    /// Interface name on the service (e.g. "p0_if").
    pub service_interface: String,
}

/// A JSON document, as `serde_json` holds it.
#[verifier::external_type_specification]
#[verifier::external_body]
pub struct ExJsonValue(serde_json::Value);

/// Definition of a DPU service (DPUServiceTemplate + DPUServiceConfiguration).
#[derive(Clone, Debug)]
pub struct ServiceDefinition {
    /// Service name (e.g. "dts").
    pub name: String,
    /// Helm chart repository URL.
    pub helm_repo_url: String,
    /// Helm chart name.
    pub helm_chart: String,
    /// Helm chart version.
    pub helm_version: String,
    /// Optional helm values for the template (merged into chart).
    pub helm_values: Option<serde_json::Value>,
    /// Network interfaces for the service.
    pub interfaces: Vec<ServiceInterface>,
    /// Optional service configuration (helm values for DPUServiceConfiguration).
    pub config_values: Option<serde_json::Value>,
    /// Config ports for DPUServiceConfiguration.
    pub config_ports: Option<Vec<ServiceConfigPort>>,
    /// Service type for config_ports.
    pub config_ports_service_type: Option<ConfigPortsServiceType>,
    /// Service chain switches connecting physical interfaces to this service's interfaces.
    pub service_chain_switches: Vec<ServiceChainSwitch>,
    /// Optional annotations for the service DaemonSet.
    pub service_daemon_set_annotations: Option<LabelMap>,
}

impl ServiceDefinition {
    /// A service definition with the required helm chart fields and nothing else.
    pub fn new(name: &str, helm_repo_url: &str, helm_chart: &str, helm_version: &str) -> (s: Self)
        ensures
            s.name@ == name@,
            s.helm_repo_url@ == helm_repo_url@,
            s.helm_chart@ == helm_chart@,
            s.helm_version@ == helm_version@,
            s.helm_values is None,
            s.interfaces@.len() == 0,
            s.config_values is None,
            s.config_ports is None,
            s.config_ports_service_type is None,
            s.service_chain_switches@.len() == 0,
            s.service_daemon_set_annotations is None,
    {
        ServiceDefinition {
            name: String::from_str(name),
            helm_repo_url: String::from_str(helm_repo_url),
            helm_chart: String::from_str(helm_chart),
            helm_version: String::from_str(helm_version),
            helm_values: None,
            interfaces: Vec::new(),
            config_values: None,
            config_ports: None,
            config_ports_service_type: None,
            service_chain_switches: Vec::new(),
            service_daemon_set_annotations: None,
        }
    }
}

/// Configuration for creating DPF operator resources (BFB, DPUFlavor,
/// DPUDeployment, service templates, etc.) during initialization.
#[derive(Clone, Debug)]
pub struct InitDpfResourcesConfig {
    /// URL for the BFB (BlueField Bundle) image.
    pub bfb_url: String,
    /// Name of the DPUDeployment CR.
    pub deployment_name: String,
    /// Name of the DPUFlavor CR.
    pub flavor_name: String,
    /// Service templates and configs; when empty the default services are used.
    pub services: Vec<ServiceDefinition>,
    /// Rendered bf.cfg template content for the DPU configuration ConfigMap.
    pub bfcfg_template: Option<String>,
}

impl Default for InitDpfResourcesConfig {
    fn default() -> (c: Self)
        ensures
            c.bfb_url@.len() == 0,
            c.deployment_name@ == "dpu-deployment"@,
            c.flavor_name@ == DEFAULT_FLAVOR_NAME@,
            c.services@.len() == 0,
            c.bfcfg_template is None,
    {
        InitDpfResourcesConfig {
            bfb_url: String::new(),
            deployment_name: String::from_str("dpu-deployment"),
            flavor_name: String::from_str(DEFAULT_FLAVOR_NAME),
            services: Vec::new(),
            bfcfg_template: None,
        }
    }
}

/// Errors of DPF operations.
#[derive(Clone, Debug)]
pub enum DpfError {
    /// A resource that the operation needs does not exist.
    NotFound { kind: String, name: String },
    /// A resource is in a state that forbids the operation.
    InvalidState(String),
    /// The SDK was configured inconsistently.
    ConfigError(String),
    /// The Kubernetes API refused a request, with its HTTP status code.
    Api { code: u16, message: String },
}

impl DpfError {
    /// The error for a missing resource of kind `kind` named `name`.
    pub fn not_found(kind: &str, name: &str) -> (e: DpfError)
        ensures
            e matches DpfError::NotFound { kind: k, name: n } && k@ == kind@ && n@ == name@,
    {
        DpfError::NotFound { kind: String::from_str(kind), name: String::from_str(name) }
    }
}

/// Default DOCA helm registry (DPUServiceTemplate source.repoURL).
pub const DEFAULT_DOCA_HELM_REGISTRY: &'static str = "https://helm.ngc.nvidia.com/nvidia/doca";

/// Name of the default DPUFlavor.
pub const DEFAULT_FLAVOR_NAME: &'static str = "dpu-flavor";

/// Overridable registry configuration for DPU services.
#[derive(Clone, Debug)]
pub struct ServiceRegistryConfig {
    /// Helm chart repository URL for DOCA services (HBN, DTS).
    pub doca_helm_registry: String,
}

impl Default for ServiceRegistryConfig {
    fn default() -> (r: Self)
        ensures
            r.doca_helm_registry@ == DEFAULT_DOCA_HELM_REGISTRY@,
    {
        ServiceRegistryConfig { doca_helm_registry: String::from_str(DEFAULT_DOCA_HELM_REGISTRY) }
    }
}

} // verus!
