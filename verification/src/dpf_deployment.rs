//! The DPU services and the DPUDeployment that initialization creates:
//! one DPUServiceTemplate and one DPUServiceConfiguration per service, and a
//! deployment that references them, the BFB and the flavor.

use vstd::prelude::*;
use crate::dpf_sdk::{deployment_node_selector, DPU_ENABLED_LABEL};
use crate::dpf_types::{
    ConfigPortsServiceType, DpfError, ServiceChainSwitch, ServiceConfigPort, ServiceDefinition, ServiceInterface,
};
use crate::label_map::LabelMap;

verus! {

/// Whether a JSON value is an object, as `serde_json::Value::is_object`
/// tells it.
pub uninterp spec fn is_json_object(v: serde_json::Value) -> bool;

/// Whether `v` is a JSON object; `serde_json::Value::is_object`. Claims
/// only that the answer is the named one for `v`.
#[verifier::external_body]
fn json_is_object(v: &serde_json::Value) -> (r: bool)
    ensures
        r == is_json_object(*v),
{
    v.is_object()
}

/// The DPUServiceTemplate to apply for one service.
pub struct ServiceTemplatePlan {
    /// Name of the template and of the service it deploys.
    pub name: String,
    pub namespace: String,
    /// Helm chart name, repository URL and version.
    pub chart: String,
    pub repo_url: String,
    pub version: String,
    /// Whether the template carries helm values (the service's helm values,
    /// when they form a JSON object).
    pub helm_values: bool,
}

/// The DPUServiceTemplate for service `svc` in `namespace`: named after the
/// service, deploying it from its helm chart.
pub fn service_template_plan(namespace: &str, svc: &ServiceDefinition) -> (p: ServiceTemplatePlan)
    ensures
        p.name@ == svc.name@,
        p.namespace@ == namespace@,
        p.chart@ == svc.helm_chart@,
        p.repo_url@ == svc.helm_repo_url@,
        p.version@ == svc.helm_version@,
        p.helm_values == (svc.helm_values matches Some(v) && is_json_object(v)),
{
    let helm_values = match &svc.helm_values {
        Some(v) => json_is_object(v),
        None => false,
    };
    ServiceTemplatePlan {
        name: svc.name.clone(),
        namespace: String::from_str(namespace),
        chart: svc.helm_chart.clone(),
        repo_url: svc.helm_repo_url.clone(),
        version: svc.helm_version.clone(),
        helm_values,
    }
}

/// One step of creating the initialization objects.
#[derive(Clone, Copy, Debug, PartialEq, Eq, Structural)]
pub enum InitStep {
    /// Create the BFB (it is reused when it exists).
    CreateBfb,
    /// Create the DPUFlavor.
    CreateFlavor,
    /// Apply the DPUServiceTemplate of the service at this position.
    ApplyServiceTemplate(usize),
    /// Apply the DPUServiceConfiguration of the service at this position.
    ApplyServiceConfiguration(usize),
    /// Apply the DPUDeployment.
    ApplyDeployment,
    /// Apply the ConfigMap holding the bf.cfg template.
    ApplyBfCfgTemplate,
}

/// The number of steps for `n` services, with or without a bf.cfg template.
pub open spec fn init_step_count(n: nat, bfcfg: bool) -> nat {
    3 + 2 * n + if bfcfg { 1nat } else { 0nat }
}

/// The step at position `k`: the BFB, the flavor, then for each service its
/// template and its configuration, then the deployment, and last the
/// bf.cfg template when there is one.
pub open spec fn init_step_at(n: nat, k: int) -> InitStep {
    if k == 0 {
        InitStep::CreateBfb
    } else if k == 1 {
        InitStep::CreateFlavor
    } else if k < 2 + 2 * n {
        if (k - 2) % 2 == 0 {
            InitStep::ApplyServiceTemplate(((k - 2) / 2) as usize)
        } else {
            InitStep::ApplyServiceConfiguration(((k - 2) / 2) as usize)
        }
    } else if k == 2 + 2 * n {
        InitStep::ApplyDeployment
    } else {
        InitStep::ApplyBfCfgTemplate
    }
}

/// The steps of creating the initialization objects for `n_services`
/// services, in the order they are taken.
pub fn init_steps(n_services: usize, has_bfcfg_template: bool) -> (r: Vec<InitStep>)
    requires
        2 * n_services + 4 <= usize::MAX,
    ensures
        r@.len() == init_step_count(n_services as nat, has_bfcfg_template),
        forall|k: int| 0 <= k < r@.len() ==> #[trigger] r@[k] == init_step_at(n_services as nat, k),
{
    let mut r: Vec<InitStep> = Vec::new();
    r.push(InitStep::CreateBfb);
    r.push(InitStep::CreateFlavor);
    let mut i: usize = 0;
    while i < n_services
        invariant
            i <= n_services,
            2 * n_services + 4 <= usize::MAX,
            r@.len() == 2 + 2 * i,
            forall|k: int| 0 <= k < r@.len() ==> #[trigger] r@[k] == init_step_at(n_services as nat, k),
        decreases n_services - i,
    {
        r.push(InitStep::ApplyServiceTemplate(i));
        r.push(InitStep::ApplyServiceConfiguration(i));
        proof {
            let t = 2 + 2 * i;
            assert((t - 2) % 2 == 0 && (t - 2) / 2 == i) by (nonlinear_arith)
                requires t == 2 + 2 * i;
            assert((t + 1 - 2) % 2 == 1 && (t + 1 - 2) / 2 == i) by (nonlinear_arith)
                requires t == 2 + 2 * i;
        }
        i = i + 1;
    }
    r.push(InitStep::ApplyDeployment);
    if has_bfcfg_template {
        r.push(InitStep::ApplyBfCfgTemplate);
    }
    r
}

/// What the creation of the initialization objects does next.
pub enum InitAction {
    /// Take this step.
    Perform(InitStep),
    /// The creation is over, with this result.
    Finish(Result<(), DpfError>),
}

/// The first action: the first step, if there is one.
pub fn init_first(steps: &Vec<InitStep>) -> (r: InitAction)
    ensures
        steps@.len() > 0 ==> r == InitAction::Perform(steps@[0]),
        steps@.len() == 0 ==> r == InitAction::Finish(Ok::<(), DpfError>(())),
{
    if steps.len() > 0 {
        InitAction::Perform(steps[0])
    } else {
        InitAction::Finish(Ok(()))
    }
}

/// The action after step `done` of `steps` was taken with `outcome`: the
/// steps run in order and stop at the first error, which is the result;
/// after the last step succeeds the result is success.
pub fn init_next(steps: &Vec<InitStep>, done: usize, outcome: Result<(), DpfError>) -> (r: InitAction)
    requires
        done < steps@.len(),
    ensures
        outcome is Err ==> r == InitAction::Finish(outcome),
        outcome is Ok && done + 1 < steps@.len() ==> r == InitAction::Perform(steps@[done + 1]),
        outcome is Ok && done + 1 == steps@.len() ==> r == InitAction::Finish(Ok::<(), DpfError>(())),
{
    match outcome {
        Err(e) => InitAction::Finish(Err(e)),
        Ok(()) => {
            if done < steps.len() - 1 {
                InitAction::Perform(steps[done + 1])
            } else {
                InitAction::Finish(Ok(()))
            }
        },
    }
}

/// The DPUServiceConfiguration to apply for one service.
pub struct ServiceConfigurationPlan {
    /// Name of the configuration and of the service it deploys.
    pub name: String,
    /// The service's interfaces; `None` when it has none.
    pub interfaces: Option<Vec<ServiceInterface>>,
    /// The config ports with their service type; only when both are given.
    pub config_ports: Option<(Vec<ServiceConfigPort>, ConfigPortsServiceType)>,
    /// Whether the configuration carries helm chart values (the service's
    /// configuration values, when they form a JSON object).
    pub helm_chart_values: bool,
    /// Annotations of the service DaemonSet, when given.
    pub daemon_set_annotations: Option<LabelMap>,
    /// Whether the configuration has a serviceConfiguration section: it has
    /// one exactly when it has config ports, helm values or DaemonSet annotations.
    pub has_service_configuration: bool,
}

/// The DPUServiceConfiguration for service `svc`.
pub fn service_configuration_plan(svc: ServiceDefinition) -> (p: ServiceConfigurationPlan)
    ensures
        p.name@ == svc.name@,
        svc.interfaces@.len() == 0 ==> p.interfaces is None,
        svc.interfaces@.len() != 0 ==> p.interfaces == Some(svc.interfaces),
        (svc.config_ports is Some && svc.config_ports_service_type is Some) ==> p.config_ports
            == Some((svc.config_ports->Some_0, svc.config_ports_service_type->Some_0)),
        !(svc.config_ports is Some && svc.config_ports_service_type is Some) ==> p.config_ports is None,
        p.helm_chart_values == (svc.config_values matches Some(v) && is_json_object(v)),
        p.daemon_set_annotations == svc.service_daemon_set_annotations,
        p.has_service_configuration == (p.config_ports is Some || p.helm_chart_values
            || p.daemon_set_annotations is Some),
{
    let helm_chart_values = match &svc.config_values {
        Some(v) => json_is_object(v),
        None => false,
    };
    let interfaces = if svc.interfaces.len() == 0 { None } else { Some(svc.interfaces) };
    let config_ports = match (svc.config_ports, svc.config_ports_service_type) {
        (Some(ports), Some(st)) => Some((ports, st)),
        _ => None,
    };
    let daemon_set_annotations = svc.service_daemon_set_annotations;
    let has = config_ports.is_some() || helm_chart_values || daemon_set_annotations.is_some();
    ServiceConfigurationPlan {
        name: svc.name,
        interfaces,
        config_ports,
        helm_chart_values,
        daemon_set_annotations,
        has_service_configuration: has,
    }
}

/// One switch of the deployment's service chain: the physical interface
/// (matched by its `interface` label) connected to a service's interface.
pub struct ChainSwitchPlan {
    pub physical_interface: String,
    pub service_name: String,
    pub service_interface: String,
}

/// The DPUDeployment that ties the services, the BFB and the flavor together.
pub struct DeploymentPlan {
    pub name: String,
    pub namespace: String,
    pub bfb: String,
    pub flavor: String,
    /// Name suffix of the single DPU set.
    pub dpu_set_name_suffix: String,
    /// Node selector of the DPU set.
    pub node_selector: LabelMap,
    /// The deployment's services, by name, each naming its template and
    /// configuration (which carry the service's name).
    pub services: LabelMap,
    /// All service chain switches, service by service, in order.
    pub switches: Vec<ChainSwitchPlan>,
    /// Whether the deployment has a service chain section: exactly when there are switches.
    pub has_service_chains: bool,
    /// The node effect holds the node until released.
    pub node_effect_hold: bool,
    /// The node effect does not force.
    pub node_effect_force: bool,
}

/// The chain switches of the services, service by service.
pub open spec fn switches_of(svcs: Seq<ServiceDefinition>) -> Seq<(Seq<char>, Seq<char>, Seq<char>)>
    decreases svcs.len(),
{
    if svcs.len() == 0 {
        Seq::empty()
    } else {
        switches_of(svcs.drop_last()) + svcs.last().service_chain_switches@.map_values(
            |c: ServiceChainSwitch| (c.physical_interface@, c.service_name@, c.service_interface@),
        )
    }
}

/// The services of the deployment: each service name mapped to itself.
pub open spec fn services_map(svcs: Seq<ServiceDefinition>) -> Map<Seq<char>, Seq<char>>
    decreases svcs.len(),
{
    if svcs.len() == 0 {
        Map::empty()
    } else {
        services_map(svcs.drop_last()).insert(svcs.last().name@, svcs.last().name@)
    }
}

/// The view of a chain switch.
pub open spec fn switch_view(c: ChainSwitchPlan) -> (Seq<char>, Seq<char>, Seq<char>) {
    (c.physical_interface@, c.service_name@, c.service_interface@)
}

/// The DPUDeployment for `services`, referencing the BFB `bfb_name` and the
/// flavor `flavor_name`, on the nodes selected by the labeler's node labels.
pub fn deployment_plan(
    namespace: &str,
    deployment_name: &str,
    flavor_name: &str,
    bfb_name: &str,
    services: &Vec<ServiceDefinition>,
    node_labels: &LabelMap,
) -> (p: DeploymentPlan)
    ensures
        p.name@ == deployment_name@,
        p.namespace@ == namespace@,
        p.bfb@ == bfb_name@,
        p.flavor@ == flavor_name@,
        p.dpu_set_name_suffix@ == "default"@,
        p.node_selector@ == map![DPU_ENABLED_LABEL@ => "true"@].union_prefer_right(node_labels@),
        p.services@ == services_map(services@),
        p.switches@.map_values(|c: ChainSwitchPlan| switch_view(c)) == switches_of(services@),
        p.has_service_chains == (switches_of(services@).len() != 0),
        p.node_effect_hold,
        !p.node_effect_force,
{
    let mut names = LabelMap::new();
    let mut switches: Vec<ChainSwitchPlan> = Vec::new();
    let mut i: usize = 0;
    while i < services.len()
        invariant
            i <= services@.len(),
            names@ == services_map(services@.take(i as int)),
            switches@.map_values(|c: ChainSwitchPlan| switch_view(c)) == switches_of(services@.take(i as int)),
        decreases services.len() - i,
    {
        let svc = &services[i];
        names.insert(svc.name.clone(), svc.name.clone());
        let ghost before = switches@.map_values(|c: ChainSwitchPlan| switch_view(c));
        let mut j: usize = 0;
        while j < svc.service_chain_switches.len()
            invariant
                j <= svc.service_chain_switches@.len(),
                switches@.map_values(|c: ChainSwitchPlan| switch_view(c)) == before
                    + svc.service_chain_switches@.take(j as int).map_values(
                    |c: ServiceChainSwitch| (c.physical_interface@, c.service_name@, c.service_interface@),
                ),
            decreases svc.service_chain_switches.len() - j,
        {
            let c = &svc.service_chain_switches[j];
            let ghost prev = switches@;
            switches.push(ChainSwitchPlan {
                physical_interface: c.physical_interface.clone(),
                service_name: c.service_name.clone(),
                service_interface: c.service_interface.clone(),
            });
            proof {
                assert(svc.service_chain_switches@.take(j + 1) =~= svc.service_chain_switches@.take(j as int).push(*c));
                assert(switches@ =~= prev.push(switches@.last()));
                assert(switch_view(switches@.last()) == (c.physical_interface@, c.service_name@, c.service_interface@));
                assert(switches@.map_values(|c: ChainSwitchPlan| switch_view(c)) =~= prev.map_values(
                    |c: ChainSwitchPlan| switch_view(c),
                ).push(switch_view(switches@.last())));
                assert(switches@.map_values(|c: ChainSwitchPlan| switch_view(c)) =~= before
                    + svc.service_chain_switches@.take(j + 1).map_values(
                    |c: ServiceChainSwitch| (c.physical_interface@, c.service_name@, c.service_interface@),
                ));
            }
            j = j + 1;
        }
        proof {
            assert(svc.service_chain_switches@.take(svc.service_chain_switches@.len() as int) =~= svc.service_chain_switches@);
            assert(services@.take(i + 1).drop_last() =~= services@.take(i as int));
            assert(services@.take(i + 1).last() == *svc);
        }
        i = i + 1;
    }
    proof {
        assert(services@.take(services@.len() as int) =~= services@);
    }
    let has_chains = switches.len() != 0;
    DeploymentPlan {
        name: String::from_str(deployment_name),
        namespace: String::from_str(namespace),
        bfb: String::from_str(bfb_name),
        flavor: String::from_str(flavor_name),
        dpu_set_name_suffix: String::from_str("default"),
        node_selector: deployment_node_selector(node_labels),
        services: names,
        switches,
        has_service_chains: has_chains,
        node_effect_hold: true,
        node_effect_force: false,
    }
}

/// The services that initialization deploys: those configured, or the
/// default services when none are configured.
pub fn services_to_apply(configured: Vec<ServiceDefinition>, defaults: Vec<ServiceDefinition>) -> (r: Vec<
    ServiceDefinition,
>)
    ensures
        configured@.len() == 0 ==> r@ == defaults@,
        configured@.len() > 0 ==> r@ == configured@,
{
    if configured.len() == 0 {
        defaults
    } else {
        configured
    }
}

} // verus!
