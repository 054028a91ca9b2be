//! Decisions of the DPF SDK: what resources to create for a device or a
//! node, how to answer when they already exist, and how to read back node
//! labels, reboot requests and DPU phases. The Kubernetes calls themselves
//! are made by the caller, which hands their outcomes to these functions.

use vstd::prelude::*;
use crate::dpf_naming::{
    device_cr_name, dpu_cr_name, dpu_device_cr_name, dpu_node_cr_name, node_cr_name, dpu_name,
    node_id_from_dpu_node_cr_name, node_id_of,
};
use crate::dpf_types::{
    DpfError, DpuDeviceInfo, DpuNodeInfo, DpuPhase, DpuStatusPhase, phase_of_status,
};
use crate::label_map::LabelMap;
use crate::text::lemma_lt_irreflexive;

verus! {

/// Annotation the operator sets on a DPUNode when the host must be rebooted.
pub const RESTART_ANNOTATION: &'static str = "provisioning.dpu.nvidia.com/dpunode-external-reboot-required";

/// Annotation on a DpuNodeMaintenance that holds the node effect.
pub const HOLD_ANNOTATION: &'static str = "provisioning.dpu.nvidia.com/wait-for-external-nodeeffect";

/// Name of the shared BMC password secret.
pub const SECRET_NAME: &'static str = "bmc-shared-password";

/// Label that every DPU-enabled node carries.
pub const DPU_ENABLED_LABEL: &'static str = "feature.node.kubernetes.io/dpu-enabled";

/// What the Kubernetes API answered to a create request.
pub enum CreateOutcome {
    /// The resource was created.
    Created,
    /// A resource of that name already exists (or the create conflicted).
    AlreadyExists,
    /// The request failed otherwise.
    Failed(DpfError),
}

/// The DPUDevice resource to create for a device.
pub struct DpuDevicePlan {
    pub name: String,
    pub namespace: String,
    /// Labels of the resource; `None` when the labeler gives none.
    pub labels: Option<LabelMap>,
    pub bmc_ip: String,
    pub bmc_port: i64,
    pub number_of_pfs: i64,
    pub serial_number: String,
}

/// `Some(labels)`, or `None` for an empty map.
pub fn labels_or_none(labels: LabelMap) -> (r: Option<LabelMap>)
    ensures
        labels@.len() == 0 ==> r is None,
        labels@.len() != 0 ==> (r matches Some(l) && l@ == labels@),
{
    if labels.is_empty() {
        None
    } else {
        Some(labels)
    }
}

/// The DPUDevice to create for `info` in `namespace`, labelled with the
/// labels the caller's labeler gives for the device.
pub fn dpu_device_plan(namespace: &str, info: DpuDeviceInfo, device_labels: LabelMap) -> (p: DpuDevicePlan)
    ensures
        p.name@ == device_cr_name(info.device_id@),
        p.namespace@ == namespace@,
        device_labels@.len() == 0 ==> p.labels is None,
        device_labels@.len() != 0 ==> (p.labels matches Some(l) && l@ == device_labels@),
        p.bmc_ip@ == info.dpu_bmc_ip@,
        p.bmc_port == 443,
        p.number_of_pfs == 1,
        p.serial_number@ == info.serial_number@,
{
    DpuDevicePlan {
        name: dpu_device_cr_name(info.device_id.as_str()),
        namespace: String::from_str(namespace),
        labels: labels_or_none(device_labels),
        bmc_ip: info.dpu_bmc_ip,
        bmc_port: 443,
        number_of_pfs: 1,
        serial_number: info.serial_number,
    }
}

/// The DPUNode resource to create for a node.
pub struct DpuNodePlan {
    pub name: String,
    pub namespace: String,
    /// Labels of the resource; `None` when there are none.
    pub labels: Option<LabelMap>,
    /// DPUDevice names of the node's DPUs, in the order given.
    pub dpus: Vec<String>,
    /// Whether the node is rebooted by an external agent (the caller), not
    /// by the operator.
    pub external_reboot: bool,
}

/// The DPUNode to create for `info`: its static node labels merged with the
/// contextual labels for this registration (contextual values win), and one
/// DPU entry per device, named by the device's DPUDevice name.
pub fn dpu_node_plan(namespace: &str, info: DpuNodeInfo, node_labels: LabelMap, context_labels: &LabelMap) -> (p: DpuNodePlan)
    ensures
        p.name@ == node_cr_name(info.node_id@),
        p.namespace@ == namespace@,
        node_labels@.union_prefer_right(context_labels@).len() == 0 ==> p.labels is None,
        node_labels@.union_prefer_right(context_labels@).len() != 0 ==> (p.labels matches Some(l)
            && l@ == node_labels@.union_prefer_right(context_labels@)),
        p.dpus@.len() == info.device_ids@.len(),
        forall|i: int| 0 <= i < p.dpus@.len() ==> #[trigger] p.dpus@[i]@ == device_cr_name(info.device_ids@[i]@),
        p.external_reboot,
{
    let mut labels = node_labels;
    labels.extend(context_labels);
    let mut dpus: Vec<String> = Vec::new();
    let mut i: usize = 0;
    while i < info.device_ids.len()
        invariant
            i <= info.device_ids@.len(),
            dpus@.len() == i,
            forall|j: int| 0 <= j < i ==> #[trigger] dpus@[j]@ == device_cr_name(info.device_ids@[j]@),
        decreases info.device_ids.len() - i,
    {
        dpus.push(dpu_device_cr_name(info.device_ids[i].as_str()));
        i = i + 1;
    }
    DpuNodePlan {
        name: dpu_node_cr_name(info.node_id.as_str()),
        namespace: String::from_str(namespace),
        labels: labels_or_none(labels),
        dpus,
        external_reboot: true,
    }
}

/// The message of the error for a resource found being deleted.
pub open spec fn being_deleted_text(kind: Seq<char>, name: Seq<char>, verb: Seq<char>) -> Seq<char> {
    kind + " "@ + name + " is being deleted (has deletionTimestamp); cannot "@ + verb
        + " until the old resource is fully removed"@
}

/// Builds the message of the error for a resource found being deleted.
pub fn being_deleted_message(kind: &str, name: &str, verb: &str) -> (r: String)
    ensures
        r@ == being_deleted_text(kind@, name@, verb@),
{
    let mut s = String::from_str(kind);
    s.append(" ");
    s.append(name);
    s.append(" is being deleted (has deletionTimestamp); cannot ");
    s.append(verb);
    s.append(" until the old resource is fully removed");
    s
}

/// How a registration ends when the create request found the resource
/// already present: `existing` is the lookup of that resource, giving
/// whether it carries a deletion timestamp. A lookup error is returned as
/// is; a resource being deleted is an invalid state; otherwise the
/// registration has succeeded (another caller created it).
pub fn existing_resource_outcome(kind: &str, name: &str, verb: &str, existing: Result<Option<bool>, DpfError>) -> (r: Result<(), DpfError>)
    ensures
        existing is Err ==> r == Err::<(), DpfError>(existing->Err_0),
        existing == Ok::<Option<bool>, DpfError>(Some(true)) ==> (r matches Err(DpfError::InvalidState(m))
            && m@ == being_deleted_text(kind@, name@, verb@)),
        existing matches Ok(e) && e != Some(true) ==> r is Ok,
{
    match existing {
        Err(e) => Err(e),
        Ok(Some(true)) => Err(DpfError::InvalidState(being_deleted_message(kind, name, verb))),
        Ok(_) => Ok(()),
    }
}

/// What node registration does after its create request found the node
/// already present.
pub enum NodeRegistrationStep {
    /// Registration ends with this result.
    Finish(Result<(), DpfError>),
    /// The node exists and is not being deleted: registration updates it
    /// so that its labels and DPUs are those of the node plan, and ends
    /// with the result of that update.
    UpdateExisting,
}

/// The next step of node registration named `name` once the create request
/// found the node present: `existing` is the lookup of the node, giving
/// whether it carries a deletion timestamp. A lookup error ends the
/// registration with it; a node being deleted is an invalid state; a node
/// that exists otherwise is updated with the new configuration; a node
/// that has gone since the create request leaves nothing to do.
pub fn node_registration_step(name: &str, existing: Result<Option<bool>, DpfError>) -> (r: NodeRegistrationStep)
    ensures
        existing is Err ==> r == NodeRegistrationStep::Finish(Err::<(), DpfError>(existing->Err_0)),
        existing == Ok::<Option<bool>, DpfError>(Some(true)) ==> (r matches NodeRegistrationStep::Finish(
            Err(DpfError::InvalidState(m)),
        ) && m@ == being_deleted_text("DPUNode"@, name@, "re-register"@)),
        existing == Ok::<Option<bool>, DpfError>(Some(false)) ==> r is UpdateExisting,
        existing == Ok::<Option<bool>, DpfError>(None) ==> (r matches NodeRegistrationStep::Finish(res) && res is Ok),
{
    match existing {
        Err(e) => NodeRegistrationStep::Finish(Err(e)),
        Ok(Some(true)) => NodeRegistrationStep::Finish(
            Err(DpfError::InvalidState(being_deleted_message("DPUNode", name, "re-register"))),
        ),
        Ok(Some(false)) => NodeRegistrationStep::UpdateExisting,
        Ok(None) => NodeRegistrationStep::Finish(Ok(())),
    }
}

/// Whether a registration must look up the existing resource after the
/// create request: only when the resource already existed.
pub fn needs_existing_lookup(create: &CreateOutcome) -> (r: bool)
    ensures
        r == (create is AlreadyExists),
{
    match create {
        CreateOutcome::AlreadyExists => true,
        _ => false,
    }
}

/// How a registration ends after the create request, when no lookup is
/// needed: a created resource is success, a failed request its error.
pub fn created_outcome(create: CreateOutcome) -> (r: Result<(), DpfError>)
    requires
        !(create is AlreadyExists),
    ensures
        create is Created ==> r is Ok,
        create matches CreateOutcome::Failed(e) ==> r == Err::<(), DpfError>(e),
{
    match create {
        CreateOutcome::Failed(e) => Err(e),
        _ => Ok(()),
    }
}

/// The BFB name to use after the create request: the name on success or
/// when the BFB already exists (it is reused), the error otherwise.
pub fn bfb_outcome(bfb_name: String, create: CreateOutcome) -> (r: Result<String, DpfError>)
    ensures
        !(create is Failed) ==> (r matches Ok(n) && n@ == bfb_name@),
        create matches CreateOutcome::Failed(e) ==> r == Err::<String, DpfError>(e),
{
    match create {
        CreateOutcome::Failed(e) => Err(e),
        _ => Ok(bfb_name),
    }
}

/// Whether a DPUNode's labels are current: `node` is the lookup of the node
/// (`None` when it does not exist) with its labels, if it has any. A node
/// that does not exist yet is current (it will be created with the current
/// labels); otherwise every required label must be present with the
/// required value.
pub fn node_labels_current(node: Option<Option<&LabelMap>>, required: &LabelMap) -> (r: bool)
    ensures
        node is None ==> r,
        node == Option::<Option<&LabelMap>>::Some(None) ==> r == (required@.len() == 0),
        node matches Some(Some(l)) ==> r == crate::label_map::includes_all(l@, required@),
{
    match node {
        None => true,
        Some(None) => required.is_empty(),
        Some(Some(labels)) => labels.contains_all(required),
    }
}

/// Whether the host of a DPUNode must be rebooted: `node` is the lookup of
/// the node with its annotations, if it has any. A missing node is an error.
pub fn reboot_required_outcome(node_name: &str, node: Option<Option<&LabelMap>>) -> (r: Result<bool, DpfError>)
    ensures
        node is None ==> (r matches Err(DpfError::NotFound { kind: k, name: n }) && k@ == "DPUNode"@
            && n@ == node_name@),
        node == Option::<Option<&LabelMap>>::Some(None) ==> r == Ok::<bool, DpfError>(false),
        node matches Some(Some(a)) ==> r == Ok::<bool, DpfError>(a@.contains_key(RESTART_ANNOTATION@)),
{
    match node {
        None => Err(DpfError::not_found("DPUNode", node_name)),
        Some(None) => Ok(false),
        Some(Some(annotations)) => Ok(annotations.contains_key(RESTART_ANNOTATION)),
    }
}

/// The DPU resource name for a device on the node named `node_name`.
pub fn dpu_cr_name_for_node(dpu_device_name: &str, node_name: &str) -> (r: String)
    ensures
        r@ == dpu_name(dpu_device_name@, node_id_of(node_name@)),
{
    let dpf_id = node_id_from_dpu_node_cr_name(node_name);
    dpu_cr_name(dpu_device_name, dpf_id)
}

/// The phase of a DPU from the lookup of its resource: `dpu` is `None` when
/// the DPU does not exist, and holds its status phase when it has a status.
pub fn dpu_phase_outcome(cr_name: &str, dpu: Option<Option<DpuStatusPhase>>) -> (r: Result<DpuPhase, DpfError>)
    ensures
        dpu is None ==> (r matches Err(DpfError::NotFound { kind: k, name: n }) && k@ == "DPU"@ && n@ == cr_name@),
        dpu == Option::<Option<DpuStatusPhase>>::Some(None) ==> (r matches Err(DpfError::InvalidState(m))
            && m@ == "DPU "@ + cr_name@ + " has no status"@),
        dpu matches Some(Some(p)) ==> (r matches Ok(ph) && ph@ == phase_of_status(p)),
{
    match dpu {
        None => Err(DpfError::not_found("DPU", cr_name)),
        Some(None) => {
            let mut m = String::from_str("DPU ");
            m.append(cr_name);
            m.append(" has no status");
            Err(DpfError::InvalidState(m))
        },
        Some(Some(p)) => Ok(DpuPhase::from(p)),
    }
}

/// Name of the DpuNodeMaintenance that holds the node effect of `node_name`.
pub fn maintenance_hold_name(node_name: &str) -> (r: String)
    ensures
        r@ == node_name@ + "-hold"@,
{
    let mut s = String::from_str(node_name);
    s.append("-hold");
    s
}

/// One step of deleting a DPUNode.
pub enum NodeDeletionStep {
    /// Patch the node so that each of these label keys is removed.
    RemoveLabels(Vec<String>),
    /// Delete the node.
    Delete,
}

/// Whether `keys` lists each key of `labels` once, and nothing else.
pub open spec fn keys_of(keys: Seq<String>, labels: Map<Seq<char>, Seq<char>>) -> bool {
    &&& forall|k: Seq<char>| labels.contains_key(k) <==> exists|i: int| 0 <= i < keys.len() && keys[i]@ == k
    &&& forall|i: int, j: int| 0 <= i < j < keys.len() ==> keys[i]@ != keys[j]@
}

/// The steps of deleting a DPUNode, in order: first a patch that removes
/// every label key the labeler puts on nodes, then the deletion itself.
pub fn node_deletion_steps(node_labels: &LabelMap) -> (r: Vec<NodeDeletionStep>)
    ensures
        r@.len() == 2,
        r@[0] matches NodeDeletionStep::RemoveLabels(keys) && keys_of(keys@, node_labels@),
        r@[1] is Delete,
{
    let keys = node_labels.keys();
    proof {
        assert forall|i: int, j: int| 0 <= i < j < keys@.len() implies keys@[i]@ != keys@[j]@ by {
            lemma_lt_irreflexive(keys@[i]@);
        }
    }
    let ghost gk = keys;
    let mut r: Vec<NodeDeletionStep> = Vec::new();
    r.push(NodeDeletionStep::RemoveLabels(keys));
    r.push(NodeDeletionStep::Delete);
    assert(r@[0] == NodeDeletionStep::RemoveLabels(gk));
    assert(keys_of(gk@, node_labels@));
    r
}

/// How deleting a DPUNode ends: with the result of the deletion; a failed
/// label removal does not stop it.
pub fn node_deletion_outcome(_label_patch: Result<(), DpfError>, delete: Result<(), DpfError>) -> (r: Result<(), DpfError>)
    ensures
        r == delete,
{
    delete
}

/// How releasing a maintenance hold ends: a missing DpuNodeMaintenance
/// (HTTP 404) means the hold is already released.
pub fn release_hold_outcome(patch: Result<(), DpfError>) -> (r: Result<(), DpfError>)
    ensures
        patch matches Err(DpfError::Api { code: c, message: _ }) && c == 404 ==> r is Ok,
        !(patch matches Err(DpfError::Api { code: c, message: _ }) && c == 404) ==> r == patch,
{
    match patch {
        Err(DpfError::Api { code, message }) => {
            if code == 404 {
                Ok(())
            } else {
                Err(DpfError::Api { code, message })
            }
        },
        other => other,
    }
}

/// The DPUDevice resources a forced host deletion removes: the DPUs listed
/// by the node (already DPUDevice names), then the DPUDevice of each given
/// device id.
pub fn force_delete_device_names(node_dpus: Vec<String>, dpu_device_ids: &Vec<String>) -> (r: Vec<String>)
    ensures
        r@.len() == node_dpus@.len() + dpu_device_ids@.len(),
        forall|i: int| 0 <= i < node_dpus@.len() ==> #[trigger] r@[i] == node_dpus@[i],
        forall|i: int| 0 <= i < dpu_device_ids@.len() ==> #[trigger] r@[node_dpus@.len() + i]@ == device_cr_name(dpu_device_ids@[i]@),
{
    let mut r = node_dpus;
    let ghost n = r@.len();
    let ghost first = r@;
    let mut i: usize = 0;
    while i < dpu_device_ids.len()
        invariant
            i <= dpu_device_ids@.len(),
            r@.len() == n + i,
            n == first.len(),
            forall|j: int| 0 <= j < n ==> #[trigger] r@[j] == first[j],
            forall|j: int| 0 <= j < i ==> #[trigger] r@[n + j]@ == device_cr_name(dpu_device_ids@[j]@),
        decreases dpu_device_ids.len() - i,
    {
        r.push(dpu_device_cr_name(dpu_device_ids[i].as_str()));
        i = i + 1;
    }
    r
}

/// The node selector of the DPU set of the DPUDeployment: every DPU-enabled
/// node, narrowed by the labeler's static node labels.
pub fn deployment_node_selector(node_labels: &LabelMap) -> (r: LabelMap)
    ensures
        r@ == map![DPU_ENABLED_LABEL@ => "true"@].union_prefer_right(node_labels@),
{
    let mut labels = LabelMap::new();
    labels.insert(String::from_str(DPU_ENABLED_LABEL), String::from_str("true"));
    labels.extend(node_labels);
    assert(Map::<Seq<char>, Seq<char>>::empty().insert(DPU_ENABLED_LABEL@, "true"@) =~= map![DPU_ENABLED_LABEL@ => "true"@]);
    labels
}

/// What a periodic BMC password refresh does after reading the provider.
pub enum RefreshStep {
    /// Keep the remembered password; write nothing.
    Keep,
    /// Write this new password to the secret.
    Write(String),
}

/// Decides a BMC password refresh from the password read: a password that
/// differs from the remembered one is written; an unchanged password or a
/// read error leaves everything as it is.
pub fn refresh_step(last_password: &str, fetched: Result<String, DpfError>) -> (r: RefreshStep)
    ensures
        fetched is Ok && fetched->Ok_0@ != last_password@ ==> (r matches RefreshStep::Write(w)
            && w@ == fetched->Ok_0@),
        !(fetched is Ok && fetched->Ok_0@ != last_password@) ==> r is Keep,
{
    match fetched {
        Ok(p) => {
            if crate::text::str_eq(p.as_str(), last_password) {
                RefreshStep::Keep
            } else {
                RefreshStep::Write(p)
            }
        },
        Err(_) => RefreshStep::Keep,
    }
}

/// The password to remember after writing `new_password`: the new one if
/// the write succeeded, the old one otherwise.
pub fn password_after_write(last_password: String, new_password: String, write: Result<(), DpfError>) -> (r: String)
    ensures
        write is Ok ==> r@ == new_password@,
        write is Err ==> r@ == last_password@,
{
    match write {
        Ok(()) => new_password,
        Err(_) => last_password,
    }
}

/// A node registered with the static node labels and contextual labels
/// that agree with them passes the label check against the static
/// labels: the labels it was created with include every required one.
pub proof fn lemma_registered_node_labels_current(
    static_labels: Map<Seq<char>, Seq<char>>,
    context_labels: Map<Seq<char>, Seq<char>>,
)
    requires
        forall|k: Seq<char>|
            static_labels.contains_key(k) && context_labels.contains_key(k) ==> context_labels[k]
                == static_labels[k],
    ensures
        crate::label_map::includes_all(static_labels.union_prefer_right(context_labels), static_labels),
{
}

/// Labels that include the required ones still do after more labels are
/// added with other keys: a superset of the labels passes the check.
pub proof fn lemma_superset_labels_current(
    actual: Map<Seq<char>, Seq<char>>,
    extra: Map<Seq<char>, Seq<char>>,
    required: Map<Seq<char>, Seq<char>>,
)
    requires
        crate::label_map::includes_all(actual, required),
        forall|k: Seq<char>| extra.contains_key(k) ==> !required.contains_key(k),
    ensures
        crate::label_map::includes_all(actual.union_prefer_right(extra), required),
{
    let u = actual.union_prefer_right(extra);
    assert forall|k: Seq<char>| required.contains_key(k) implies u.contains_key(k) && u[k] == required[k] by {
        assert(actual.contains_key(k) && actual[k] == required[k]);
        assert(!extra.contains_key(k));
    }
}

} // verus!
