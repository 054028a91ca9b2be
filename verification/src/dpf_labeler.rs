//! Caller-supplied labels for DPF resources.

use vstd::prelude::*;
use crate::dpf_types::{DpuDeviceInfo, DpuNodeInfo};
use crate::label_map::LabelMap;

verus! {

/// Provides custom labels for DPF resources: implement it to attach
/// caller-specific labels to DPUDevice and DPUNode resources. Every
/// method has a default that gives no labels.
pub trait ResourceLabeler {
    /// Labels to apply to a DPUDevice on creation.
    fn device_labels(&self, info: &DpuDeviceInfo) -> (r: LabelMap) {
        LabelMap::new()
    }

    /// Static labels of every DPUNode; also the deployment's node selector,
    /// and the labels removed when a node is deleted.
    fn node_labels(&self) -> (r: LabelMap) {
        LabelMap::new()
    }

    /// Labels applied to a DPUNode on creation only, carrying
    /// per-registration data.
    fn node_context_labels(&self, info: &DpuNodeInfo) -> (r: LabelMap) {
        LabelMap::new()
    }

    /// A label selector that scopes DPU watches and listings; by default
    /// there is none, and watches and listings see every DPU.
    fn dpu_label_selector(&self) -> (r: Option<String>)
        default_ensures
            r is None,
    {
        None
    }
}

/// The labeler that applies no labels.
pub struct NoLabels;

impl ResourceLabeler for NoLabels {

}

} // verus!
