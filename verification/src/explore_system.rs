//! Choices made while exploring a BMC's computer systems and chassis:
//! which system to explore, what to fetch for it, and which chassis hold
//! the PCIe devices worth reporting.

use vstd::prelude::*;
use crate::bmc_attrs::{ExploreError, ExploreErrorView, HwType, not_provided};
use crate::setup_status::MachineSetupStatus;
use crate::machine_setup::{MachineSetupDiff, diffs_view, make_diff};
use crate::health_metrics::{to_lowercase, unicode_lowercase};
use crate::text::{chars_of, contains_seq, extend_str, starts_with, str_contains, str_eq, string_of, is_prefix};

verus! {

/// What to fetch for the explored computer system.
#[derive(Clone, Copy, Debug, PartialEq, Eq, Structural)]
pub struct Config {
    /// Fetch the NVIDIA BlueField extension of the system.
    pub need_oem_nvidia_bluefield: bool,
}

/// What to fetch for the system with id `system_id`: the BlueField
/// extension only for the system named `Bluefield`.
pub fn system_config(system_id: &str) -> (c: Config)
    ensures
        c.need_oem_nvidia_bluefield == (system_id@ == "Bluefield"@),
{
    Config { need_oem_nvidia_bluefield: str_eq(system_id, "Bluefield") }
}

/// Picks the system to explore; there must be at least one.
pub fn choose_system(has_bios: &Vec<bool>) -> (r: Result<usize, ExploreError>)
    ensures
        has_bios@.len() == 0 ==> (r matches Err(e) && e@ == ExploreErrorView::BmcNotProvided(
            "at least one computer system"@,
        )),
        has_bios@.len() > 0 ==> (r matches Ok(i) && i < has_bios@.len() && (i == 0 ==> forall|j: int|
            1 <= j < has_bios@.len() ==> !has_bios@[j]) && (i > 0 ==> has_bios@[i as int] && forall|j: int|
            1 <= j < i ==> !has_bios@[j])),
{
    if has_bios.len() == 0 {
        return Err(not_provided("at least one computer system"));
    }
    let mut i: usize = 1;
    while i < has_bios.len()
        invariant
            1 <= i <= has_bios@.len(),
            forall|j: int| 1 <= j < i ==> !has_bios@[j],
        decreases has_bios.len() - i,
    {
        if has_bios[i] {
            return Ok(i);
        }
        i = i + 1;
    }
    Ok(0)
}

/// Whether chassis `chassis_id` holds the PCIe devices to report for a
/// BMC of family `hw` whose system is `system_id`.
pub open spec fn pcie_chassis_spec(hw: Option<HwType>, chassis_id: Seq<char>, system_id: Seq<char>) -> bool {
    match hw {
        Some(HwType::Viking) => is_prefix("HGX_GPU_SXM"@, chassis_id) || is_prefix("HGX_NVSwitch"@, chassis_id),
        Some(HwType::Ami) | Some(HwType::Dell) | Some(HwType::Hpe) | Some(HwType::Lenovo) | Some(
            HwType::Supermicro,
        ) => chassis_id == system_id,
        Some(HwType::LenovoAmi) => true,
        Some(HwType::LenovoGb300) => is_prefix("HGX_GPU_"@, chassis_id),
        _ => false,
    }
}

/// Whether a chassis holds the PCIe devices to report.
pub fn pcie_chassis(hw: Option<HwType>, chassis_id: &str, system_id: &str) -> (r: bool)
    ensures
        r == pcie_chassis_spec(hw, chassis_id@, system_id@),
{
    match hw {
        Some(HwType::Viking) => starts_with(chassis_id, "HGX_GPU_SXM") || starts_with(chassis_id, "HGX_NVSwitch"),
        Some(HwType::Ami) | Some(HwType::Dell) | Some(HwType::Hpe) | Some(HwType::Lenovo) | Some(
            HwType::Supermicro,
        ) => str_eq(chassis_id, system_id),
        Some(HwType::LenovoAmi) => true,
        Some(HwType::LenovoGb300) => starts_with(chassis_id, "HGX_GPU_"),
        _ => false,
    }
}

/// Whether the network device functions of adapters are fetched: only for
/// Dell BMCs.
pub fn need_network_device_fns(vendor: &Option<String>) -> (r: bool)
    ensures
        r == (match vendor {
            Some(v) => v@ == "Dell"@,
            None => false,
        }),
{
    match vendor {
        Some(v) => str_eq(v.as_str(), "Dell"),
        None => false,
    }
}

/// Whether the assembly serial number of a chassis is taken: for a GB200
/// NVL's `Chassis_0`, to match the inventory system.
pub fn need_assembly_sn(chassis_id: &str, assembly_model: &Option<String>) -> (r: bool)
    ensures
        r == (chassis_id@ == "Chassis_0"@ && match assembly_model {
            Some(m) => m@ == "GB200 NVL"@,
            None => false,
        }),
{
    str_eq(chassis_id, "Chassis_0") && match assembly_model {
        Some(m) => str_eq(m.as_str(), "GB200 NVL"),
        None => false,
    }
}

/// The setup status reported when the hardware family is unknown.
pub fn undetected_platform_status() -> (r: MachineSetupStatus)
    ensures
        !r.is_done,
        diffs_view(r.diffs@) == seq![("platform type"@, "can detect"@, "cannot detect"@)],
{
    let k = chars_of("platform type");
    let e = chars_of("can detect");
    let a = chars_of("cannot detect");
    let mut diffs: Vec<MachineSetupDiff> = Vec::new();
    diffs.push(make_diff(&k, &e, &a));
    assert(diffs_view(diffs@) =~= seq![("platform type"@, "can detect"@, "cannot detect"@)]);
    MachineSetupStatus { is_done: false, diffs }
}

/// Whether any of the interface ids mentions `oob`, in any case.
pub open spec fn any_oob_id(ids: Seq<String>) -> bool {
    exists|i: int| 0 <= i < ids.len() && contains_seq(unicode_lowercase(#[trigger] ids[i]@), "oob"@)
}

/// Whether the explorer crafts a DPU's out-of-band interface from its boot
/// options: the machine is a BlueField and none of the Ethernet interfaces
/// it reported has an id that mentions `oob`, in any case.
pub fn needs_oob_from_boot_options(hw: Option<HwType>, iface_ids: &Vec<String>) -> (r: bool)
    ensures
        r == (hw == Some(HwType::Bluefield) && !any_oob_id(iface_ids@)),
{
    let bluefield = match hw {
        Some(HwType::Bluefield) => true,
        _ => false,
    };
    if !bluefield {
        return false;
    }
    let mut i: usize = 0;
    while i < iface_ids.len()
        invariant
            i <= iface_ids@.len(),
            forall|k: int| 0 <= k < i ==> !contains_seq(unicode_lowercase(#[trigger] iface_ids@[k]@), "oob"@),
        decreases iface_ids.len() - i,
    {
        let lowered = to_lowercase(iface_ids[i].as_str());
        if str_contains(lowered.as_str(), "oob") {
            return false;
        }
        i = i + 1;
    }
    true
}

/// The message for a MAC address text that the parser refused with `err`.
pub open spec fn invalid_mac_text(addr: Seq<char>, err: Seq<char>) -> Seq<char> {
    "MAC address not valid: "@ + addr + " (err: "@ + err + ")"@
}

/// The MAC address recorded for an explored Ethernet interface. `reported`
/// is the MAC text the interface reported, if any, with its parse (the
/// bytes, or the parser's message). A text that does not parse is an
/// invalid value, except on an interface that says it is disabled: such
/// interfaces sometimes report junk, and are recorded with no address.
pub fn interface_mac(reported: Option<(String, Result<[u8; 6], String>)>, interface_enabled: Option<bool>) -> (r: Result<
    Option<[u8; 6]>,
    ExploreError,
>)
    ensures
        reported is None ==> r == Ok::<Option<[u8; 6]>, ExploreError>(None),
        reported matches Some((_, Ok(m))) ==> r == Ok::<Option<[u8; 6]>, ExploreError>(Some(m)),
        reported matches Some((addr, Err(e))) ==> (if interface_enabled == Some(false) {
            r == Ok::<Option<[u8; 6]>, ExploreError>(None)
        } else {
            r matches Err(err) && err@ == ExploreErrorView::InvalidValue(invalid_mac_text(addr@, e@))
        }),
{
    match reported {
        None => Ok(None),
        Some((_, Ok(m))) => Ok(Some(m)),
        Some((addr, Err(e))) => {
            let disabled = match interface_enabled {
                Some(false) => true,
                _ => false,
            };
            if disabled {
                Ok(None)
            } else {
                let mut v: Vec<char> = Vec::new();
                extend_str(&mut v, "MAC address not valid: ");
                extend_str(&mut v, addr.as_str());
                extend_str(&mut v, " (err: ");
                extend_str(&mut v, e.as_str());
                extend_str(&mut v, ")");
                Err(ExploreError::InvalidValue(string_of(&v)))
            }
        },
    }
}

} // verus!
