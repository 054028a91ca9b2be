//! Plain descriptions of what a mocked BMC serves for its managers and
//! computer systems: Ethernet interfaces, managers, boot options and
//! systems. Each mocked machine builds these; the Redfish service renders them.

use vstd::prelude::*;
use crate::bmc_attrs::AttrValue;
use crate::bmc_boards::opt_is;
use crate::bmc_redfish::Resource;

verus! {

/// An Ethernet interface of a mocked manager or system.
#[derive(Clone, Debug)]
pub struct EthInterfacePlan {
    pub id: String,
    pub mac_address: [u8; 6],
    pub description: Option<String>,
    /// Whether the interface says it is enabled; `None` when it does not say.
    pub interface_enabled: Option<bool>,
}

/// A BMC manager of a mocked system.
#[derive(Clone, Debug)]
pub struct ManagerPlan {
    pub id: String,
    /// Ethernet interfaces of the manager.
    pub eth_interfaces: Option<Vec<EthInterfacePlan>>,
    /// Host interfaces of the manager, each with whether it is enabled.
    pub host_interfaces: Option<Vec<(Resource, bool)>>,
    pub firmware_version: Option<String>,
    /// Whether the manager carries Dell's OEM extension.
    pub dell_oem: bool,
}

/// An interface with the given id and MAC address that says it is
/// enabled, and has no description.
pub open spec fn enabled_eth(e: EthInterfacePlan, id: Seq<char>, mac: Seq<u8>) -> bool {
    &&& e.id@ == id
    &&& e.mac_address@ == mac
    &&& e.description is None
    &&& e.interface_enabled == Some(true)
}

/// The enabled manager interface `id` with MAC address `mac`.
pub fn enabled_eth_plan(id: &str, mac: [u8; 6]) -> (e: EthInterfacePlan)
    ensures
        enabled_eth(e, id@, mac@),
{
    EthInterfacePlan { id: String::from_str(id), mac_address: mac, description: None, interface_enabled: Some(true) }
}

/// What a boot option boots from.
#[derive(Clone, Copy, Debug, PartialEq, Eq, Structural)]
pub enum BootOptionKind {
    Disk,
    Network,
}

/// A boot option of a mocked system.
#[derive(Clone, Debug)]
pub struct BootOptionPlan {
    /// Id of the boot option resource.
    pub id: String,
    /// The reference the boot order lists it by.
    pub reference: String,
    /// What it boots from, when the system says.
    pub kind: Option<BootOptionKind>,
    pub display_name: String,
    pub alias: Option<String>,
    pub uefi_device_path: Option<String>,
    /// The `@odata.etag` the resource carries, when it has one.
    pub odata_etag: Option<String>,
}

/// A boot option with the given fields, no alias and no entity tag.
pub open spec fn plain_boot_option(
    o: BootOptionPlan,
    id: Seq<char>,
    reference: Seq<char>,
    kind: Option<BootOptionKind>,
    display_name: Seq<char>,
    path: Option<Seq<char>>,
) -> bool {
    &&& o.id@ == id
    &&& o.reference@ == reference
    &&& o.kind == kind
    &&& o.display_name@ == display_name
    &&& o.alias is None
    &&& o.odata_etag is None
    &&& match path {
        Some(p) => opt_is(o.uefi_device_path, p),
        None => o.uefi_device_path is None,
    }
}

/// How a mocked system takes changes of its boot order.
#[derive(Clone, Copy, Debug, PartialEq, Eq, Structural)]
pub enum BootOrderMode {
    Generic,
    /// Through pending BIOS settings.
    ViaSettings,
    /// Through Dell's OEM interface.
    DellOem,
}

/// How a mocked system serves its BIOS settings.
#[derive(Clone, Copy, Debug, PartialEq, Eq, Structural)]
pub enum BiosMode {
    Generic,
    DellOem,
}

/// The OEM extension of a mocked system.
#[derive(Clone, Copy, Debug, PartialEq, Eq, Structural)]
pub enum SystemOem {
    Generic,
    NvidiaBluefield,
}

/// A computer system of a mocked machine.
#[derive(Clone, Debug)]
pub struct SystemPlan {
    pub id: String,
    pub manufacturer: Option<String>,
    pub model: Option<String>,
    pub serial_number: Option<String>,
    pub eth_interfaces: Option<Vec<EthInterfacePlan>>,
    /// Ids of the chassis the system is in.
    pub chassis: Vec<String>,
    pub boot_options: Option<Vec<BootOptionPlan>>,
    /// Attributes of the system's BIOS resource, when it has one.
    pub bios_attributes: Option<Vec<(String, AttrValue)>>,
    /// The `@odata.context` the BIOS resource carries, when it has one.
    pub bios_odata_context: Option<String>,
    pub boot_order_mode: BootOrderMode,
    pub bios_mode: BiosMode,
    pub oem: SystemOem,
    /// Whether the caller's power and boot callbacks drive this system.
    pub controlled: bool,
    /// Entries of the system's event log, when it serves log services.
    pub event_log: Option<Vec<String>>,
    /// Whether the system serves a (empty) storage collection.
    pub storage_listed: bool,
    pub secure_boot_available: bool,
}

/// A BIOS attribute entry with a text value.
pub fn text_attr(key: &str, value: &str) -> (r: (String, AttrValue))
    ensures
        r.0@ == key@,
        r.1 matches AttrValue::Str(s) && s@ == value@,
{
    (String::from_str(key), AttrValue::Str(String::from_str(value)))
}

/// A BIOS attribute entry with a boolean value.
pub fn bool_attr(key: &str, value: bool) -> (r: (String, AttrValue))
    ensures
        r.0@ == key@,
        r.1 == AttrValue::Bool(value),
{
    (String::from_str(key), AttrValue::Bool(value))
}

/// A BIOS attribute entry with an integer value.
pub fn int_attr(key: &str, value: i64) -> (r: (String, AttrValue))
    ensures
        r.0@ == key@,
        r.1 == AttrValue::Int(value),
{
    (String::from_str(key), AttrValue::Int(value))
}

/// Whether an attribute entry is `key` with the text value `value`.
pub open spec fn attr_is_text(a: (String, AttrValue), key: Seq<char>, value: Seq<char>) -> bool {
    a.0@ == key && (a.1 matches AttrValue::Str(s) && s@ == value)
}

} // verus!
