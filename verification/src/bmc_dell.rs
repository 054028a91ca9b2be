//! The mocked Dell PowerEdge R750 server: its iDRAC manager, its computer
//! system with Dell's OEM boot order and BIOS handling, and its chassis.

use vstd::prelude::*;
use crate::bmc_attrs::AttrValue;
use crate::bmc_boards::{ChassisPlan, ComponentPlan, DeviceFunctionPlan, SensorLayout, layout, opt_is};
use crate::bmc_gb200::{HostNic, chassis_head, clone_opt, nic_fields};
use crate::bmc_plans::{
    BiosMode, BootOptionPlan, BootOrderMode, EthInterfacePlan, ManagerPlan, SystemOem, SystemPlan, attr_is_text,
    enabled_eth, enabled_eth_plan, plain_boot_option, text_attr,
};
use crate::bmc_redfish::{Resource, host_interfaces_path, manager_resource};
use crate::boot_order::{hex4_text, hex_upper, zero_padded};
use crate::text::{decimal, extend_chars, extend_str, push_decimal, string_of};

verus! {

/// The two ports of the server's embedded NIC.
#[derive(Clone, Copy, Debug)]
pub struct EmbeddedNic {
    pub port_1: [u8; 6],
    pub port_2: [u8; 6],
}

/// A Dell PowerEdge R750 server, with the NICs in its PCIe slots.
#[derive(Clone, Debug)]
pub struct DellPowerEdgeR750 {
    pub bmc_mac_address: [u8; 6],
    pub product_serial_number: String,
    /// The NICs in PCIe slots, each with its slot number.
    pub nics: Vec<(u8, HostNic)>,
    pub embedded_nic: EmbeddedNic,
}

/// The id the server gives the system, its chassis and its BIOS.
pub const DELL_SYSTEM_ID: &'static str = "System.Embedded.1";

/// Id of the Ethernet interface of the NIC in slot `slot`.
pub open spec fn slot_eth_id(slot: u8) -> Seq<char> {
    "NIC.Slot."@ + decimal(slot as nat) + "-1"@
}

/// The Ethernet interface of embedded port `port` with MAC `mac`.
pub open spec fn embedded_eth_is(e: EthInterfacePlan, port: nat, mac: [u8; 6]) -> bool {
    &&& e.id@ == "NIC.Embedded."@ + decimal(port) + "-1-1"@
    &&& opt_is(e.description, "Embedded NIC 1 Port "@ + decimal(port) + " Partition 1"@)
    &&& e.mac_address == mac
    &&& e.interface_enabled == Some(true)
}

/// The Ethernet interface of the NIC `nic` in slot `slot`.
pub open spec fn slot_eth_is(e: EthInterfacePlan, slot: u8, nic: HostNic) -> bool {
    &&& e.id@ == slot_eth_id(slot)
    &&& opt_is(e.description, "NIC in Slot "@ + decimal(slot as nat) + " Port 1"@)
    &&& e.mac_address == nic.mac_address
    &&& e.interface_enabled == Some(true)
}

/// Id (and reference) of the `i`th boot option.
pub open spec fn dell_boot_id(i: nat) -> Seq<char> {
    "Boot"@ + zero_padded(hex_upper(i), 4)
}

/// The boot option that boots over HTTP through the NIC in slot `slot`.
pub open spec fn http_boot_option_is(o: BootOptionPlan, i: nat, slot: u8) -> bool {
    plain_boot_option(o, dell_boot_id(i), dell_boot_id(i), None,
        "HTTP Device 1: NIC in Slot "@ + decimal(slot as nat) + " Port 1"@, None)
}

/// The display name of the boot option of the server's disk.
pub open spec fn dell_disk_boot_name() -> Seq<char> {
    "PCIe SSD in Slot 2 in Bay 1: EFI Fixed Disk Boot Device 1"@
}

/// The serial number Dell's OEM NIC information reports for a NIC.
pub open spec fn dell_reported_serial(nic: HostNic) -> Seq<char> {
    match nic.serial_number {
        Some(s) => s@,
        None => "unknown"@,
    }
}

/// The network adapter of the NIC in slot `slot`: built from the NIC, with
/// an OK status and one device function that carries the NIC's MAC address
/// and Dell's OEM NIC information.
pub open spec fn slot_adapter_is(c: ComponentPlan, slot: u8, nic: HostNic) -> bool {
    &&& nic_fields(c, DELL_SYSTEM_ID@, "NIC.Slot."@ + decimal(slot as nat), nic)
    &&& c.status_ok
    &&& c.functions matches Some(f) && f@.len() == 1 && f@[0].id@ == slot_eth_id(slot)
        && f@[0].mac_address == nic.mac_address
        && (f@[0].dell_nic_info matches Some(info) && info.0 == slot && info.1@ == dell_reported_serial(nic))
}

/// The PCIe device of the NIC in slot `slot`: built from the NIC, with an
/// OK status.
pub open spec fn slot_pcie_device_is(c: ComponentPlan, slot: u8, nic: HostNic) -> bool {
    &&& nic_fields(c, DELL_SYSTEM_ID@, "mat_"@ + decimal(slot as nat), nic)
    &&& c.status_ok
    &&& c.functions is None
}

/// The attributes of the server's BIOS.
pub open spec fn dell_bios_attrs_are(a: Seq<(String, AttrValue)>) -> bool {
    &&& a.len() == 16
    &&& attr_is_text(a[0], "BootSeqRetry"@, "Disabled"@)
    &&& attr_is_text(a[1], "SetBootOrderEn"@, "NIC.HttpDevice.1-1,Disk.Bay.2:Enclosure.Internal.0-1"@)
    &&& attr_is_text(a[2], "InBandManageabilityInterface"@, "Enabled"@)
    &&& attr_is_text(a[3], "UefiVariableAccess"@, "Standard"@)
    &&& attr_is_text(a[4], "SerialComm"@, "OnConRedir"@)
    &&& attr_is_text(a[5], "SerialPortAddress"@, "Com1"@)
    &&& attr_is_text(a[6], "FailSafeBaud"@, "115200"@)
    &&& attr_is_text(a[7], "ConTermType"@, "Vt100Vt220"@)
    &&& attr_is_text(a[8], "RedirAfterBoot"@, "Enabled"@)
    &&& attr_is_text(a[9], "SriovGlobalEnable"@, "Enabled"@)
    &&& attr_is_text(a[10], "TpmSecurity"@, "On"@)
    &&& attr_is_text(a[11], "Tpm2Algorithm"@, "SHA256"@)
    &&& attr_is_text(a[12], "Tpm2Hierarchy"@, "Enabled"@)
    &&& attr_is_text(a[13], "HttpDev1EnDis"@, "Enabled"@)
    &&& attr_is_text(a[14], "PxeDev1EnDis"@, "Disabled"@)
    &&& attr_is_text(a[15], "HttpDev1Interface"@, "NIC.Slot.5-1"@)
}

fn dell_bios_attrs() -> (a: Vec<(String, AttrValue)>)
    ensures
        dell_bios_attrs_are(a@),
{
    let mut a: Vec<(String, AttrValue)> = Vec::new();
    a.push(text_attr("BootSeqRetry", "Disabled"));
    a.push(text_attr("SetBootOrderEn", "NIC.HttpDevice.1-1,Disk.Bay.2:Enclosure.Internal.0-1"));
    a.push(text_attr("InBandManageabilityInterface", "Enabled"));
    a.push(text_attr("UefiVariableAccess", "Standard"));
    a.push(text_attr("SerialComm", "OnConRedir"));
    a.push(text_attr("SerialPortAddress", "Com1"));
    a.push(text_attr("FailSafeBaud", "115200"));
    a.push(text_attr("ConTermType", "Vt100Vt220"));
    a.push(text_attr("RedirAfterBoot", "Enabled"));
    a.push(text_attr("SriovGlobalEnable", "Enabled"));
    a.push(text_attr("TpmSecurity", "On"));
    a.push(text_attr("Tpm2Algorithm", "SHA256"));
    a.push(text_attr("Tpm2Hierarchy", "Enabled"));
    a.push(text_attr("HttpDev1EnDis", "Enabled"));
    a.push(text_attr("PxeDev1EnDis", "Disabled"));
    a.push(text_attr("HttpDev1Interface", "NIC.Slot.5-1"));
    a
}

fn embedded_eth(port: u64, mac: [u8; 6]) -> (e: EthInterfacePlan)
    ensures
        embedded_eth_is(e, port as nat, mac),
{
    let mut id: Vec<char> = Vec::new();
    extend_str(&mut id, "NIC.Embedded.");
    push_decimal(&mut id, port);
    extend_str(&mut id, "-1-1");
    let mut desc: Vec<char> = Vec::new();
    extend_str(&mut desc, "Embedded NIC 1 Port ");
    push_decimal(&mut desc, port);
    extend_str(&mut desc, " Partition 1");
    EthInterfacePlan {
        id: string_of(&id),
        mac_address: mac,
        description: Some(string_of(&desc)),
        interface_enabled: Some(true),
    }
}

fn slot_eth(slot: u8, nic: &HostNic) -> (e: EthInterfacePlan)
    ensures
        slot_eth_is(e, slot, *nic),
{
    let mut id: Vec<char> = Vec::new();
    extend_str(&mut id, "NIC.Slot.");
    push_decimal(&mut id, slot as u64);
    extend_str(&mut id, "-1");
    let mut desc: Vec<char> = Vec::new();
    extend_str(&mut desc, "NIC in Slot ");
    push_decimal(&mut desc, slot as u64);
    extend_str(&mut desc, " Port 1");
    EthInterfacePlan {
        id: string_of(&id),
        mac_address: nic.mac_address,
        description: Some(string_of(&desc)),
        interface_enabled: Some(true),
    }
}

fn boot_id(i: u64) -> (s: String)
    ensures
        s@ == dell_boot_id(i as nat),
{
    let mut id: Vec<char> = Vec::new();
    extend_str(&mut id, "Boot");
    let digits = hex4_text(i);
    extend_chars(&mut id, &digits);
    string_of(&id)
}

fn slot_adapter(slot: u8, nic: &HostNic) -> (c: ComponentPlan)
    ensures
        slot_adapter_is(c, slot, *nic),
{
    let mut id: Vec<char> = Vec::new();
    extend_str(&mut id, "NIC.Slot.");
    push_decimal(&mut id, slot as u64);
    let mut fid = id.clone();
    extend_str(&mut fid, "-1");
    let serial = match &nic.serial_number {
        Some(s) => s.clone(),
        None => String::from_str("unknown"),
    };
    let mut functions: Vec<DeviceFunctionPlan> = Vec::new();
    functions.push(DeviceFunctionPlan {
        id: string_of(&fid),
        mac_address: nic.mac_address,
        dell_nic_info: Some((slot, serial)),
    });
    ComponentPlan {
        chassis_id: String::from_str(DELL_SYSTEM_ID),
        id: string_of(&id),
        manufacturer: clone_opt(&nic.manufacturer),
        model: clone_opt(&nic.model),
        part_number: clone_opt(&nic.part_number),
        serial_number: clone_opt(&nic.serial_number),
        functions: Some(functions),
        status_ok: true,
    }
}

fn slot_pcie_device(slot: u8, nic: &HostNic) -> (c: ComponentPlan)
    ensures
        slot_pcie_device_is(c, slot, *nic),
{
    let mut id: Vec<char> = Vec::new();
    extend_str(&mut id, "mat_");
    push_decimal(&mut id, slot as u64);
    ComponentPlan {
        chassis_id: String::from_str(DELL_SYSTEM_ID),
        id: string_of(&id),
        manufacturer: clone_opt(&nic.manufacturer),
        model: clone_opt(&nic.model),
        part_number: clone_opt(&nic.part_number),
        serial_number: clone_opt(&nic.serial_number),
        functions: None,
        status_ok: true,
    }
}

impl DellPowerEdgeR750 {
    /// Sensors of the server's chassis.
    pub fn sensor_layout() -> (l: SensorLayout)
        ensures
            l == layout(10, 20, 0, 10, 10),
    {
        SensorLayout { temperature: 10, power: 20, leak: 0, fan: 10, current: 10 }
    }

    /// The server's iDRAC: one enabled Ethernet interface, a disabled host
    /// interface, and Dell's OEM extension.
    pub fn manager_config(&self) -> (r: Vec<ManagerPlan>)
        ensures
            r@.len() == 1,
            r@[0].id@ == "iDRAC.Embedded.1"@,
            r@[0].eth_interfaces matches Some(e) && e@.len() == 1 && enabled_eth(e@[0], "NIC.1"@,
                self.bmc_mac_address@),
            r@[0].host_interfaces matches Some(h) && h@.len() == 1 && !h@[0].1 && h@[0].0.id@ == "Host.1"@
                && h@[0].0.odata_id@ == host_interfaces_path("iDRAC.Embedded.1"@) + "/"@ + "Host.1"@,
            r@[0].firmware_version matches Some(v) && v@ == "6.00.30.00"@,
            r@[0].dell_oem,
    {
        let mut eths: Vec<EthInterfacePlan> = Vec::new();
        eths.push(enabled_eth_plan("NIC.1", self.bmc_mac_address));
        let mut ifaces: Vec<(Resource, bool)> = Vec::new();
        ifaces.push((manager_resource("iDRAC.Embedded.1", "Host.1"), false));
        let mut r: Vec<ManagerPlan> = Vec::new();
        r.push(ManagerPlan {
            id: String::from_str("iDRAC.Embedded.1"),
            eth_interfaces: Some(eths),
            host_interfaces: Some(ifaces),
            firmware_version: Some(String::from_str("6.00.30.00")),
            dell_oem: true,
        });
        r
    }

    /// The server's computer system: an Ethernet interface per embedded
    /// port and per slot NIC, an HTTP boot option per slot NIC followed by
    /// the disk, Dell's OEM boot order and BIOS handling, and an empty
    /// storage collection.
    pub fn system_config(&self) -> (r: Vec<SystemPlan>)
        ensures
            r@.len() == 1,
            r@[0].id@ == DELL_SYSTEM_ID@,
            opt_is(r@[0].manufacturer, "Dell Inc."@) && opt_is(r@[0].model, "PowerEdge R750"@),
            opt_is(r@[0].serial_number, self.product_serial_number@),
            r@[0].eth_interfaces matches Some(e) && e@.len() == self.nics@.len() + 2
                && embedded_eth_is(e@[0], 1, self.embedded_nic.port_1)
                && embedded_eth_is(e@[1], 2, self.embedded_nic.port_2)
                && forall|i: int| 0 <= i < self.nics@.len() ==> slot_eth_is(#[trigger] e@[i + 2],
                    self.nics@[i].0, self.nics@[i].1),
            r@[0].chassis@.len() == 1 && r@[0].chassis@[0]@ == DELL_SYSTEM_ID@,
            r@[0].boot_options matches Some(b) && b@.len() == self.nics@.len() + 1
                && (forall|i: int| 0 <= i < self.nics@.len() ==> http_boot_option_is(#[trigger] b@[i], i as nat,
                    self.nics@[i].0))
                && plain_boot_option(b@[self.nics@.len() as int], dell_boot_id(self.nics@.len()),
                    dell_boot_id(self.nics@.len()), None, dell_disk_boot_name(), None),
            r@[0].bios_attributes matches Some(a) && dell_bios_attrs_are(a@),
            r@[0].bios_odata_context is None,
            r@[0].boot_order_mode == BootOrderMode::DellOem && r@[0].bios_mode == BiosMode::DellOem,
            r@[0].oem == SystemOem::Generic,
            r@[0].controlled && r@[0].event_log is None && r@[0].storage_listed && r@[0].secure_boot_available,
    {
        let mut eths: Vec<EthInterfacePlan> = Vec::new();
        eths.push(embedded_eth(1, self.embedded_nic.port_1));
        eths.push(embedded_eth(2, self.embedded_nic.port_2));
        let mut boot: Vec<BootOptionPlan> = Vec::new();
        let mut i: usize = 0;
        while i < self.nics.len()
            invariant
                i <= self.nics@.len(),
                eths@.len() == i + 2,
                embedded_eth_is(eths@[0], 1, self.embedded_nic.port_1),
                embedded_eth_is(eths@[1], 2, self.embedded_nic.port_2),
                forall|k: int| 0 <= k < i ==> slot_eth_is(#[trigger] eths@[k + 2], self.nics@[k].0, self.nics@[k].1),
                boot@.len() == i,
                forall|k: int| 0 <= k < i ==> http_boot_option_is(#[trigger] boot@[k], k as nat, self.nics@[k].0),
            decreases self.nics@.len() - i,
        {
            let slot = self.nics[i].0;
            eths.push(slot_eth(slot, &self.nics[i].1));
            let id = boot_id(i as u64);
            let mut name: Vec<char> = Vec::new();
            extend_str(&mut name, "HTTP Device 1: NIC in Slot ");
            push_decimal(&mut name, slot as u64);
            extend_str(&mut name, " Port 1");
            boot.push(BootOptionPlan {
                id: id.clone(),
                reference: id,
                kind: None,
                display_name: string_of(&name),
                alias: None,
                uefi_device_path: None,
                odata_etag: None,
            });
            i = i + 1;
        }
        let disk = boot_id(self.nics.len() as u64);
        boot.push(BootOptionPlan {
            id: disk.clone(),
            reference: disk,
            kind: None,
            display_name: String::from_str("PCIe SSD in Slot 2 in Bay 1: EFI Fixed Disk Boot Device 1"),
            alias: None,
            uefi_device_path: None,
            odata_etag: None,
        });
        let mut chassis: Vec<String> = Vec::new();
        chassis.push(String::from_str(DELL_SYSTEM_ID));
        let mut r: Vec<SystemPlan> = Vec::new();
        r.push(SystemPlan {
            id: String::from_str(DELL_SYSTEM_ID),
            manufacturer: Some(String::from_str("Dell Inc.")),
            model: Some(String::from_str("PowerEdge R750")),
            serial_number: Some(self.product_serial_number.clone()),
            eth_interfaces: Some(eths),
            chassis,
            boot_options: Some(boot),
            bios_attributes: Some(dell_bios_attrs()),
            bios_odata_context: None,
            boot_order_mode: BootOrderMode::DellOem,
            bios_mode: BiosMode::DellOem,
            oem: SystemOem::Generic,
            controlled: true,
            event_log: None,
            storage_listed: true,
            secure_boot_available: true,
        });
        r
    }

    /// The server's one chassis: the embedded Broadcom adapter and an
    /// adapter per slot NIC, and a PCIe device per slot NIC.
    pub fn chassis_config(&self) -> (r: Vec<ChassisPlan>)
        ensures
            r@.len() == 1,
            chassis_head(r@[0], DELL_SYSTEM_ID@, "RackMount"@, "Dell Inc."@, "01J4WFA05"@, "PowerEdge R750"@),
            r@[0].serial_number matches Some(s) && s@ == self.product_serial_number@,
            r@[0].sensor_layout == Some(layout(10, 20, 0, 10, 10)),
            r@[0].network_adapters matches Some(a) && a@.len() == self.nics@.len() + 1
                && a@[0].chassis_id@ == DELL_SYSTEM_ID@ && a@[0].id@ == "NIC.Embedded.1"@
                && opt_is(a@[0].manufacturer, "Broadcom Inc. and subsidiaries"@)
                && a@[0].model is None && a@[0].part_number is None && a@[0].serial_number is None
                && a@[0].functions is None && !a@[0].status_ok
                && forall|i: int| 0 <= i < self.nics@.len() ==> slot_adapter_is(#[trigger] a@[i + 1],
                    self.nics@[i].0, self.nics@[i].1),
            r@[0].pcie_devices matches Some(d) && d@.len() == self.nics@.len()
                && forall|i: int| 0 <= i < self.nics@.len() ==> slot_pcie_device_is(#[trigger] d@[i],
                    self.nics@[i].0, self.nics@[i].1),
            r@[0].assembly_serial is None && r@[0].power_supplies is None,
    {
        let mut adapters: Vec<ComponentPlan> = Vec::new();
        adapters.push(ComponentPlan {
            chassis_id: String::from_str(DELL_SYSTEM_ID),
            id: String::from_str("NIC.Embedded.1"),
            manufacturer: Some(String::from_str("Broadcom Inc. and subsidiaries")),
            model: None,
            part_number: None,
            serial_number: None,
            functions: None,
            status_ok: false,
        });
        let mut devices: Vec<ComponentPlan> = Vec::new();
        let mut i: usize = 0;
        while i < self.nics.len()
            invariant
                i <= self.nics@.len(),
                adapters@.len() == i + 1,
                adapters@[0].chassis_id@ == DELL_SYSTEM_ID@ && adapters@[0].id@ == "NIC.Embedded.1"@
                    && opt_is(adapters@[0].manufacturer, "Broadcom Inc. and subsidiaries"@)
                    && adapters@[0].model is None && adapters@[0].part_number is None
                    && adapters@[0].serial_number is None && adapters@[0].functions is None
                    && !adapters@[0].status_ok,
                forall|k: int| 0 <= k < i ==> slot_adapter_is(#[trigger] adapters@[k + 1], self.nics@[k].0,
                    self.nics@[k].1),
                devices@.len() == i,
                forall|k: int| 0 <= k < i ==> slot_pcie_device_is(#[trigger] devices@[k], self.nics@[k].0,
                    self.nics@[k].1),
            decreases self.nics@.len() - i,
        {
            adapters.push(slot_adapter(self.nics[i].0, &self.nics[i].1));
            devices.push(slot_pcie_device(self.nics[i].0, &self.nics[i].1));
            i = i + 1;
        }
        let mut r: Vec<ChassisPlan> = Vec::new();
        r.push(ChassisPlan {
            id: String::from_str(DELL_SYSTEM_ID),
            chassis_type: String::from_str("RackMount"),
            manufacturer: Some(String::from_str("Dell Inc.")),
            part_number: Some(String::from_str("01J4WFA05")),
            model: Some(String::from_str("PowerEdge R750")),
            serial_number: Some(self.product_serial_number.clone()),
            sensor_layout: Some(Self::sensor_layout()),
            pcie_devices: Some(devices),
            network_adapters: Some(adapters),
            assembly_serial: None,
            power_supplies: None,
        });
        r
    }

    /// The server's firmware inventory, which lists nothing.
    pub fn update_service_config(&self) -> (r: Vec<(String, String)>)
        ensures
            r@.len() == 0,
    {
        Vec::new()
    }
}

} // verus!
