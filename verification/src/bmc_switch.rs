//! The mocked NVIDIA ND5200_LD NVLink switch tray: one BMC, a system with
//! no boot options, and the chassis of its BMC, CPLD, ERoTs and switches.

use vstd::prelude::*;
use crate::bmc_attrs::AttrValue;
use crate::bmc_boards::{ChassisPlan, ComponentPlan, SensorLayout, layout};
use crate::bmc_gb200::{bare_chassis, chassis_head};
use crate::bmc_plans::{
    BiosMode, BootOrderMode, EthInterfacePlan, ManagerPlan, SystemOem, SystemPlan, enabled_eth, enabled_eth_plan,
};
use crate::boot_order::{hex_pair, mac_digits_of_byte};
use crate::text::{decimal, extend_chars, extend_str, push_decimal, string_of};

verus! {

/// An NVIDIA ND5200_LD switch tray.
#[derive(Clone, Debug)]
pub struct NvidiaSwitchNd5200Ld {
    pub bmc_mac_address_eth0: [u8; 6],
    pub bmc_mac_address_eth1: [u8; 6],
    pub bmc_mac_address_usb0: [u8; 6],
    pub bmc_serial_number: String,
    pub switch_serial_number: String,
}

/// The ids of the tray's five ERoT chassis, in order.
pub open spec fn erot_ids() -> Seq<Seq<char>> {
    seq!["MGX_ERoT_BMC_0"@, "MGX_ERoT_CPU_0"@, "MGX_ERoT_FPGA_0"@, "MGX_ERoT_NVSwitch_0"@, "MGX_ERoT_NVSwitch_1"@]
}

/// The serial number of ERoT `n` (below 256): `0xFEEEEEEE` and `n` as four
/// upper-case hexadecimal digits.
pub open spec fn erot_serial(n: u8) -> Seq<char> {
    "0xFEEEEEEE"@ + hex_pair(0) + hex_pair(n)
}

/// The chassis of switch `n`.
pub open spec fn nvswitch_chassis_is(p: ChassisPlan, n: nat, serial: Seq<char>) -> bool {
    &&& chassis_head(p, "MGX_NVSwitch_"@ + decimal(n), "Component"@, "NVIDIA"@, "920-9K36W-00MV-GS0"@, "N5200_LD"@)
    &&& p.serial_number matches Some(s) && s@ == serial
    &&& p.sensor_layout == Some(layout(1, 1, 0, 0, 0))
    &&& p.pcie_devices matches Some(d) && d@.len() == 0
    &&& p.network_adapters is None && p.assembly_serial is None && p.power_supplies is None
}

fn erot_chassis(id: &str, n: u8) -> (p: ChassisPlan)
    ensures
        bare_chassis(p, id@, "Component"@, "NVIDIA"@, erot_serial(n)),
{
    let mut serial: Vec<char> = Vec::new();
    extend_str(&mut serial, "0xFEEEEEEE");
    let hi = mac_digits_of_byte(0);
    let lo = mac_digits_of_byte(n);
    extend_chars(&mut serial, &hi);
    extend_chars(&mut serial, &lo);
    ChassisPlan {
        id: String::from_str(id),
        chassis_type: String::from_str("Component"),
        manufacturer: Some(String::from_str("NVIDIA")),
        part_number: None,
        model: None,
        serial_number: Some(string_of(&serial)),
        sensor_layout: None,
        pcie_devices: None,
        network_adapters: None,
        assembly_serial: None,
        power_supplies: None,
    }
}

fn nvswitch_chassis(n: u64, serial: &String) -> (p: ChassisPlan)
    ensures
        nvswitch_chassis_is(p, n as nat, serial@),
{
    let mut id: Vec<char> = Vec::new();
    extend_str(&mut id, "MGX_NVSwitch_");
    push_decimal(&mut id, n);
    let devices: Vec<ComponentPlan> = Vec::new();
    ChassisPlan {
        id: string_of(&id),
        chassis_type: String::from_str("Component"),
        manufacturer: Some(String::from_str("NVIDIA")),
        part_number: Some(String::from_str("920-9K36W-00MV-GS0")),
        model: Some(String::from_str("N5200_LD")),
        serial_number: Some(serial.clone()),
        sensor_layout: Some(SensorLayout { temperature: 1, power: 1, leak: 0, fan: 0, current: 0 }),
        pcie_devices: Some(devices),
        network_adapters: None,
        assembly_serial: None,
        power_supplies: None,
    }
}

impl NvidiaSwitchNd5200Ld {
    /// The tray's BMC, with its two Ethernet ports and its USB interface
    /// enabled.
    pub fn manager_config(&self) -> (r: Vec<ManagerPlan>)
        ensures
            r@.len() == 1,
            r@[0].id@ == "BMC_0"@,
            r@[0].eth_interfaces matches Some(e) && e@.len() == 3
                && enabled_eth(e@[0], "eth0"@, self.bmc_mac_address_eth0@)
                && enabled_eth(e@[1], "eth1"@, self.bmc_mac_address_eth1@)
                && enabled_eth(e@[2], "usb0"@, self.bmc_mac_address_usb0@),
            r@[0].host_interfaces is None,
            r@[0].firmware_version matches Some(v) && v@ == "88.0002.1333"@,
            !r@[0].dell_oem,
    {
        let mut eths: Vec<EthInterfacePlan> = Vec::new();
        eths.push(enabled_eth_plan("eth0", self.bmc_mac_address_eth0));
        eths.push(enabled_eth_plan("eth1", self.bmc_mac_address_eth1));
        eths.push(enabled_eth_plan("usb0", self.bmc_mac_address_usb0));
        let mut r: Vec<ManagerPlan> = Vec::new();
        r.push(ManagerPlan {
            id: String::from_str("BMC_0"),
            eth_interfaces: Some(eths),
            host_interfaces: None,
            firmware_version: Some(String::from_str("88.0002.1333")),
            dell_oem: false,
        });
        r
    }

    /// The tray's system: no identity, no boot options and no BIOS, an
    /// empty storage collection, in the BMC EEPROM chassis.
    pub fn system_config(&self) -> (r: Vec<SystemPlan>)
        ensures
            r@.len() == 1,
            r@[0].id@ == "System_0"@,
            r@[0].manufacturer is None && r@[0].model is None && r@[0].serial_number is None,
            r@[0].eth_interfaces is None && r@[0].boot_options is None,
            r@[0].chassis@.len() == 1 && r@[0].chassis@[0]@ == "BMC_eeprom"@,
            r@[0].bios_attributes is None && r@[0].bios_odata_context is None,
            r@[0].boot_order_mode == BootOrderMode::Generic && r@[0].bios_mode == BiosMode::Generic,
            r@[0].oem == SystemOem::Generic,
            !r@[0].controlled && r@[0].event_log is None && r@[0].storage_listed,
            !r@[0].secure_boot_available,
    {
        let mut chassis: Vec<String> = Vec::new();
        chassis.push(String::from_str("BMC_eeprom"));
        let mut r: Vec<SystemPlan> = Vec::new();
        r.push(SystemPlan {
            id: String::from_str("System_0"),
            manufacturer: None,
            model: None,
            serial_number: None,
            eth_interfaces: None,
            chassis,
            boot_options: None,
            bios_attributes: None::<Vec<(String, AttrValue)>>,
            bios_odata_context: None,
            boot_order_mode: BootOrderMode::Generic,
            bios_mode: BiosMode::Generic,
            oem: SystemOem::Generic,
            controlled: false,
            event_log: None,
            storage_listed: true,
            secure_boot_available: false,
        });
        r
    }

    /// The tray's chassis, in order: the BMC EEPROM, the CPLD, the BMC
    /// module, the five ERoTs and the two NVSwitches.
    pub fn chassis_config(&self) -> (r: Vec<ChassisPlan>)
        ensures
            r@.len() == 10,
            chassis_head(r@[0], "BMC_eeprom"@, "Module"@, "NVIDIA"@, "692-13809-1404-000"@, "P3809"@),
            r@[0].serial_number matches Some(s) && s@ == self.bmc_serial_number@,
            r@[0].sensor_layout == Some(layout(0, 0, 0, 0, 0)),
            r@[0].pcie_devices is None && r@[0].network_adapters is None,
            r@[0].assembly_serial is None && r@[0].power_supplies is None,
            chassis_head(r@[1], "CPLD_0"@, "Module"@, "Lattice"@, ""@, "LCMXO3D-9400HC-5BG256C"@),
            r@[1].serial_number matches Some(s) && s@ == "CPLDSerialNumber"@,
            r@[1].sensor_layout == Some(layout(0, 0, 0, 0, 0)),
            r@[1].pcie_devices matches Some(d) && d@.len() == 0,
            r@[1].network_adapters is None && r@[1].assembly_serial is None && r@[1].power_supplies is None,
            chassis_head(r@[2], "MGX_BMC_0"@, "Component"@, "NVIDIA"@, "692-13809-1404-000"@, "P3809"@),
            r@[2].serial_number matches Some(s) && s@ == self.bmc_serial_number@,
            r@[2].sensor_layout == Some(layout(1, 0, 0, 0, 0)),
            r@[2].pcie_devices matches Some(d) && d@.len() == 0,
            r@[2].network_adapters is None && r@[2].assembly_serial is None && r@[2].power_supplies is None,
            forall|n: int| 0 <= n < 5 ==> bare_chassis(#[trigger] r@[3 + n], erot_ids()[n], "Component"@, "NVIDIA"@,
                erot_serial(n as u8)),
            nvswitch_chassis_is(r@[8], 0, self.switch_serial_number@),
            nvswitch_chassis_is(r@[9], 1, self.switch_serial_number@),
    {
        let zero = SensorLayout { temperature: 0, power: 0, leak: 0, fan: 0, current: 0 };
        let mut r: Vec<ChassisPlan> = Vec::new();
        r.push(ChassisPlan {
            id: String::from_str("BMC_eeprom"),
            chassis_type: String::from_str("Module"),
            manufacturer: Some(String::from_str("NVIDIA")),
            part_number: Some(String::from_str("692-13809-1404-000")),
            model: Some(String::from_str("P3809")),
            serial_number: Some(self.bmc_serial_number.clone()),
            sensor_layout: Some(zero),
            pcie_devices: None,
            network_adapters: None,
            assembly_serial: None,
            power_supplies: None,
        });
        r.push(ChassisPlan {
            id: String::from_str("CPLD_0"),
            chassis_type: String::from_str("Module"),
            manufacturer: Some(String::from_str("Lattice")),
            part_number: Some(String::from_str("")),
            model: Some(String::from_str("LCMXO3D-9400HC-5BG256C")),
            serial_number: Some(String::from_str("CPLDSerialNumber")),
            sensor_layout: Some(zero),
            pcie_devices: Some(Vec::new()),
            network_adapters: None,
            assembly_serial: None,
            power_supplies: None,
        });
        r.push(ChassisPlan {
            id: String::from_str("MGX_BMC_0"),
            chassis_type: String::from_str("Component"),
            manufacturer: Some(String::from_str("NVIDIA")),
            part_number: Some(String::from_str("692-13809-1404-000")),
            model: Some(String::from_str("P3809")),
            serial_number: Some(self.bmc_serial_number.clone()),
            sensor_layout: Some(SensorLayout { temperature: 1, power: 0, leak: 0, fan: 0, current: 0 }),
            pcie_devices: Some(Vec::new()),
            network_adapters: None,
            assembly_serial: None,
            power_supplies: None,
        });
        r.push(erot_chassis("MGX_ERoT_BMC_0", 0));
        r.push(erot_chassis("MGX_ERoT_CPU_0", 1));
        r.push(erot_chassis("MGX_ERoT_FPGA_0", 2));
        r.push(erot_chassis("MGX_ERoT_NVSwitch_0", 3));
        r.push(erot_chassis("MGX_ERoT_NVSwitch_1", 4));
        r.push(nvswitch_chassis(0, &self.switch_serial_number));
        r.push(nvswitch_chassis(1, &self.switch_serial_number));
        assert forall|n: int| 0 <= n < 5 implies bare_chassis(#[trigger] r@[3 + n], erot_ids()[n], "Component"@,
            "NVIDIA"@, erot_serial(n as u8)) by {
            if n == 0 {
            } else if n == 1 {
            } else if n == 2 {
            } else if n == 3 {
            } else {
            }
        }
        r
    }

    /// The tray's firmware inventory, which lists nothing.
    pub fn update_service_config(&self) -> (r: Vec<(String, String)>)
        ensures
            r@.len() == 0,
    {
        Vec::new()
    }
}

} // verus!
