//! The mocked LiteOn power shelf: one shelf chassis with six power
//! supplies, managed by one BMC.

use vstd::prelude::*;
use crate::bmc_boards::{ChassisPlan, PowerSupplyPlan, SensorLayout, layout};
use crate::bmc_gb200::chassis_head;
use crate::bmc_attrs::AttrValue;
use crate::bmc_plans::{
    BiosMode, BootOrderMode, EthInterfacePlan, ManagerPlan, SystemOem, SystemPlan, enabled_eth, enabled_eth_plan,
};
use crate::bmc_redfish::{power_supplies_path, resource};
use crate::text::{decimal, push_decimal, string_of};

verus! {

/// A LiteOn power shelf.
#[derive(Clone, Debug)]
pub struct LiteOnPowerShelf {
    pub bmc_mac_address: [u8; 6],
    pub product_serial_number: String,
}

impl LiteOnPowerShelf {
    /// Sensors of the shelf.
    pub fn sensor_layout() -> (l: SensorLayout)
        ensures
            l == layout(20, 12, 0, 6, 12),
    {
        SensorLayout { temperature: 20, power: 12, leak: 0, fan: 6, current: 12 }
    }

    /// The shelf's BMC: a CAN interface with an all-zero MAC address and
    /// the Ethernet interface, both enabled.
    pub fn manager_config(&self) -> (r: Vec<ManagerPlan>)
        ensures
            r@.len() == 1,
            r@[0].id@ == "bmc"@,
            r@[0].host_interfaces is None,
            r@[0].firmware_version matches Some(v) && v@ == "r1.3.9"@,
            r@[0].eth_interfaces matches Some(e) && e@.len() == 2 && enabled_eth(e@[0], "can0"@, seq![0u8, 0u8, 0u8, 0u8, 0u8, 0u8])
                && enabled_eth(e@[1], "eth0"@, self.bmc_mac_address@),
            !r@[0].dell_oem,
    {
        let mut eths: Vec<EthInterfacePlan> = Vec::new();
        let zero: [u8; 6] = [0, 0, 0, 0, 0, 0];
        assert(zero@ =~= seq![0u8, 0u8, 0u8, 0u8, 0u8, 0u8]);
        eths.push(enabled_eth_plan("can0", zero));
        eths.push(enabled_eth_plan("eth0", self.bmc_mac_address));
        let mut r: Vec<ManagerPlan> = Vec::new();
        r.push(
            ManagerPlan {
                id: String::from_str("bmc"),
                eth_interfaces: Some(eths),
                host_interfaces: None,
                firmware_version: Some(String::from_str("r1.3.9")),
                dell_oem: false,
            },
        );
        r
    }

    /// The shelf's computer system: no identity, no boot options, and a
    /// BIOS resource with no attributes.
    pub fn system_config(&self) -> (r: Vec<SystemPlan>)
        ensures
            r@.len() == 1,
            r@[0].id@ == "system"@,
            r@[0].manufacturer is None && r@[0].model is None && r@[0].serial_number is None,
            r@[0].eth_interfaces is None && r@[0].boot_options is None,
            r@[0].chassis@.len() == 1 && r@[0].chassis@[0]@ == "powershelf"@,
            r@[0].bios_attributes matches Some(a) && a@.len() == 0,
            r@[0].bios_odata_context is None,
            r@[0].boot_order_mode == BootOrderMode::Generic && r@[0].bios_mode == BiosMode::Generic,
            r@[0].oem == SystemOem::Generic,
            !r@[0].controlled && r@[0].event_log is None && !r@[0].storage_listed,
            !r@[0].secure_boot_available,
    {
        let mut chassis: Vec<String> = Vec::new();
        chassis.push(String::from_str("powershelf"));
        let bios: Vec<(String, AttrValue)> = Vec::new();
        let mut r: Vec<SystemPlan> = Vec::new();
        r.push(SystemPlan {
            id: String::from_str("system"),
            manufacturer: None,
            model: None,
            serial_number: None,
            eth_interfaces: None,
            chassis,
            boot_options: None,
            bios_attributes: Some(bios),
            bios_odata_context: None,
            boot_order_mode: BootOrderMode::Generic,
            bios_mode: BiosMode::Generic,
            oem: SystemOem::Generic,
            controlled: false,
            event_log: None,
            storage_listed: false,
            secure_boot_available: false,
        });
        r
    }

    /// The shelf chassis with its six power supplies, numbered from zero,
    /// each reporting power on.
    pub fn chassis_config(&self) -> (r: Vec<ChassisPlan>)
        ensures
            r@.len() == 1,
            chassis_head(r@[0], "powershelf"@, "Shelf"@, "LITE-ON TECHNOLOGY CORP."@, "PF-1333-7R"@, "PF-1333-7R"@),
            r@[0].serial_number matches Some(s) && s@ == self.product_serial_number@,
            r@[0].sensor_layout == Some(layout(20, 12, 0, 6, 12)),
            r@[0].pcie_devices is None && r@[0].network_adapters is None && r@[0].assembly_serial is None,
            r@[0].power_supplies matches Some(ps) && ps@.len() == 6 && forall|i: int|
                0 <= i < 6 ==> (#[trigger] ps@[i]).liteon_power_state && ps@[i].resource.id@ == decimal(i as nat)
                    && ps@[i].resource.odata_id@ == power_supplies_path("powershelf"@) + "/"@ + decimal(i as nat),
    {
        let mut ps: Vec<PowerSupplyPlan> = Vec::new();
        let mut i: u64 = 0;
        while i < 6
            invariant
                i <= 6,
                ps@.len() == i,
                forall|k: int|
                    0 <= k < i ==> (#[trigger] ps@[k]).liteon_power_state && ps@[k].resource.id@ == decimal(k as nat)
                        && ps@[k].resource.odata_id@ == power_supplies_path("powershelf"@) + "/"@ + decimal(k as nat),
            decreases 6 - i,
        {
            let mut idv: Vec<char> = Vec::new();
            push_decimal(&mut idv, i);
            assert(idv@ =~= decimal(i as nat));
            let id = string_of(&idv);
            ps.push(PowerSupplyPlan { resource: resource("powershelf", id.as_str()), liteon_power_state: true });
            i = i + 1;
        }
        let mut r: Vec<ChassisPlan> = Vec::new();
        r.push(
            ChassisPlan {
                id: String::from_str("powershelf"),
                chassis_type: String::from_str("Shelf"),
                manufacturer: Some(String::from_str("LITE-ON TECHNOLOGY CORP.")),
                part_number: Some(String::from_str("PF-1333-7R")),
                model: Some(String::from_str("PF-1333-7R")),
                serial_number: Some(self.product_serial_number.clone()),
                sensor_layout: Some(Self::sensor_layout()),
                pcie_devices: None,
                network_adapters: None,
                assembly_serial: None,
                power_supplies: Some(ps),
            },
        );
        r
    }

    /// The shelf's firmware inventory, which lists nothing.
    pub fn update_service_config(&self) -> (r: Vec<(String, String)>)
        ensures
            r@.len() == 0,
    {
        Vec::new()
    }
}

} // verus!
