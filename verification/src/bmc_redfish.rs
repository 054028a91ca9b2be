//! Identities of the Redfish resources the BMC mock serves: where each
//! resource and collection lives, its type and its name.

use vstd::prelude::*;
use crate::text::{extend_str, string_of};

verus! {

/// A Redfish collection: its path, type and name.
#[derive(Clone, Debug)]
pub struct Collection {
    pub odata_id: String,
    pub odata_type: String,
    pub name: String,
}

/// A Redfish resource: its path, type, id and name.
#[derive(Clone, Debug)]
pub struct Resource {
    pub odata_id: String,
    pub odata_type: String,
    pub id: String,
    pub name: String,
}

/// Path of a chassis.
pub open spec fn chassis_path(chassis_id: Seq<char>) -> Seq<char> {
    "/redfish/v1/Chassis/"@ + chassis_id
}

/// Path of the host interfaces of a manager.
pub open spec fn host_interfaces_path(manager_id: Seq<char>) -> Seq<char> {
    "/redfish/v1/Managers/"@ + manager_id + "/HostInterfaces"@
}

/// The host interface collection of manager `manager_id`.
pub fn manager_collection(manager_id: &str) -> (c: Collection)
    ensures
        c.odata_id@ == host_interfaces_path(manager_id@),
        c.odata_type@ == "#HostInterfaceCollection.HostInterfaceCollection"@,
        c.name@ == "HostInterface Collection"@,
{
    let mut p: Vec<char> = Vec::new();
    extend_str(&mut p, "/redfish/v1/Managers/");
    extend_str(&mut p, manager_id);
    extend_str(&mut p, "/HostInterfaces");
    Collection {
        odata_id: string_of(&p),
        odata_type: String::from_str("#HostInterfaceCollection.HostInterfaceCollection"),
        name: String::from_str("HostInterface Collection"),
    }
}

/// Host interface `iface_id` of manager `manager_id`.
pub fn manager_resource(manager_id: &str, iface_id: &str) -> (r: Resource)
    ensures
        r.odata_id@ == host_interfaces_path(manager_id@) + "/"@ + iface_id@,
        r.odata_type@ == "#HostInterface.v1_3_3.HostInterface"@,
        r.id@ == iface_id@,
        r.name@ == "Host Interface"@,
{
    let mut p: Vec<char> = Vec::new();
    extend_str(&mut p, "/redfish/v1/Managers/");
    extend_str(&mut p, manager_id);
    extend_str(&mut p, "/HostInterfaces");
    extend_str(&mut p, "/");
    extend_str(&mut p, iface_id);
    Resource {
        odata_id: string_of(&p),
        odata_type: String::from_str("#HostInterface.v1_3_3.HostInterface"),
        id: String::from_str(iface_id),
        name: String::from_str("Host Interface"),
    }
}

/// Path of the power supplies of a chassis.
pub open spec fn power_supplies_path(chassis_id: Seq<char>) -> Seq<char> {
    chassis_path(chassis_id) + "/PowerSubsystem/PowerSupplies"@
}

/// Power supply `supply_id` of chassis `chassis_id`.
pub fn resource(chassis_id: &str, supply_id: &str) -> (r: Resource)
    ensures
        r.odata_id@ == power_supplies_path(chassis_id@) + "/"@ + supply_id@,
        r.odata_type@ == "#PowerSupply.v1_5_0.PowerSupply"@,
        r.id@ == supply_id@,
        r.name@ == "Power Supply"@,
{
    let mut p: Vec<char> = Vec::new();
    extend_str(&mut p, "/redfish/v1/Chassis/");
    extend_str(&mut p, chassis_id);
    extend_str(&mut p, "/PowerSubsystem/PowerSupplies");
    extend_str(&mut p, "/");
    extend_str(&mut p, supply_id);
    Resource {
        odata_id: string_of(&p),
        odata_type: String::from_str("#PowerSupply.v1_5_0.PowerSupply"),
        id: String::from_str(supply_id),
        name: String::from_str("Power Supply"),
    }
}

/// The power supply collection of chassis `chassis_id`.
pub fn collection(chassis_id: &str) -> (c: Collection)
    ensures
        c.odata_id@ == power_supplies_path(chassis_id@),
        c.odata_type@ == "#PowerSupplyCollection.PowerSupplyCollection"@,
        c.name@ == "Power Supply"@,
{
    let mut p: Vec<char> = Vec::new();
    extend_str(&mut p, "/redfish/v1/Chassis/");
    extend_str(&mut p, chassis_id);
    extend_str(&mut p, "/PowerSubsystem/PowerSupplies");
    Collection {
        odata_id: string_of(&p),
        odata_type: String::from_str("#PowerSupplyCollection.PowerSupplyCollection"),
        name: String::from_str("Power Supply"),
    }
}

} // verus!
