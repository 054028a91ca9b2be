//! What to fetch from a BMC's manager during exploration: each hardware
//! family needs its own OEM resources to tell its lockdown state.

use vstd::prelude::*;
use crate::bmc_attrs::HwType;

verus! {

/// Which optional manager resources to fetch.
#[derive(Clone, Copy, Debug, PartialEq, Eq, Structural)]
pub struct Config {
    pub need_host_interfaces: bool,
    pub need_oem_dell_attributes: bool,
    pub need_oem_lenovo_security_service: bool,
    pub need_oem_supermicro_kcs_interface: bool,
    pub need_oem_supermicro_sys_lockdown: bool,
    pub need_oem_ami_config_bmc: bool,
}

/// The configuration that fetches nothing optional.
pub open spec fn fetch_nothing() -> Config {
    Config {
        need_host_interfaces: false,
        need_oem_dell_attributes: false,
        need_oem_lenovo_security_service: false,
        need_oem_supermicro_kcs_interface: false,
        need_oem_supermicro_sys_lockdown: false,
        need_oem_ami_config_bmc: false,
    }
}

impl Default for Config {
    fn default() -> (c: Self)
        ensures
            c == fetch_nothing(),
    {
        Config {
            need_host_interfaces: false,
            need_oem_dell_attributes: false,
            need_oem_lenovo_security_service: false,
            need_oem_supermicro_kcs_interface: false,
            need_oem_supermicro_sys_lockdown: false,
            need_oem_ami_config_bmc: false,
        }
    }
}

/// The manager resources a hardware family needs.
pub open spec fn manager_config_spec(hw: Option<HwType>) -> Config {
    match hw {
        Some(HwType::Ami) => Config { need_host_interfaces: true, ..fetch_nothing() },
        Some(HwType::Dell) => Config { need_oem_dell_attributes: true, ..fetch_nothing() },
        Some(HwType::Lenovo) => Config { need_oem_lenovo_security_service: true, ..fetch_nothing() },
        Some(HwType::LenovoAmi) => Config { need_oem_ami_config_bmc: true, ..fetch_nothing() },
        Some(HwType::Supermicro) => Config {
            need_host_interfaces: true,
            need_oem_supermicro_kcs_interface: true,
            need_oem_supermicro_sys_lockdown: true,
            ..fetch_nothing()
        },
        _ => fetch_nothing(),
    }
}

/// The manager resources to fetch for a BMC of family `hw` (unknown
/// families fetch nothing optional).
pub fn manager_config(hw: Option<HwType>) -> (c: Config)
    ensures
        c == manager_config_spec(hw),
{
    let mut c = Config::default();
    match hw {
        Some(HwType::Ami) => {
            c.need_host_interfaces = true;
        },
        Some(HwType::Dell) => {
            c.need_oem_dell_attributes = true;
        },
        Some(HwType::Lenovo) => {
            c.need_oem_lenovo_security_service = true;
        },
        Some(HwType::LenovoAmi) => {
            c.need_oem_ami_config_bmc = true;
        },
        Some(HwType::Supermicro) => {
            c.need_host_interfaces = true;
            c.need_oem_supermicro_kcs_interface = true;
            c.need_oem_supermicro_sys_lockdown = true;
        },
        _ => {},
    }
    c
}

} // verus!
