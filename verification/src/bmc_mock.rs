//! Facts of the mocked BMC hardware: platform DPU counts, board addresses
//! and identifiers, chassis descriptions, Redfish resource identifiers and
//! the power-control rules of the mock.

use vstd::prelude::*;

verus! {

/// Hardware platforms the BMC mock can impersonate.
#[derive(Clone, Copy, Debug, PartialEq, Eq, Structural)]
pub enum HostHardwareType {
    DellPowerEdgeR750,
    WiwynnGB200Nvl,
    LenovoGB300Nvl,
    LiteOnPowerShelf,
    NvidiaSwitchNd5200Ld,
    NvidiaDgxH100,
}

impl Default for HostHardwareType {
    fn default() -> (r: Self)
        ensures
            r == HostHardwareType::DellPowerEdgeR750,
    {
        HostHardwareType::DellPowerEdgeR750
    }
}

/// The number of DPUs a platform must have, or `None` when it may have any number.
pub open spec fn fixed_dpus(t: HostHardwareType) -> Option<u8> {
    match t {
        HostHardwareType::DellPowerEdgeR750 => None,
        HostHardwareType::WiwynnGB200Nvl => Some(2u8),
        HostHardwareType::LenovoGB300Nvl => Some(1u8),
        HostHardwareType::LiteOnPowerShelf => Some(0u8),
        HostHardwareType::NvidiaSwitchNd5200Ld => Some(0u8),
        HostHardwareType::NvidiaDgxH100 => Some(1u8),
    }
}

/// The human-readable name of a platform.
pub open spec fn hardware_display(t: HostHardwareType) -> Seq<char> {
    match t {
        HostHardwareType::DellPowerEdgeR750 => "Dell PowerEdge R750"@,
        HostHardwareType::WiwynnGB200Nvl => "WIWYNN GB200 NVL"@,
        HostHardwareType::LenovoGB300Nvl => "Lenovo GB300 NVL"@,
        HostHardwareType::LiteOnPowerShelf => "Lite-On Power Shelf"@,
        HostHardwareType::NvidiaSwitchNd5200Ld => "NVIDIA Switch ND5200_LD"@,
        HostHardwareType::NvidiaDgxH100 => "NVIDIA DGX H100"@,
    }
}

impl HostHardwareType {
    /// How many DPUs must be attached to the platform; `None` if the platform
    /// supports a variable number of DPUs.
    pub fn fixed_number_of_dpu(&self) -> (r: Option<u8>)
        ensures
            r == fixed_dpus(*self),
    {
        match self {
            HostHardwareType::DellPowerEdgeR750 => None,
            HostHardwareType::WiwynnGB200Nvl => Some(2),
            HostHardwareType::LenovoGB300Nvl => Some(1),
            HostHardwareType::LiteOnPowerShelf => Some(0),
            HostHardwareType::NvidiaSwitchNd5200Ld => Some(0),
            HostHardwareType::NvidiaDgxH100 => Some(1),
        }
    }

    /// The human-readable name of the platform.
    pub fn display_name(&self) -> (r: &'static str)
        ensures
            r@ == hardware_display(*self),
    {
        match self {
            HostHardwareType::DellPowerEdgeR750 => "Dell PowerEdge R750",
            HostHardwareType::WiwynnGB200Nvl => "WIWYNN GB200 NVL",
            HostHardwareType::LenovoGB300Nvl => "Lenovo GB300 NVL",
            HostHardwareType::LiteOnPowerShelf => "Lite-On Power Shelf",
            HostHardwareType::NvidiaSwitchNd5200Ld => "NVIDIA Switch ND5200_LD",
            HostHardwareType::NvidiaDgxH100 => "NVIDIA DGX H100",
        }
    }
}

/// The vendor of a BMC, as the mock tells it to the machines it serves.
#[derive(Clone, Copy, Debug, PartialEq, Eq, Structural)]
pub enum BmcVendor {
    Lenovo,
    Dell,
    Nvidia,
    Supermicro,
    Hpe,
    LenovoAmi,
    Liteon,
    Unknown,
}

/// The system vendor the host's DMI data names for a BMC vendor (what udev
/// reports as `sys_vendor`).
pub open spec fn udev_dmi_vendor(v: BmcVendor) -> Seq<char> {
    match v {
        BmcVendor::Lenovo => "Lenovo"@,
        BmcVendor::Dell => "Dell Inc."@,
        BmcVendor::Nvidia => "https://www.mellanox.com"@,
        BmcVendor::Supermicro => "Supermicro"@,
        BmcVendor::Hpe => "HPE"@,
        BmcVendor::LenovoAmi => "Unknown"@,
        BmcVendor::Liteon => "Unknown"@,
        BmcVendor::Unknown => "Unknown"@,
    }
}

/// The DMI system vendor for a BMC vendor.
pub fn bmc_vendor_to_udev_dmi(v: BmcVendor) -> (r: &'static str)
    ensures
        r@ == udev_dmi_vendor(v),
{
    match v {
        BmcVendor::Lenovo => "Lenovo",
        BmcVendor::Dell => "Dell Inc.",
        BmcVendor::Nvidia => "https://www.mellanox.com",
        BmcVendor::Supermicro => "Supermicro",
        BmcVendor::Hpe => "HPE",
        BmcVendor::LenovoAmi => "Unknown",
        BmcVendor::Liteon => "Unknown",
        BmcVendor::Unknown => "Unknown",
    }
}

/// Redfish ResetType values (DSP2046, 6.5.5.1).
#[derive(Clone, Copy, Debug, PartialEq, Structural)]
pub enum SystemPowerControl {
    /// Power on a machine.
    On,
    /// Graceful host shutdown.
    GracefulShutdown,
    /// Forcefully powers a machine off.
    ForceOff,
    /// Graceful restart via ACPI.
    GracefulRestart,
    /// Force restart (reset button).
    ForceRestart,
    /// Cut then restore the power.
    PowerCycle,
    /// Forcefully power a machine on.
    ForceOn,
    /// Press the power button.
    PushPowerButton,
    /// Non-maskable interrupt then power off.
    Nmi,
    /// Write state to disk and power off.
    Suspend,
    /// Pause (VM / hypervisor).
    Pause,
    /// Resume (VM / hypervisor).
    Resume,
}

/// Power state of a mocked machine; a power cycle carries how long ago it
/// started, in nanoseconds.
#[derive(Clone, Copy, Debug)]
pub enum PowerStateView {
    On,
    Off,
    PowerCycling { elapsed_nanos: u128 },
}

/// How long a mocked power cycle lasts: five seconds, in nanoseconds.
pub const POWER_CYCLE_DELAY_NANOS: u128 = 5_000_000_000;

/// Why the mock refuses a power command.
#[derive(Clone, Copy, Debug, PartialEq, Eq, Structural)]
pub enum PowerRefusal {
    /// A power-off or restart was asked of a machine that is off.
    AlreadyOff,
    /// A power-on was asked of a machine that is on.
    AlreadyOn,
    /// The machine is in the middle of a power cycle.
    PowerCycling,
}

/// Whether a command turns the machine off or restarts it.
pub open spec fn is_off_or_restart(c: SystemPowerControl) -> bool {
    c == SystemPowerControl::GracefulShutdown || c == SystemPowerControl::ForceOff
        || c == SystemPowerControl::GracefulRestart || c == SystemPowerControl::ForceRestart
}

/// Whether a command turns the machine on.
pub open spec fn is_power_on(c: SystemPowerControl) -> bool {
    c == SystemPowerControl::On || c == SystemPowerControl::ForceOn
}

/// The refusal, if any, of command `c` in state `s`.
pub open spec fn power_refusal(c: SystemPowerControl, s: PowerStateView) -> Option<PowerRefusal> {
    match s {
        PowerStateView::Off => if is_off_or_restart(c) { Some(PowerRefusal::AlreadyOff) } else { None },
        PowerStateView::On => if is_power_on(c) { Some(PowerRefusal::AlreadyOn) } else { None },
        PowerStateView::PowerCycling { elapsed_nanos } => if elapsed_nanos < POWER_CYCLE_DELAY_NANOS {
            Some(PowerRefusal::PowerCycling)
        } else {
            None
        },
    }
}

/// Checks a power command against the machine's state: powering off or
/// restarting an off machine, powering on a running machine, and any
/// command during the first five seconds of a power cycle are refused; every
/// other command may be sent.
pub fn check_power_command(reset_type: SystemPowerControl, state: PowerStateView) -> (r: Result<(), PowerRefusal>)
    ensures
        power_refusal(reset_type, state) matches Some(e) ==> r == Err::<(), PowerRefusal>(e),
        power_refusal(reset_type, state) is None ==> r is Ok,
{
    match state {
        PowerStateView::Off => match reset_type {
            SystemPowerControl::GracefulShutdown | SystemPowerControl::ForceOff
            | SystemPowerControl::GracefulRestart | SystemPowerControl::ForceRestart => Err(PowerRefusal::AlreadyOff),
            _ => Ok(()),
        },
        PowerStateView::On => match reset_type {
            SystemPowerControl::On | SystemPowerControl::ForceOn => Err(PowerRefusal::AlreadyOn),
            _ => Ok(()),
        },
        PowerStateView::PowerCycling { elapsed_nanos } => {
            if elapsed_nanos < POWER_CYCLE_DELAY_NANOS {
                Err(PowerRefusal::PowerCycling)
            } else {
                Ok(())
            }
        },
    }
}

/// The message of a refused power command, when it does not depend on time.
pub fn power_refusal_message(e: PowerRefusal) -> (r: Option<String>)
    ensures
        e == PowerRefusal::AlreadyOff ==> (r matches Some(m) && m@ == "bmc-mock: cannot power off machine, it is already off"@),
        e == PowerRefusal::AlreadyOn ==> (r matches Some(m) && m@ == "bmc-mock: cannot power on machine, it is already on"@),
        e == PowerRefusal::PowerCycling ==> r is None,
{
    match e {
        PowerRefusal::AlreadyOff => Some(String::from_str("bmc-mock: cannot power off machine, it is already off")),
        PowerRefusal::AlreadyOn => Some(String::from_str("bmc-mock: cannot power on machine, it is already on")),
        PowerRefusal::PowerCycling => None,
    }
}

/// Tells the host name of a mocked machine.
pub trait HostnameQuerying {
    fn get_hostname(&self) -> String;
}

} // verus!
