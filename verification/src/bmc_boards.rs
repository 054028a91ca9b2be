//! Boards of the mocked GB200 and GB300 systems, and the chassis and
//! components (PCIe devices, network adapters) that describe mocked hardware.

use vstd::prelude::*;
use crate::text::{decimal, extend_str, push_decimal, string_of};

verus! {

/// Position of a board in a two-board system.
#[derive(Clone, Copy, Debug, PartialEq, Eq, Structural)]
pub enum BoardIndex {
    Board0,
    Board1,
}

impl BoardIndex {
    /// The index as text: `0` or `1`.
    pub fn as_str(&self) -> (r: &'static str)
        ensures
            *self == BoardIndex::Board0 ==> r@ == "0"@,
            *self == BoardIndex::Board1 ==> r@ == "1"@,
    {
        match self {
            BoardIndex::Board0 => "0",
            BoardIndex::Board1 => "1",
        }
    }
}

/// How many sensors of each kind a chassis exposes.
#[derive(Clone, Copy, Debug, PartialEq, Eq, Structural)]
pub struct SensorLayout {
    pub temperature: usize,
    pub power: usize,
    pub leak: usize,
    pub fan: usize,
    pub current: usize,
}

/// A sensor layout with the given numbers of temperature, power, leak, fan and current sensors.
pub open spec fn layout(temperature: usize, power: usize, leak: usize, fan: usize, current: usize) -> SensorLayout {
    SensorLayout { temperature, power, leak, fan, current }
}

/// A component inside a chassis (a PCIe device or a network adapter).
#[derive(Clone, Debug)]
pub struct ComponentPlan {
    /// The chassis the component belongs to.
    pub chassis_id: String,
    pub id: String,
    pub manufacturer: Option<String>,
    pub model: Option<String>,
    pub part_number: Option<String>,
    pub serial_number: Option<String>,
    /// Network device functions of an adapter, when it lists them.
    pub functions: Option<Vec<DeviceFunctionPlan>>,
    /// Whether the component reports an OK status.
    pub status_ok: bool,
}

/// A network device function of a network adapter.
#[derive(Clone, Debug)]
pub struct DeviceFunctionPlan {
    pub id: String,
    /// The MAC address of the function's Ethernet port.
    pub mac_address: [u8; 6],
    /// Dell's OEM information for the function: the slot of the NIC and
    /// the serial number reported for it.
    pub dell_nic_info: Option<(u8, String)>,
}

/// Whether an optional text is the given one.
pub open spec fn opt_is(o: Option<String>, t: Seq<char>) -> bool {
    o matches Some(s) && s@ == t
}

/// The Redfish description of one chassis; sensors are generated from the layout.
#[derive(Clone, Debug)]
pub struct ChassisPlan {
    pub id: String,
    pub chassis_type: String,
    pub manufacturer: Option<String>,
    pub part_number: Option<String>,
    pub model: Option<String>,
    pub serial_number: Option<String>,
    pub sensor_layout: Option<SensorLayout>,
    pub pcie_devices: Option<Vec<ComponentPlan>>,
    pub network_adapters: Option<Vec<ComponentPlan>>,
    /// Serial number of the chassis assembly, when it has one.
    pub assembly_serial: Option<String>,
    /// Power supplies of the chassis, when it lists them.
    pub power_supplies: Option<Vec<PowerSupplyPlan>>,
}

/// A power supply of a chassis.
#[derive(Clone, Debug)]
pub struct PowerSupplyPlan {
    pub resource: crate::bmc_redfish::Resource,
    /// The LiteOn power state the supply reports (on when true).
    pub liteon_power_state: bool,
}

/// A chassis with the given identity and sensors, and no components listed.
pub open spec fn plain_chassis(
    p: ChassisPlan,
    id: Seq<char>,
    manufacturer: Seq<char>,
    part_number: Seq<char>,
    model: Seq<char>,
    serial: Seq<char>,
    layout: SensorLayout,
) -> bool {
    &&& p.id@ == id
    &&& p.chassis_type@ == "Component"@
    &&& p.manufacturer matches Some(m) && m@ == manufacturer
    &&& p.part_number matches Some(n) && n@ == part_number
    &&& p.model matches Some(m) && m@ == model
    &&& p.serial_number matches Some(s) && s@ == serial
    &&& p.sensor_layout == Some(layout)
    &&& p.assembly_serial is None
    &&& p.power_supplies is None
}

/// A component with the given identity, which lists no functions.
pub open spec fn component_fields(
    c: ComponentPlan,
    chassis_id: Seq<char>,
    id: Seq<char>,
    manufacturer: Seq<char>,
    model: Seq<char>,
    part_number: Seq<char>,
    serial: Seq<char>,
) -> bool {
    &&& c.chassis_id@ == chassis_id
    &&& c.id@ == id
    &&& opt_is(c.manufacturer, manufacturer)
    &&& opt_is(c.model, model)
    &&& opt_is(c.part_number, part_number)
    &&& opt_is(c.serial_number, serial)
    &&& c.functions is None
}

/// A component with the given identity, no functions and no status.
pub open spec fn component_is(
    c: ComponentPlan,
    chassis_id: Seq<char>,
    id: Seq<char>,
    manufacturer: Seq<char>,
    model: Seq<char>,
    part_number: Seq<char>,
    serial: Seq<char>,
) -> bool {
    &&& component_fields(c, chassis_id, id, manufacturer, model, part_number, serial)
    &&& !c.status_ok
}

/// A component-type chassis with nothing else set.
fn component_chassis(
    id: String,
    manufacturer: &str,
    part_number: &str,
    model: &str,
    serial: &String,
    layout: SensorLayout,
) -> (p: ChassisPlan)
    ensures
        plain_chassis(p, id@, manufacturer@, part_number@, model@, serial@, layout),
        p.pcie_devices is None,
        p.network_adapters is None,
{
    ChassisPlan {
        id,
        chassis_type: String::from_str("Component"),
        manufacturer: Some(String::from_str(manufacturer)),
        part_number: Some(String::from_str(part_number)),
        model: Some(String::from_str(model)),
        serial_number: Some(serial.clone()),
        sensor_layout: Some(layout),
        pcie_devices: None,
        network_adapters: None,
        assembly_serial: None,
        power_supplies: None,
    }
}

/// A Grace-Blackwell compute board: one CPU and two GPUs.
#[derive(Clone, Debug)]
pub struct BiancaBoard {
    pub index: BoardIndex,
    pub cpu_serial_number: String,
    pub gpu_serial_number: String,
}

/// Identifiers of a GPU chassis and of the GPU's PCIe device in it.
#[derive(Clone, Debug)]
pub struct GpuChassisIds {
    pub chassis_id: String,
    pub pcie_device_id: String,
}

/// The PCIe address of GPU `g` on board `b`.
pub open spec fn gpu_pcie_address(b: BoardIndex, g: u8) -> Seq<char> {
    match (b, g) {
        (BoardIndex::Board0, 0) => "00000008:01:00.0"@,
        (BoardIndex::Board0, _) => "00000009:01:00.0"@,
        (BoardIndex::Board1, 0) => "00000018:01:00.0"@,
        (BoardIndex::Board1, _) => "00000019:01:00.0"@,
    }
}

/// The module id of GPU `g` on board `b`.
pub open spec fn gpu_module_id(b: BoardIndex, g: u8) -> u32 {
    match (b, g) {
        (BoardIndex::Board0, 0) => 2,
        (BoardIndex::Board0, _) => 1,
        (BoardIndex::Board1, 0) => 4,
        (BoardIndex::Board1, _) => 3,
    }
}

impl BiancaBoard {
    /// The CPU chassis of the board.
    pub fn hgx_cpu_chassis(&self, id: String) -> (p: ChassisPlan)
        ensures
            plain_chassis(p, id@, "NVIDIA"@, "900-2G548-0001-000"@, "Grace A02P"@, self.cpu_serial_number@,
                layout(2, 3, 2, 0, 0)),
            p.pcie_devices is None,
            p.network_adapters is None,
    {
        component_chassis(id, "NVIDIA", "900-2G548-0001-000", "Grace A02P", &self.cpu_serial_number,
            SensorLayout { temperature: 2, power: 3, leak: 2, fan: 0, current: 0 })
    }

    pub(crate) fn one_gpu_chassis(&self, ids: GpuChassisIds) -> (p: ChassisPlan)
        ensures
            plain_chassis(p, ids.chassis_id@, "NVIDIA"@, "NA"@, "GB200 186GB HBM3e"@, self.gpu_serial_number@,
                layout(3, 2, 1, 0, 0)),
            p.network_adapters is None,
            p.pcie_devices matches Some(d) && d@.len() == 1 && component_is(d@[0], ids.chassis_id@,
                ids.pcie_device_id@, "NVIDIA"@, "GB200 186GB HBM3e"@, "2941-892-A1"@, self.gpu_serial_number@),
    {
        let device = ComponentPlan {
            chassis_id: ids.chassis_id.clone(),
            id: ids.pcie_device_id,
            manufacturer: Some(String::from_str("NVIDIA")),
            model: Some(String::from_str("GB200 186GB HBM3e")),
            part_number: Some(String::from_str("2941-892-A1")),
            serial_number: Some(self.gpu_serial_number.clone()),
            functions: None,
            status_ok: false,
        };
        let mut p = component_chassis(ids.chassis_id, "NVIDIA", "NA", "GB200 186GB HBM3e", &self.gpu_serial_number,
            SensorLayout { temperature: 3, power: 2, leak: 1, fan: 0, current: 0 });
        let mut devices: Vec<ComponentPlan> = Vec::new();
        devices.push(device);
        p.pcie_devices = Some(devices);
        p
    }

    /// The two GPU chassis of the board, each with its GPU as a PCIe device.
    pub fn hgx_gpu_chassis(&self, ids: [GpuChassisIds; 2]) -> (r: [ChassisPlan; 2])
        ensures
            forall|i: int| 0 <= i < 2 ==> (plain_chassis(#[trigger] r@[i], ids@[i].chassis_id@, "NVIDIA"@, "NA"@,
                "GB200 186GB HBM3e"@, self.gpu_serial_number@,
                layout(3, 2, 1, 0, 0))
                && r@[i].network_adapters is None
                && (r@[i].pcie_devices matches Some(d) && d@.len() == 1 && component_is(d@[0],
                    ids@[i].chassis_id@, ids@[i].pcie_device_id@, "NVIDIA"@, "GB200 186GB HBM3e"@,
                    "2941-892-A1"@, self.gpu_serial_number@))),
    {
        let a = self.one_gpu_chassis(GpuChassisIds {
            chassis_id: ids[0].chassis_id.clone(),
            pcie_device_id: ids[0].pcie_device_id.clone(),
        });
        let b = self.one_gpu_chassis(GpuChassisIds {
            chassis_id: ids[1].chassis_id.clone(),
            pcie_device_id: ids[1].pcie_device_id.clone(),
        });
        let r = [a, b];
        assert(r@[0] == a && r@[1] == b);
        r
    }

    /// The PCIe address of the board's GPU `gpu_index` (0 or 1).
    pub fn pcie_address(&self, gpu_index: u8) -> (r: &'static str)
        requires
            gpu_index < 2,
        ensures
            r@ == gpu_pcie_address(self.index, gpu_index),
    {
        match (self.index, gpu_index) {
            (BoardIndex::Board0, 0) => "00000008:01:00.0",
            (BoardIndex::Board0, _) => "00000009:01:00.0",
            (BoardIndex::Board1, 0) => "00000018:01:00.0",
            (BoardIndex::Board1, _) => "00000019:01:00.0",
        }
    }

    /// The module id of the board's GPU `gpu_index` (0 or 1).
    pub fn module_id(&self, gpu_index: u8) -> (r: u32)
        requires
            gpu_index < 2,
        ensures
            r == gpu_module_id(self.index, gpu_index),
    {
        match (self.index, gpu_index) {
            (BoardIndex::Board0, 0) => 2,
            (BoardIndex::Board0, _) => 1,
            (BoardIndex::Board1, 0) => 4,
            (BoardIndex::Board1, _) => 3,
        }
    }
}

/// An I/O board with two ConnectX-7 adapters.
#[derive(Clone, Debug)]
pub struct IoBoard {
    pub index: BoardIndex,
    pub serial_number: String,
}

/// The PCIe domain of adapter `n` on I/O board `b`.
pub open spec fn io_pcie_domain(b: BoardIndex, n: u8) -> u32 {
    match (b, n) {
        (BoardIndex::Board0, 0) => 0x0000,
        (BoardIndex::Board0, _) => 0x0002,
        (BoardIndex::Board1, 0) => 0x0010,
        (BoardIndex::Board1, _) => 0x0012,
    }
}

/// The identifier of adapter `n` of the chassis `id`: `{id}_CX7_{n}`.
pub open spec fn adapter_id(id: Seq<char>, n: nat) -> Seq<char> {
    id + "_CX7_"@ + decimal(n)
}

impl IoBoard {
    /// The chassis of the I/O board, with its two network adapters.
    pub fn as_chassis(&self, id: String) -> (p: ChassisPlan)
        ensures
            plain_chassis(p, id@, "Nvidia"@, "900-24768-0002-000"@, "2x ConnectX-7 Mezz"@, self.serial_number@,
                layout(4, 0, 0, 0, 0)),
            p.pcie_devices matches Some(d) && d@.len() == 0,
            p.network_adapters matches Some(a) && a@.len() == 2
                && forall|n: int| 0 <= n < 2 ==> component_is(#[trigger] a@[n], id@, adapter_id(id@, n as nat),
                    "Nvidia"@, "2x ConnectX-7 Mezz"@, "900-24768-0002-000"@, self.serial_number@),
    {
        let mut adapters: Vec<ComponentPlan> = Vec::new();
        let mut n: u64 = 0;
        while n < 2
            invariant
                n <= 2,
                adapters@.len() == n,
                forall|k: int| 0 <= k < n ==> component_is(#[trigger] adapters@[k], id@, adapter_id(id@, k as nat),
                    "Nvidia"@, "2x ConnectX-7 Mezz"@, "900-24768-0002-000"@, self.serial_number@),
            decreases 2 - n,
        {
            let mut v: Vec<char> = Vec::new();
            extend_str(&mut v, id.as_str());
            extend_str(&mut v, "_CX7_");
            push_decimal(&mut v, n);
            let aid = string_of(&v);
            adapters.push(ComponentPlan {
                chassis_id: id.clone(),
                id: aid,
                manufacturer: Some(String::from_str("Nvidia")),
                model: Some(String::from_str("2x ConnectX-7 Mezz")),
                part_number: Some(String::from_str("900-24768-0002-000")),
                serial_number: Some(self.serial_number.clone()),
                functions: None,
                status_ok: false,
            });
            n = n + 1;
        }
        let mut p = component_chassis(id, "Nvidia", "900-24768-0002-000", "2x ConnectX-7 Mezz", &self.serial_number,
            SensorLayout { temperature: 4, power: 0, leak: 0, fan: 0, current: 0 });
        p.network_adapters = Some(adapters);
        p.pcie_devices = Some(Vec::new());
        p
    }

    /// The NUMA node of the board: its index.
    pub fn numa_node(&self) -> (r: i32)
        ensures
            self.index == BoardIndex::Board0 ==> r == 0,
            self.index == BoardIndex::Board1 ==> r == 1,
    {
        match self.index {
            BoardIndex::Board0 => 0,
            BoardIndex::Board1 => 1,
        }
    }

    /// The PCIe domain of the board's adapter `dev_number` (0 or 1).
    pub fn pcie_domain(&self, dev_number: u8) -> (r: u32)
        requires
            dev_number < 2,
        ensures
            r == io_pcie_domain(self.index, dev_number),
    {
        match (self.index, dev_number) {
            (BoardIndex::Board0, 0) => 0x0000,
            (BoardIndex::Board0, _) => 0x0002,
            (BoardIndex::Board1, 0) => 0x0010,
            (BoardIndex::Board1, _) => 0x0012,
        }
    }
}

/// A GB300 GPU.
#[derive(Clone, Debug)]
pub struct NvidiaGB300Gpu {
    pub serial_number: String,
}

impl NvidiaGB300Gpu {
    /// The chassis of the GPU.
    pub fn as_hgx_chassis(&self, id: String) -> (p: ChassisPlan)
        ensures
            plain_chassis(p, id@, "NVIDIA"@, "SC57C26750"@, "NVIDIA GB300"@, self.serial_number@,
                layout(3, 2, 1, 0, 0)),
            p.pcie_devices is None,
            p.network_adapters is None,
    {
        component_chassis(id, "NVIDIA", "SC57C26750", "NVIDIA GB300", &self.serial_number,
            SensorLayout { temperature: 3, power: 2, leak: 1, fan: 0, current: 0 })
    }
}

/// A GB300 CPU.
#[derive(Clone, Debug)]
pub struct NvidiaGB300Cpu {
    pub serial_number: String,
}

impl NvidiaGB300Cpu {
    /// The chassis of the CPU.
    pub fn as_hgx_chassis(&self, id: String) -> (p: ChassisPlan)
        ensures
            plain_chassis(p, id@, "NVIDIA"@, "900-2G548-0081-000"@, "Grace A02P"@, self.serial_number@,
                layout(2, 5, 2, 0, 0)),
            p.pcie_devices is None,
            p.network_adapters is None,
    {
        component_chassis(id, "NVIDIA", "900-2G548-0081-000", "Grace A02P", &self.serial_number,
            SensorLayout { temperature: 2, power: 5, leak: 2, fan: 0, current: 0 })
    }
}

/// A GB300 I/O board.
#[derive(Clone, Debug)]
pub struct NvidiaGB300IoBoard {
    pub serial_number: String,
}

impl NvidiaGB300IoBoard {
    /// The chassis of the I/O board.
    pub fn as_chassis(&self, id: String) -> (p: ChassisPlan)
        ensures
            plain_chassis(p, id@, "Nvidia"@, "900-9X86E-00CX-ST0           "@, "P4768-B01"@, self.serial_number@,
                layout(8, 0, 0, 0, 0)),
            p.pcie_devices is None,
            p.network_adapters is None,
    {
        component_chassis(id, "Nvidia", "900-9X86E-00CX-ST0           ", "P4768-B01", &self.serial_number,
            SensorLayout { temperature: 8, power: 0, leak: 0, fan: 0, current: 0 })
    }
}

} // verus!
