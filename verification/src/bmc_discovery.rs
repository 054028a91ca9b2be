//! What the host of a mocked machine reports of its hardware during
//! discovery: GPUs, memory, InfiniBand ports and network interfaces, held
//! as plain values.

use vstd::prelude::*;
use crate::bmc_boards::{BiancaBoard, BoardIndex, IoBoard, gpu_module_id, gpu_pcie_address, io_pcie_domain};
use crate::bmc_dell::DellPowerEdgeR750;
use crate::bmc_dgx::NvidiaDgxH100;
use crate::bmc_gb200::{Bluefield3, WiwynnGB200Nvl, part_number_of};
use crate::bmc_lenovo::LenovoGB300Nvl;
use crate::boot_order::mac_text;
use crate::text::{decimal, extend_chars, extend_str, hex_digit_char, hex_digit_char_exec, push_decimal, string_of};

verus! {

/// PCI properties of a discovered device.
#[derive(Clone, Debug)]
pub struct PciPropertiesPlan {
    pub vendor: String,
    pub device: String,
    /// The device's sysfs path.
    pub path: String,
    pub numa_node: i32,
    pub description: Option<String>,
    pub slot: Option<String>,
}

/// A discovered InfiniBand port.
#[derive(Clone, Debug)]
pub struct InfinibandPlan {
    pub pci_properties: Option<PciPropertiesPlan>,
    pub guid: String,
}

/// A discovered network interface.
#[derive(Clone, Debug)]
pub struct NetworkInterfacePlan {
    /// The MAC address as text.
    pub mac_address: String,
    pub pci_properties: Option<PciPropertiesPlan>,
}

/// Where a GPU sits in its rack.
#[derive(Clone, Debug)]
pub struct GpuPlatformPlan {
    pub chassis_serial: String,
    pub slot_number: u32,
    pub tray_index: u32,
    pub host_id: u32,
    pub module_id: u32,
    pub fabric_guid: String,
}

/// A discovered GPU.
#[derive(Clone, Debug)]
pub struct GpuPlan {
    pub name: String,
    pub serial: String,
    pub driver_version: String,
    pub vbios_version: String,
    pub inforom_version: String,
    pub total_memory: String,
    pub frequency: String,
    pub pci_bus_id: String,
    pub platform_info: Option<GpuPlatformPlan>,
}

/// A discovered memory device.
#[derive(Clone, Debug)]
pub struct MemoryPlan {
    pub size_mb: Option<u32>,
    pub mem_type: Option<String>,
}

/// The CPU architecture a host reports.
#[derive(Clone, Copy, Debug, PartialEq, Eq, Structural)]
pub enum CpuArch {
    Aarch64,
    X86_64,
}

/// A discovered CPU model.
#[derive(Clone, Debug)]
pub struct CpuPlan {
    pub model: String,
    pub vendor: String,
    pub sockets: u32,
    pub cores: u32,
    pub threads: u32,
}

/// A discovered block device.
#[derive(Clone, Debug)]
pub struct BlockDevicePlan {
    pub model: String,
    pub revision: String,
    pub serial: String,
    pub device_type: String,
}

/// A discovered NVMe device.
#[derive(Clone, Debug)]
pub struct NvmeDevicePlan {
    pub model: String,
    pub firmware_rev: String,
    pub serial: String,
}

/// The DMI data a host reports.
#[derive(Clone, Debug)]
pub struct DmiPlan {
    pub board_name: String,
    pub board_version: String,
    pub bios_version: String,
    pub bios_date: String,
    pub product_serial: String,
    pub board_serial: String,
    pub chassis_serial: String,
    pub product_name: String,
    pub sys_vendor: String,
}

/// What a DPU reports of itself.
#[derive(Clone, Debug)]
pub struct DpuDataPlan {
    pub part_number: String,
    pub part_description: String,
    pub product_version: String,
    pub factory_mac_address: String,
    pub firmware_version: String,
    pub firmware_date: String,
}

/// Everything a host reports of its hardware during discovery.
#[derive(Clone, Debug)]
pub struct DiscoveryPlan {
    pub network_interfaces: Vec<NetworkInterfacePlan>,
    pub infiniband_interfaces: Vec<InfinibandPlan>,
    pub cpu_info: Vec<CpuPlan>,
    pub block_devices: Vec<BlockDevicePlan>,
    /// The machine's architecture, when it reports one.
    pub arch: Option<CpuArch>,
    pub nvme_devices: Vec<NvmeDevicePlan>,
    pub dmi_data: Option<DmiPlan>,
    pub dpu_info: Option<DpuDataPlan>,
    pub gpus: Vec<GpuPlan>,
    pub memory_devices: Vec<MemoryPlan>,
}

/// The two lower-case hexadecimal digits of a byte.
pub open spec fn hex2(b: u8) -> Seq<char> {
    seq![hex_digit_char((b / 16) as int), hex_digit_char((b % 16) as int)]
}

fn push_hex2(v: &mut Vec<char>, b: u8)
    ensures
        final(v)@ == old(v)@ + hex2(b),
{
    v.push(hex_digit_char_exec(b / 16));
    v.push(hex_digit_char_exec(b % 16));
    assert(v@ =~= old(v)@ + hex2(b));
}

/// Whether an optional text is the given one.
pub open spec fn opt_text(o: Option<String>, t: Seq<char>) -> bool {
    o matches Some(s) && s@ == t
}

/// The PCI properties of a ConnectX-7 InfiniBand port.
pub open spec fn cx7_properties_are(p: PciPropertiesPlan, path: Seq<char>, numa_node: i32, slot: Seq<char>) -> bool {
    &&& p.vendor@ == "Mellanox Technologies"@
    &&& p.device@ == "MT2910 Family [ConnectX-7]"@
    &&& p.path@ == path
    &&& p.numa_node == numa_node
    &&& opt_text(p.description, "MT2910 Family [ConnectX-7]"@)
    &&& opt_text(p.slot, slot)
}

fn cx7_properties(path: String, numa_node: i32, slot: String) -> (p: PciPropertiesPlan)
    ensures
        cx7_properties_are(p, path@, numa_node, slot@),
{
    PciPropertiesPlan {
        vendor: String::from_str("Mellanox Technologies"),
        device: String::from_str("MT2910 Family [ConnectX-7]"),
        path,
        numa_node,
        description: Some(String::from_str("MT2910 Family [ConnectX-7]")),
        slot: Some(slot),
    }
}

// ---------------------------------------------------------------- records

/// A CPU record with the given fields.
pub open spec fn cpu_is(c: CpuPlan, model: Seq<char>, vendor: Seq<char>, sockets: u32, cores: u32, threads: u32) -> bool {
    c.model@ == model && c.vendor@ == vendor && c.sockets == sockets && c.cores == cores && c.threads == threads
}

fn cpu(model: &str, vendor: &str, sockets: u32, cores: u32, threads: u32) -> (c: CpuPlan)
    ensures
        cpu_is(c, model@, vendor@, sockets, cores, threads),
{
    CpuPlan { model: String::from_str(model), vendor: String::from_str(vendor), sockets, cores, threads }
}

/// A block device record with the given fields.
pub open spec fn block_is(b: BlockDevicePlan, model: Seq<char>, revision: Seq<char>, serial: Seq<char>, device_type: Seq<char>) -> bool {
    b.model@ == model && b.revision@ == revision && b.serial@ == serial && b.device_type@ == device_type
}

/// An NVMe device record with the given fields.
pub open spec fn nvme_is(d: NvmeDevicePlan, model: Seq<char>, firmware_rev: Seq<char>, serial: Seq<char>) -> bool {
    d.model@ == model && d.firmware_rev@ == firmware_rev && d.serial@ == serial
}

/// A memory record with the given size and type.
pub open spec fn memory_is(m: MemoryPlan, size_mb: u32, mem_type: Seq<char>) -> bool {
    m.size_mb == Some(size_mb) && opt_text(m.mem_type, mem_type)
}

/// DMI data with the given fields.
pub open spec fn dmi_is(
    d: DmiPlan,
    board_name: Seq<char>,
    board_version: Seq<char>,
    bios_version: Seq<char>,
    bios_date: Seq<char>,
    product_serial: Seq<char>,
    board_serial: Seq<char>,
    chassis_serial: Seq<char>,
    product_name: Seq<char>,
    sys_vendor: Seq<char>,
) -> bool {
    &&& d.board_name@ == board_name && d.board_version@ == board_version
    &&& d.bios_version@ == bios_version && d.bios_date@ == bios_date
    &&& d.product_serial@ == product_serial && d.board_serial@ == board_serial
    &&& d.chassis_serial@ == chassis_serial && d.product_name@ == product_name && d.sys_vendor@ == sys_vendor
}

fn numbered(prefix: &str, n: u64) -> (s: String)
    ensures
        s@ == prefix@ + decimal(n as nat),
{
    let mut v: Vec<char> = Vec::new();
    extend_str(&mut v, prefix);
    push_decimal(&mut v, n);
    string_of(&v)
}

/// Appends `count` block devices whose serials are `prefix` and their
/// number, counted from zero.
fn push_numbered_blocks(r: &mut Vec<BlockDevicePlan>, count: u64, model: &str, revision: &str, prefix: &str, device_type: &str)
    requires
        old(r)@.len() + count <= usize::MAX,
    ensures
        final(r)@.len() == old(r)@.len() + count,
        final(r)@.subrange(0, old(r)@.len() as int) == old(r)@,
        forall|k: int| old(r)@.len() <= k < final(r)@.len() ==> block_is(#[trigger] final(r)@[k], model@, revision@,
            prefix@ + decimal((k - old(r)@.len()) as nat), device_type@),
{
    let ghost start = r@;
    let mut n: u64 = 0;
    while n < count
        invariant
            n <= count,
            r@.len() == start.len() + n,
            start.len() + count <= usize::MAX,
            r@.subrange(0, start.len() as int) == start,
            forall|k: int| start.len() <= k < r@.len() ==> block_is(#[trigger] r@[k], model@, revision@,
                prefix@ + decimal((k - start.len()) as nat), device_type@),
        decreases count - n,
    {
        r.push(BlockDevicePlan {
            model: String::from_str(model),
            revision: String::from_str(revision),
            serial: numbered(prefix, n),
            device_type: String::from_str(device_type),
        });
        assert(r@.subrange(0, start.len() as int) =~= start);
        n = n + 1;
    }
}

/// Appends `count` NVMe devices whose serials are `prefix` and their
/// number, counted from zero.
fn push_numbered_nvmes(r: &mut Vec<NvmeDevicePlan>, count: u64, model: &str, firmware_rev: &str, prefix: &str)
    requires
        old(r)@.len() + count <= usize::MAX,
    ensures
        final(r)@.len() == old(r)@.len() + count,
        final(r)@.subrange(0, old(r)@.len() as int) == old(r)@,
        forall|k: int| old(r)@.len() <= k < final(r)@.len() ==> nvme_is(#[trigger] final(r)@[k], model@, firmware_rev@,
            prefix@ + decimal((k - old(r)@.len()) as nat)),
{
    let ghost start = r@;
    let mut n: u64 = 0;
    while n < count
        invariant
            n <= count,
            r@.len() == start.len() + n,
            start.len() + count <= usize::MAX,
            r@.subrange(0, start.len() as int) == start,
            forall|k: int| start.len() <= k < r@.len() ==> nvme_is(#[trigger] r@[k], model@, firmware_rev@,
                prefix@ + decimal((k - start.len()) as nat)),
        decreases count - n,
    {
        r.push(NvmeDevicePlan {
            model: String::from_str(model),
            firmware_rev: String::from_str(firmware_rev),
            serial: numbered(prefix, n),
        });
        assert(r@.subrange(0, start.len() as int) =~= start);
        n = n + 1;
    }
}

/// `count` memory devices of the given size and type.
fn memories(count: u64, size_mb: u32, mem_type: &str) -> (r: Vec<MemoryPlan>)
    requires
        count <= usize::MAX,
    ensures
        r@.len() == count,
        forall|k: int| 0 <= k < count ==> memory_is(#[trigger] r@[k], size_mb, mem_type@),
{
    let mut r: Vec<MemoryPlan> = Vec::new();
    let mut n: u64 = 0;
    while n < count
        invariant
            n <= count <= usize::MAX,
            r@.len() == n,
            forall|k: int| 0 <= k < n ==> memory_is(#[trigger] r@[k], size_mb, mem_type@),
        decreases count - n,
    {
        r.push(MemoryPlan { size_mb: Some(size_mb), mem_type: Some(String::from_str(mem_type)) });
        n = n + 1;
    }
    r
}

// ---------------------------------------------------------------- GB200 boards

/// The serial number of the chassis a GPU reports: `182100000000`, the
/// board index and the GPU index.
pub open spec fn gpu_chassis_serial(b: BoardIndex, g: u8) -> Seq<char> {
    "182100000000"@ + (if b == BoardIndex::Board0 { "0"@ } else { "1"@ }) + decimal(g as nat)
}

/// Whether `p` is how the host reports GPU `g` of `board`.
pub open spec fn gb200_gpu_is(p: GpuPlan, board: BiancaBoard, g: u8) -> bool {
    &&& p.name@ == "NVIDIA GB200"@
    &&& p.serial@ == board.gpu_serial_number@
    &&& p.driver_version@ == "580.126.16"@
    &&& p.vbios_version@ == "97.00.B9.00.76"@
    &&& p.inforom_version@ == "G548.0201.00.06"@
    &&& p.total_memory@ == "189471 MiB"@
    &&& p.frequency@ == "2062 MHz"@
    &&& p.pci_bus_id@ == gpu_pcie_address(board.index, g)
    &&& p.platform_info matches Some(i) && i.chassis_serial@ == gpu_chassis_serial(board.index, g)
        && i.slot_number == 24 && i.tray_index == 14 && i.host_id == 1
        && i.module_id == gpu_module_id(board.index, g)
        && i.fabric_guid@ == "0xfeeeeeeeeeeeee"@ + hex2(g)
}

/// Whether `p` is how the host reports InfiniBand port `n` of I/O board
/// `board`: the port's device name, sysfs path and slot follow the port's
/// PCIe domain.
pub open spec fn gb200_ib_is(p: InfinibandPlan, board: IoBoard, n: u8) -> bool {
    let d = io_pcie_domain(board.index, n);
    let name = if d == 0 { "ibp3s0"@ } else { "ibP"@ + decimal(d as nat) + "p3s0"@ };
    let h = hex2(d as u8);
    &&& p.guid@ == "7c8c09000000000"@ + decimal(n as nat)
    &&& p.pci_properties matches Some(props) && cx7_properties_are(props,
        "/devices/pci"@ + h + ":00/"@ + h + ":00:00.0/"@ + h + ":01:00.0/"@ + h + ":02:00.0/"@ + h
            + ":03:00.0/infiniband/"@ + name,
        if board.index == BoardIndex::Board0 { 0i32 } else { 1i32 },
        decimal(d as nat) + ":03:00.0"@)
}

impl BiancaBoard {
    fn discovered_gpu(&self, g: u8) -> (p: GpuPlan)
        requires
            g < 2,
        ensures
            gb200_gpu_is(p, *self, g),
    {
        let mut serial: Vec<char> = Vec::new();
        extend_str(&mut serial, "182100000000");
        extend_str(&mut serial, self.index.as_str());
        push_decimal(&mut serial, g as u64);
        let mut guid: Vec<char> = Vec::new();
        extend_str(&mut guid, "0xfeeeeeeeeeeeee");
        push_hex2(&mut guid, g);
        GpuPlan {
            name: String::from_str("NVIDIA GB200"),
            serial: self.gpu_serial_number.clone(),
            driver_version: String::from_str("580.126.16"),
            vbios_version: String::from_str("97.00.B9.00.76"),
            inforom_version: String::from_str("G548.0201.00.06"),
            total_memory: String::from_str("189471 MiB"),
            frequency: String::from_str("2062 MHz"),
            pci_bus_id: String::from_str(self.pcie_address(g)),
            platform_info: Some(GpuPlatformPlan {
                chassis_serial: string_of(&serial),
                slot_number: 24,
                tray_index: 14,
                host_id: 1,
                module_id: self.module_id(g),
                fabric_guid: string_of(&guid),
            }),
        }
    }

    /// How the host reports the board's two GPUs.
    pub fn discovery_gpu(&self) -> (r: [GpuPlan; 2])
        ensures
            gb200_gpu_is(r@[0], *self, 0),
            gb200_gpu_is(r@[1], *self, 1),
    {
        [self.discovered_gpu(0), self.discovered_gpu(1)]
    }

    /// How the host reports the board's memory: 480 GiB of LPDDR5.
    pub fn discovery_memory(&self) -> (r: MemoryPlan)
        ensures
            r.size_mb == Some(491520u32),
            opt_text(r.mem_type, "LPDDR5"@),
    {
        MemoryPlan { size_mb: Some(491520), mem_type: Some(String::from_str("LPDDR5")) }
    }
}

impl IoBoard {
    fn discovered_port(&self, n: u8) -> (p: InfinibandPlan)
        requires
            n < 2,
        ensures
            gb200_ib_is(p, *self, n),
    {
        let domain = self.pcie_domain(n);
        let mut name: Vec<char> = Vec::new();
        if domain == 0 {
            extend_str(&mut name, "ibp3s0");
        } else {
            extend_str(&mut name, "ibP");
            push_decimal(&mut name, domain as u64);
            extend_str(&mut name, "p3s0");
        }
        let h = domain as u8;
        let mut path: Vec<char> = Vec::new();
        extend_str(&mut path, "/devices/pci");
        push_hex2(&mut path, h);
        extend_str(&mut path, ":00/");
        push_hex2(&mut path, h);
        extend_str(&mut path, ":00:00.0/");
        push_hex2(&mut path, h);
        extend_str(&mut path, ":01:00.0/");
        push_hex2(&mut path, h);
        extend_str(&mut path, ":02:00.0/");
        push_hex2(&mut path, h);
        extend_str(&mut path, ":03:00.0/infiniband/");
        extend_chars(&mut path, &name);
        let mut slot: Vec<char> = Vec::new();
        push_decimal(&mut slot, domain as u64);
        extend_str(&mut slot, ":03:00.0");
        let mut guid: Vec<char> = Vec::new();
        extend_str(&mut guid, "7c8c09000000000");
        push_decimal(&mut guid, n as u64);
        InfinibandPlan {
            pci_properties: Some(cx7_properties(string_of(&path), self.numa_node(), string_of(&slot))),
            guid: string_of(&guid),
        }
    }

    /// How the host reports the board's two InfiniBand ports.
    pub fn discovery_infiniband(&self) -> (r: [InfinibandPlan; 2])
        ensures
            gb200_ib_is(r@[0], *self, 0),
            gb200_ib_is(r@[1], *self, 1),
    {
        [self.discovered_port(0), self.discovered_port(1)]
    }
}

// ---------------------------------------------------------------- BlueField-3

/// The name of the network controller of a BlueField-3 card.
pub open spec fn bf3_controller() -> Seq<char> {
    "MT43244 BlueField-3 integrated ConnectX-7 network controller"@
}

/// How the host reports the NIC of `card` at the sysfs `path` and PCI `slot`
/// on NUMA node `numa_node`.
pub open spec fn bf3_nic_record_is(r: NetworkInterfacePlan, card: Bluefield3, path: Seq<char>, slot: Seq<char>, numa_node: i32) -> bool {
    &&& r.mac_address@ == mac_text(card.host_mac_address@)
    &&& r.pci_properties matches Some(p) && p.vendor@ == "Mellanox Technologies"@ && p.device@ == bf3_controller()
        && p.path@ == path && p.numa_node == numa_node && opt_text(p.description, bf3_controller())
        && opt_text(p.slot, slot)
}

impl Bluefield3 {
    /// How the host reports the card's NIC, at the sysfs `path` and PCI
    /// `slot` on NUMA node `numa_node`.
    pub fn host_nic_discovery_info(&self, path: &str, slot: &str, numa_node: i32) -> (r: NetworkInterfacePlan)
        ensures
            bf3_nic_record_is(r, *self, path@, slot@, numa_node),
    {
        let mac = crate::boot_order::mac_digits(&self.host_mac_address, ":");
        NetworkInterfacePlan {
            mac_address: string_of(&mac),
            pci_properties: Some(PciPropertiesPlan {
                vendor: String::from_str("Mellanox Technologies"),
                device: String::from_str("MT43244 BlueField-3 integrated ConnectX-7 network controller"),
                path: String::from_str(path),
                numa_node,
                description: Some(String::from_str("MT43244 BlueField-3 integrated ConnectX-7 network controller")),
                slot: Some(String::from_str(slot)),
            }),
        }
    }
}

// ---------------------------------------------------------------- DGX H100

/// The PCI bus of the DGX's InfiniBand port `n` (below eight).
pub open spec fn dgx_ib_bus(n: int) -> u8 {
    if n == 0 { 0x15u8 } else if n == 1 { 0x3du8 } else if n == 2 { 0x4cu8 } else if n == 3 { 0x5bu8 }
    else if n == 4 { 0x97u8 } else if n == 5 { 0xbdu8 } else if n == 6 { 0xcbu8 } else { 0xd9u8 }
}

/// Whether `p` is how the host reports the DGX's InfiniBand port `n`: its
/// bus gives its device name, sysfs path and slot; the first four ports sit
/// on NUMA node 0, the others on node 1.
pub open spec fn dgx_ib_is(p: InfinibandPlan, n: int) -> bool {
    let bus = dgx_ib_bus(n);
    &&& p.guid@ == "94dae0000000000"@ + decimal(n as nat)
    &&& p.pci_properties matches Some(props) && cx7_properties_are(props,
        "/devices/pci0000:"@ + hex2(bus) + "/0000:"@ + hex2(bus) + ":01.0/0000:"@ + hex2((bus + 1) as u8)
            + ":00.0/0000:"@ + hex2((bus + 2) as u8) + ":00.0/0000:"@ + hex2((bus + 3) as u8)
            + ":00.0/infiniband/ibp"@ + decimal(bus as nat) + "s0"@,
        if n < 4 { 0i32 } else { 1i32 },
        "0000:"@ + hex2((bus + 3) as u8) + ":00.0"@)
}

fn dgx_ib_port(n: u64, bus: u8, numa_node: i32) -> (p: InfinibandPlan)
    requires
        n < 8,
        bus == dgx_ib_bus(n as int),
        numa_node == (if n < 4 { 0i32 } else { 1i32 }),
    ensures
        dgx_ib_is(p, n as int),
{
    let mut path: Vec<char> = Vec::new();
    extend_str(&mut path, "/devices/pci0000:");
    push_hex2(&mut path, bus);
    extend_str(&mut path, "/0000:");
    push_hex2(&mut path, bus);
    extend_str(&mut path, ":01.0/0000:");
    push_hex2(&mut path, bus + 1);
    extend_str(&mut path, ":00.0/0000:");
    push_hex2(&mut path, bus + 2);
    extend_str(&mut path, ":00.0/0000:");
    push_hex2(&mut path, bus + 3);
    extend_str(&mut path, ":00.0/infiniband/ibp");
    push_decimal(&mut path, bus as u64);
    extend_str(&mut path, "s0");
    let mut slot: Vec<char> = Vec::new();
    extend_str(&mut slot, "0000:");
    push_hex2(&mut slot, bus + 3);
    extend_str(&mut slot, ":00.0");
    let mut guid: Vec<char> = Vec::new();
    extend_str(&mut guid, "94dae0000000000");
    push_decimal(&mut guid, n);
    InfinibandPlan {
        pci_properties: Some(cx7_properties(string_of(&path), numa_node, string_of(&slot))),
        guid: string_of(&guid),
    }
}

impl NvidiaDgxH100 {
    /// How the host reports the InfiniBand ports of the two ConnectX-7
    /// cards, port by port.
    pub fn discovery_info_ib_interfaces(&self) -> (r: Vec<InfinibandPlan>)
        ensures
            r@.len() == 8,
            forall|n: int| 0 <= n < 8 ==> dgx_ib_is(#[trigger] r@[n], n),
    {
        let buses: [u8; 8] = [0x15, 0x3d, 0x4c, 0x5b, 0x97, 0xbd, 0xcb, 0xd9];
        let mut r: Vec<InfinibandPlan> = Vec::new();
        let mut n: usize = 0;
        while n < 8
            invariant
                n <= 8,
                buses@ == seq![0x15u8, 0x3du8, 0x4cu8, 0x5bu8, 0x97u8, 0xbdu8, 0xcbu8, 0xd9u8],
                r@.len() == n,
                forall|k: int| 0 <= k < n ==> dgx_ib_is(#[trigger] r@[k], k),
            decreases 8 - n,
        {
            let numa: i32 = if n < 4 { 0 } else { 1 };
            r.push(dgx_ib_port(n as u64, buses[n], numa));
            n = n + 1;
        }
        r
    }
}

// ---------------------------------------------------------------- whole machines

impl Bluefield3 {
    /// What the card's own OS reports of its hardware.
    pub fn discovery_info(&self) -> (r: DiscoveryPlan)
        ensures
            r.network_interfaces@.len() == 0 && r.infiniband_interfaces@.len() == 0,
            r.cpu_info@.len() == 1 && cpu_is(r.cpu_info@[0], "Cortex-A78AE"@, "ARM"@, 1, 16, 16),
            r.block_devices@.len() == 4
                && block_is(r.block_devices@[0], "KBG40ZPZ128G TOSHIBA MEMORY"@, "AEGA0103"@, "FAKESERNUM0"@, "disk"@)
                && forall|k: int| 1 <= k < 4 ==> block_is(#[trigger] r.block_devices@[k], "NO_MODEL"@,
                    "NO_REVISION"@, "NO_SERIAL"@, "disk"@),
            r.arch == Some(CpuArch::Aarch64),
            r.nvme_devices@.len() == 0,
            r.dmi_data matches Some(d) && dmi_is(d, "Bluefield-3 DPU"@, "AG"@, "4.13.0-26-g337fea6bfd"@,
                "Nov  3 2025"@, self.product_serial_number@, "Unspecified Base Board Serial Number"@,
                "Unspecified Chassis Board Serial Number"@, "BlueField-3 DPU"@, "Nvidia"@),
            r.dpu_info matches Some(i) && i.part_number@ == part_number_of(self.mode)
                && i.part_description@ == "NVIDIA Bluefield-3 "@ + part_number_of(self.mode)
                && i.product_version@ == self.firmware_versions.dpu_nic@
                && i.factory_mac_address@ == mac_text(self.host_mac_address@)
                && i.firmware_version@ == self.firmware_versions.dpu_nic@ && i.firmware_date@ == "11.11.2025"@,
            r.gpus@.len() == 0 && r.memory_devices@.len() == 0,
    {
        let mut cpus: Vec<CpuPlan> = Vec::new();
        cpus.push(cpu("Cortex-A78AE", "ARM", 1, 16, 16));
        let mut blocks: Vec<BlockDevicePlan> = Vec::new();
        blocks.push(BlockDevicePlan {
            model: String::from_str("KBG40ZPZ128G TOSHIBA MEMORY"),
            revision: String::from_str("AEGA0103"),
            serial: String::from_str("FAKESERNUM0"),
            device_type: String::from_str("disk"),
        });
        let mut k: usize = 1;
        while k < 4
            invariant
                1 <= k <= 4,
                blocks@.len() == k,
                block_is(blocks@[0], "KBG40ZPZ128G TOSHIBA MEMORY"@, "AEGA0103"@, "FAKESERNUM0"@, "disk"@),
                forall|j: int| 1 <= j < k ==> block_is(#[trigger] blocks@[j], "NO_MODEL"@, "NO_REVISION"@,
                    "NO_SERIAL"@, "disk"@),
            decreases 4 - k,
        {
            blocks.push(BlockDevicePlan {
                model: String::from_str("NO_MODEL"),
                revision: String::from_str("NO_REVISION"),
                serial: String::from_str("NO_SERIAL"),
                device_type: String::from_str("disk"),
            });
            k = k + 1;
        }
        let part = self.part_number();
        let mut description: Vec<char> = Vec::new();
        extend_str(&mut description, "NVIDIA Bluefield-3 ");
        extend_str(&mut description, part);
        let mac = crate::boot_order::mac_digits(&self.host_mac_address, ":");
        DiscoveryPlan {
            network_interfaces: Vec::new(),
            infiniband_interfaces: Vec::new(),
            cpu_info: cpus,
            block_devices: blocks,
            arch: Some(CpuArch::Aarch64),
            nvme_devices: Vec::new(),
            dmi_data: Some(DmiPlan {
                board_name: String::from_str("Bluefield-3 DPU"),
                board_version: String::from_str("AG"),
                bios_version: String::from_str("4.13.0-26-g337fea6bfd"),
                bios_date: String::from_str("Nov  3 2025"),
                product_serial: self.product_serial_number.clone(),
                board_serial: String::from_str("Unspecified Base Board Serial Number"),
                chassis_serial: String::from_str("Unspecified Chassis Board Serial Number"),
                product_name: String::from_str("BlueField-3 DPU"),
                sys_vendor: String::from_str("Nvidia"),
            }),
            dpu_info: Some(DpuDataPlan {
                part_number: String::from_str(part),
                part_description: string_of(&description),
                product_version: self.firmware_versions.dpu_nic.clone(),
                factory_mac_address: string_of(&mac),
                firmware_version: self.firmware_versions.dpu_nic.clone(),
                firmware_date: String::from_str("11.11.2025"),
            }),
            gpus: Vec::new(),
            memory_devices: Vec::new(),
        }
    }
}

impl LenovoGB300Nvl {
    /// What the tray's host reports of its hardware: nothing yet.
    pub fn discovery_info(&self) -> (r: DiscoveryPlan)
        ensures
            r.network_interfaces@.len() == 0 && r.infiniband_interfaces@.len() == 0,
            r.cpu_info@.len() == 0 && r.block_devices@.len() == 0 && r.arch is None,
            r.nvme_devices@.len() == 0 && r.dmi_data is None && r.dpu_info is None,
            r.gpus@.len() == 0 && r.memory_devices@.len() == 0,
    {
        DiscoveryPlan {
            network_interfaces: Vec::new(),
            infiniband_interfaces: Vec::new(),
            cpu_info: Vec::new(),
            block_devices: Vec::new(),
            arch: None,
            nvme_devices: Vec::new(),
            dmi_data: None,
            dpu_info: None,
            gpus: Vec::new(),
            memory_devices: Vec::new(),
        }
    }
}

impl WiwynnGB200Nvl {
    /// What the tray's host reports of its hardware. `dpu_nics` are the
    /// records the host NICs of the two DPUs give of themselves at PCI
    /// slots 0x0603 and 0x1603.
    pub fn discovery_info(&self, dpu_nics: Vec<NetworkInterfacePlan>) -> (r: DiscoveryPlan)
        ensures
            r.network_interfaces@ == dpu_nics@,
            r.infiniband_interfaces@.len() == 4 && gb200_ib_is(r.infiniband_interfaces@[0], self.io_board@[0], 0)
                && gb200_ib_is(r.infiniband_interfaces@[1], self.io_board@[0], 1)
                && gb200_ib_is(r.infiniband_interfaces@[2], self.io_board@[1], 0)
                && gb200_ib_is(r.infiniband_interfaces@[3], self.io_board@[1], 1),
            r.cpu_info@.len() == 1 && cpu_is(r.cpu_info@[0], "Neoverse-V2"@, "ARM"@, 2, 72, 72),
            r.block_devices@.len() == 9 && forall|k: int| 0 <= k < 9 ==> block_is(#[trigger] r.block_devices@[k],
                "SAMSUNG MZTL63T8HFLT-00AW7"@, "LDDL4U2Q"@, "BDFAKESERNUM"@ + decimal(k as nat), "disk"@),
            r.arch == Some(CpuArch::Aarch64),
            r.nvme_devices@.len() == 9 && forall|k: int| 0 <= k < 9 ==> nvme_is(#[trigger] r.nvme_devices@[k],
                "SAMSUNG MZTL63T8HFLT-00AW7"@, "LDDL4U2Q"@, "BDFAKESERNUM"@ + decimal(k as nat)),
            r.dmi_data matches Some(d) && dmi_is(d, "KINABALU BMC CARD"@, "PVT"@, "00000083"@, "20260107"@,
                self.chassis_serial_number@, self.chassis_serial_number@, self.chassis_serial_number@,
                "GB200 NVL"@, "NVIDIA"@),
            r.dpu_info is None,
            r.gpus@.len() == 4 && gb200_gpu_is(r.gpus@[0], self.compute_board@[0], 0)
                && gb200_gpu_is(r.gpus@[1], self.compute_board@[0], 1)
                && gb200_gpu_is(r.gpus@[2], self.compute_board@[1], 0)
                && gb200_gpu_is(r.gpus@[3], self.compute_board@[1], 1),
            r.memory_devices@.len() == 2 && memory_is(r.memory_devices@[0], 491520, "LPDDR5"@)
                && memory_is(r.memory_devices@[1], 491520, "LPDDR5"@),
    {
        let mut ib: Vec<InfinibandPlan> = Vec::new();
        ib.push(self.io_board[0].discovered_port(0));
        ib.push(self.io_board[0].discovered_port(1));
        ib.push(self.io_board[1].discovered_port(0));
        ib.push(self.io_board[1].discovered_port(1));
        let mut cpus: Vec<CpuPlan> = Vec::new();
        cpus.push(cpu("Neoverse-V2", "ARM", 2, 72, 72));
        let mut blocks: Vec<BlockDevicePlan> = Vec::new();
        push_numbered_blocks(&mut blocks, 9, "SAMSUNG MZTL63T8HFLT-00AW7", "LDDL4U2Q", "BDFAKESERNUM", "disk");
        let mut nvmes: Vec<NvmeDevicePlan> = Vec::new();
        push_numbered_nvmes(&mut nvmes, 9, "SAMSUNG MZTL63T8HFLT-00AW7", "LDDL4U2Q", "BDFAKESERNUM");
        let mut gpus: Vec<GpuPlan> = Vec::new();
        gpus.push(self.compute_board[0].discovered_gpu(0));
        gpus.push(self.compute_board[0].discovered_gpu(1));
        gpus.push(self.compute_board[1].discovered_gpu(0));
        gpus.push(self.compute_board[1].discovered_gpu(1));
        let mut memory: Vec<MemoryPlan> = Vec::new();
        memory.push(self.compute_board[0].discovery_memory());
        memory.push(self.compute_board[1].discovery_memory());
        DiscoveryPlan {
            network_interfaces: dpu_nics,
            infiniband_interfaces: ib,
            cpu_info: cpus,
            block_devices: blocks,
            arch: Some(CpuArch::Aarch64),
            nvme_devices: nvmes,
            dmi_data: Some(DmiPlan {
                board_name: String::from_str("KINABALU BMC CARD"),
                board_version: String::from_str("PVT"),
                bios_version: String::from_str("00000083"),
                bios_date: String::from_str("20260107"),
                product_serial: self.chassis_serial_number.clone(),
                board_serial: self.chassis_serial_number.clone(),
                chassis_serial: self.chassis_serial_number.clone(),
                product_name: String::from_str("GB200 NVL"),
                sys_vendor: String::from_str("NVIDIA"),
            }),
            dpu_info: None,
            gpus,
            memory_devices: memory,
        }
    }
}

impl DellPowerEdgeR750 {
    /// What the server's host reports of its hardware. `nic_records` are
    /// the records the slot NICs give of themselves, in slot order.
    pub fn discovery_info(&self, nic_records: Vec<NetworkInterfacePlan>) -> (r: DiscoveryPlan)
        ensures
            r.network_interfaces@ == nic_records@,
            r.infiniband_interfaces@.len() == 0,
            r.cpu_info@.len() == 1 && cpu_is(r.cpu_info@[0], "Intel(R) Xeon(R) Gold 6354 CPU @ 3.00GHz"@,
                "GenuineIntel"@, 2, 18, 36),
            r.block_devices@.len() == 2 && forall|k: int| 0 <= k < 2 ==> block_is(#[trigger] r.block_devices@[k],
                "Dell Ent NVMe v2 AGN RI U.2 1.92TB"@, "2.3.0"@, "FAKESERNUM"@ + decimal(k as nat), ""@),
            r.arch == Some(CpuArch::X86_64),
            r.nvme_devices@.len() == 0,
            r.dmi_data matches Some(d) && dmi_is(d, "01J4WF"@, "A05"@, "1.13.2"@, "12/19/2023"@,
                self.product_serial_number@, "."@ + self.product_serial_number@ + ".FAKESERNUM2."@,
                self.product_serial_number@, "PowerEdge R750"@,
                crate::bmc_mock::udev_dmi_vendor(crate::bmc_mock::BmcVendor::Dell)),
            r.dpu_info is None && r.gpus@.len() == 0,
            r.memory_devices@.len() == 8 && forall|k: int| 0 <= k < 8 ==> memory_is(#[trigger] r.memory_devices@[k],
                16384, "DDR4"@),
    {
        let mut cpus: Vec<CpuPlan> = Vec::new();
        cpus.push(cpu("Intel(R) Xeon(R) Gold 6354 CPU @ 3.00GHz", "GenuineIntel", 2, 18, 36));
        let mut blocks: Vec<BlockDevicePlan> = Vec::new();
        push_numbered_blocks(&mut blocks, 2, "Dell Ent NVMe v2 AGN RI U.2 1.92TB", "2.3.0", "FAKESERNUM", "");
        let mut board_serial: Vec<char> = Vec::new();
        extend_str(&mut board_serial, ".");
        extend_str(&mut board_serial, self.product_serial_number.as_str());
        extend_str(&mut board_serial, ".FAKESERNUM2.");
        DiscoveryPlan {
            network_interfaces: nic_records,
            infiniband_interfaces: Vec::new(),
            cpu_info: cpus,
            block_devices: blocks,
            arch: Some(CpuArch::X86_64),
            nvme_devices: Vec::new(),
            dmi_data: Some(DmiPlan {
                board_name: String::from_str("01J4WF"),
                board_version: String::from_str("A05"),
                bios_version: String::from_str("1.13.2"),
                bios_date: String::from_str("12/19/2023"),
                product_serial: self.product_serial_number.clone(),
                board_serial: string_of(&board_serial),
                chassis_serial: self.product_serial_number.clone(),
                product_name: String::from_str("PowerEdge R750"),
                sys_vendor: String::from_str(crate::bmc_mock::bmc_vendor_to_udev_dmi(crate::bmc_mock::BmcVendor::Dell)),
            }),
            dpu_info: None,
            gpus: Vec::new(),
            memory_devices: memories(8, 16384, "DDR4"),
        }
    }
}

/// The PCI bus id of the DGX's GPU `n` (below eight).
pub open spec fn dgx_gpu_bus_id(n: int) -> Seq<char> {
    if n == 0 { "00000000:1B:00.0"@ } else if n == 1 { "00000000:43:00.0"@ } else if n == 2 { "00000000:52:00.0"@ }
    else if n == 3 { "00000000:61:00.0"@ } else if n == 4 { "00000000:9D:00.0"@ } else if n == 5 { "00000000:C3:00.0"@ }
    else if n == 6 { "00000000:D1:00.0"@ } else { "00000000:DF:00.0"@ }
}

fn dgx_gpu_bus_id_text(n: usize) -> (r: &'static str)
    requires
        n < 8,
    ensures
        r@ == dgx_gpu_bus_id(n as int),
{
    if n == 0 { "00000000:1B:00.0" } else if n == 1 { "00000000:43:00.0" } else if n == 2 { "00000000:52:00.0" }
    else if n == 3 { "00000000:61:00.0" } else if n == 4 { "00000000:9D:00.0" } else if n == 5 { "00000000:C3:00.0" }
    else if n == 6 { "00000000:D1:00.0" } else { "00000000:DF:00.0" }
}

/// Whether `p` is how the host reports the DGX's GPU `n` with serial `serial`.
pub open spec fn dgx_gpu_is(p: GpuPlan, n: int, serial: Seq<char>) -> bool {
    &&& p.name@ == "NVIDIA H100 80GB HBM3"@
    &&& p.serial@ == serial
    &&& p.driver_version@ == "580.126.16"@
    &&& p.vbios_version@ == "96.00.A5.00.01"@
    &&& p.inforom_version@ == "G520.0200.00.05"@
    &&& p.total_memory@ == "81559 MiB"@
    &&& p.frequency@ == "1980 MHz"@
    &&& p.pci_bus_id@ == dgx_gpu_bus_id(n)
    &&& p.platform_info is None
}

/// The sysfs path of the DGX's DPU NIC.
pub const DGX_DPU_NIC_PATH: &'static str = "/devices/pci0000:80/0000:80:05.0/0000:82:00.0/net/ens6np0";

impl NvidiaDgxH100 {
    /// What the system's host reports of its hardware. `mgmt_record` is
    /// the record the management NIC gives of itself, and `storage_port0`
    /// and `storage_port1` those the two ports of the first storage card give.
    pub fn discovery_info(
        &self,
        mgmt_record: NetworkInterfacePlan,
        storage_port0: NetworkInterfacePlan,
        storage_port1: NetworkInterfacePlan,
    ) -> (r: DiscoveryPlan)
        ensures
            r.network_interfaces@.len() == 4 && r.network_interfaces@[0] == mgmt_record
                && r.network_interfaces@[1] == storage_port0 && r.network_interfaces@[2] == storage_port1
                && bf3_nic_record_is(r.network_interfaces@[3], self.dpu, DGX_DPU_NIC_PATH@, "0000:82:00.0"@, 0),
            r.infiniband_interfaces@.len() == 8
                && forall|n: int| 0 <= n < 8 ==> dgx_ib_is(#[trigger] r.infiniband_interfaces@[n], n),
            r.cpu_info@.len() == 1 && cpu_is(r.cpu_info@[0], "Intel(R) Xeon(R) Platinum 8480CL"@, "GenuineIntel"@, 2,
                56, 112),
            r.block_devices@.len() == 10
                && (forall|k: int| 0 <= k < 2 ==> block_is(#[trigger] r.block_devices@[k],
                    "Micron_7450_MTFDKBG1T9TFR"@, "E2MU200"@, "MicronFAKESERNUM"@ + decimal(k as nat), "disk"@))
                && (forall|k: int| 2 <= k < 10 ==> block_is(#[trigger] r.block_devices@[k], "KCM6DRUL3T84"@,
                    "0107"@, "KCMFAKESERNUM"@ + decimal((k - 2) as nat), "disk"@)),
            r.arch == Some(CpuArch::X86_64),
            r.nvme_devices@.len() == 10
                && (forall|k: int| 0 <= k < 2 ==> nvme_is(#[trigger] r.nvme_devices@[k],
                    "Micron_7450_MTFDKBG1T9TFR"@, "E2MU200"@, "MicronFAKESERNUM"@ + decimal(k as nat)))
                && (forall|k: int| 2 <= k < 10 ==> nvme_is(#[trigger] r.nvme_devices@[k], "KCM6DRUL3T84"@,
                    "0107"@, "KCMFAKESERNUM"@ + decimal((k - 2) as nat))),
            r.dmi_data matches Some(d) && dmi_is(d, "DGXH100"@, "555.07L01.0001"@, "1.6.7"@, "02/20/2025"@,
                self.dgx_system_serial_number@, self.dgx_system_serial_number@ + ".FAKESERNUM1"@,
                self.dgx_chassis_serial_number@, "DGXH100"@, "NVIDIA"@),
            r.dpu_info is None,
            r.gpus@.len() == 8 && forall|n: int| 0 <= n < 8 ==> dgx_gpu_is(#[trigger] r.gpus@[n], n,
                self.gpu_serial@[n]@),
            r.memory_devices@.len() == 32 && forall|k: int| 0 <= k < 32 ==> memory_is(
                #[trigger] r.memory_devices@[k], 65536, "DDR5"@),
    {
        let mut net: Vec<NetworkInterfacePlan> = Vec::new();
        net.push(mgmt_record);
        net.push(storage_port0);
        net.push(storage_port1);
        net.push(self.dpu.host_nic_discovery_info(DGX_DPU_NIC_PATH, "0000:82:00.0", 0));
        let mut cpus: Vec<CpuPlan> = Vec::new();
        cpus.push(cpu("Intel(R) Xeon(R) Platinum 8480CL", "GenuineIntel", 2, 56, 112));
        let mut blocks: Vec<BlockDevicePlan> = Vec::new();
        push_numbered_blocks(&mut blocks, 2, "Micron_7450_MTFDKBG1T9TFR", "E2MU200", "MicronFAKESERNUM", "disk");
        let ghost micron = blocks@;
        push_numbered_blocks(&mut blocks, 8, "KCM6DRUL3T84", "0107", "KCMFAKESERNUM", "disk");
        assert forall|k: int| 0 <= k < 2 implies block_is(#[trigger] blocks@[k], "Micron_7450_MTFDKBG1T9TFR"@,
            "E2MU200"@, "MicronFAKESERNUM"@ + decimal(k as nat), "disk"@) by {
            assert(blocks@.subrange(0, 2)[k] == micron[k]);
        }
        let mut nvmes: Vec<NvmeDevicePlan> = Vec::new();
        push_numbered_nvmes(&mut nvmes, 2, "Micron_7450_MTFDKBG1T9TFR", "E2MU200", "MicronFAKESERNUM");
        let ghost micron_nvme = nvmes@;
        push_numbered_nvmes(&mut nvmes, 8, "KCM6DRUL3T84", "0107", "KCMFAKESERNUM");
        assert forall|k: int| 0 <= k < 2 implies nvme_is(#[trigger] nvmes@[k], "Micron_7450_MTFDKBG1T9TFR"@,
            "E2MU200"@, "MicronFAKESERNUM"@ + decimal(k as nat)) by {
            assert(nvmes@.subrange(0, 2)[k] == micron_nvme[k]);
        }
        let mut gpus: Vec<GpuPlan> = Vec::new();
        let mut n: usize = 0;
        while n < 8
            invariant
                n <= 8,
                gpus@.len() == n,
                forall|k: int| 0 <= k < n ==> dgx_gpu_is(#[trigger] gpus@[k], k, self.gpu_serial@[k]@),
            decreases 8 - n,
        {
            gpus.push(GpuPlan {
                name: String::from_str("NVIDIA H100 80GB HBM3"),
                serial: self.gpu_serial[n].clone(),
                driver_version: String::from_str("580.126.16"),
                vbios_version: String::from_str("96.00.A5.00.01"),
                inforom_version: String::from_str("G520.0200.00.05"),
                total_memory: String::from_str("81559 MiB"),
                frequency: String::from_str("1980 MHz"),
                pci_bus_id: String::from_str(dgx_gpu_bus_id_text(n)),
                platform_info: None,
            });
            n = n + 1;
        }
        let mut board_serial: Vec<char> = Vec::new();
        extend_str(&mut board_serial, self.dgx_system_serial_number.as_str());
        extend_str(&mut board_serial, ".FAKESERNUM1");
        DiscoveryPlan {
            network_interfaces: net,
            infiniband_interfaces: self.discovery_info_ib_interfaces(),
            cpu_info: cpus,
            block_devices: blocks,
            arch: Some(CpuArch::X86_64),
            nvme_devices: nvmes,
            dmi_data: Some(DmiPlan {
                board_name: String::from_str("DGXH100"),
                board_version: String::from_str("555.07L01.0001"),
                bios_version: String::from_str("1.6.7"),
                bios_date: String::from_str("02/20/2025"),
                product_serial: self.dgx_system_serial_number.clone(),
                board_serial: string_of(&board_serial),
                chassis_serial: self.dgx_chassis_serial_number.clone(),
                product_name: String::from_str("DGXH100"),
                sys_vendor: String::from_str("NVIDIA"),
            }),
            dpu_info: None,
            gpus,
            memory_devices: memories(32, 65536, "DDR5"),
        }
    }
}

} // verus!
