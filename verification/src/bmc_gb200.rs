//! The mocked Wiwynn GB200 NVL compute tray and the BlueField-3 cards it
//! carries: chassis, managers, computer systems and firmware inventories.

use vstd::prelude::*;
use crate::bmc_boards::{
    BiancaBoard, ChassisPlan, ComponentPlan, GpuChassisIds, IoBoard, SensorLayout, adapter_id, component_fields, component_is,
    layout, opt_is, plain_chassis,
};
use crate::bmc_attrs::{AttrValue, opt_seq};
use crate::bmc_plans::{
    BiosMode, BootOptionKind, BootOptionPlan, BootOrderMode, EthInterfacePlan, ManagerPlan, SystemOem, SystemPlan,
    attr_is_text, enabled_eth, enabled_eth_plan, plain_boot_option, text_attr,
};
use crate::bmc_redfish::{Resource, host_interfaces_path, manager_resource};
use crate::boot_order::{hex_pair, mac_compact, mac_digits};
use crate::text::{extend_str, string_of};

verus! {

/// The product a BlueField-3 card is.
#[derive(Clone, Copy, Debug, PartialEq, Eq, Structural)]
pub enum Mode {
    /// The cold-aisle B3240 card of Wiwynn GB200 and Lenovo GB300 trays.
    B3240ColdAisle,
    /// A SuperNIC, set up to run in NIC mode or in DPU mode.
    SuperNIC { nic_mode: bool },
}

/// Firmware versions a BlueField-3 card reports.
#[derive(Clone, Debug)]
pub struct FirmwareVersions {
    pub bmc: String,
    pub uefi: String,
    pub dpu_nic: String,
    pub erot: String,
}

/// A BlueField-3 card.
#[derive(Clone, Debug)]
pub struct Bluefield3 {
    pub product_serial_number: String,
    pub host_mac_address: [u8; 6],
    pub bmc_mac_address: [u8; 6],
    pub oob_mac_address: Option<[u8; 6]>,
    pub mode: Mode,
    pub firmware_versions: FirmwareVersions,
}

/// The part number of a card: a SuperNIC meant for NIC mode carries a
/// SuperNIC part number, one meant for DPU mode a DPU part number.
pub open spec fn part_number_of(m: Mode) -> Seq<char> {
    match m {
        Mode::B3240ColdAisle => "900-9D3B6-00CN-PA0"@,
        Mode::SuperNIC { nic_mode: true } => "900-9D3B4-00CC-EA0"@,
        Mode::SuperNIC { nic_mode: false } => "900-9D3B6-00CV-AA0"@,
    }
}

/// The ordering part number of a card.
pub open spec fn opn_of(m: Mode) -> Seq<char> {
    match m {
        Mode::B3240ColdAisle => "9009D3B600CNAB"@,
        Mode::SuperNIC { nic_mode: true } => "9009D3B400CCEA"@,
        Mode::SuperNIC { nic_mode: false } => "9009D3B600CVAA"@,
    }
}

/// The serial number the host sees for the card's NIC: the product serial
/// followed by seventeen spaces.
pub open spec fn nic_serial(product_serial: Seq<char>) -> Seq<char> {
    product_serial + "                 "@
}

/// The DPU system image version: the base MAC's digits grouped as
/// `aabb:cc00:00dd:eeff`.
pub open spec fn sys_image_version(mac: Seq<u8>) -> Seq<char> {
    let d = mac_compact(mac);
    d.subrange(0, 4) + ":"@ + d.subrange(4, 6) + "00:00"@ + d.subrange(6, 8) + ":"@ + d.subrange(8, 12)
}

/// A firmware inventory as plain values.
pub open spec fn inventory_view(v: Seq<(String, String)>) -> Seq<(Seq<char>, Seq<char>)> {
    v.map_values(|e: (String, String)| (e.0@, e.1@))
}

pub(crate) fn push_entry(v: &mut Vec<(String, String)>, id: &str, version: &str)
    ensures
        inventory_view(final(v)@) == inventory_view(old(v)@).push((id@, version@)),
{
    v.push((String::from_str(id), String::from_str(version)));
    assert(inventory_view(v@) =~= inventory_view(old(v)@).push((id@, version@)));
}

impl Bluefield3 {
    /// The card's part number.
    pub fn part_number(&self) -> (r: &'static str)
        ensures
            r@ == part_number_of(self.mode),
    {
        match self.mode {
            Mode::B3240ColdAisle => "900-9D3B6-00CN-PA0",
            Mode::SuperNIC { nic_mode: true } => "900-9D3B4-00CC-EA0",
            Mode::SuperNIC { nic_mode: false } => "900-9D3B6-00CV-AA0",
        }
    }

    /// The card's ordering part number.
    pub fn opn(&self) -> (r: &'static str)
        ensures
            r@ == opn_of(self.mode),
    {
        match self.mode {
            Mode::B3240ColdAisle => "9009D3B600CNAB",
            Mode::SuperNIC { nic_mode: true } => "9009D3B400CCEA",
            Mode::SuperNIC { nic_mode: false } => "9009D3B600CVAA",
        }
    }

    /// The firmware inventory of the card's BMC.
    pub fn update_service_config(&self) -> (r: Vec<(String, String)>)
        ensures
            inventory_view(r@) == seq![
                ("DPU_SYS_IMAGE"@, sys_image_version(self.host_mac_address@)),
                ("BMC_Firmware"@, self.firmware_versions.bmc@),
                ("Bluefield_FW_ERoT"@, self.firmware_versions.erot@),
                ("DPU_UEFI"@, self.firmware_versions.uefi@),
                ("DPU_NIC"@, self.firmware_versions.dpu_nic@),
            ],
    {
        let d = mac_digits(&self.host_mac_address, "");
        assert(d@.len() == 12) by {
            crate::boot_order::lemma_mac_compact_len(self.host_mac_address@);
        }
        let mut s: Vec<char> = Vec::new();
        let mut i: usize = 0;
        while i < 12
            invariant
                d@.len() == 12,
                i <= 12,
                s@ == (if i <= 4 {
                    d@.subrange(0, i as int)
                } else if i <= 6 {
                    d@.subrange(0, 4) + ":"@ + d@.subrange(4, i as int)
                } else if i <= 8 {
                    d@.subrange(0, 4) + ":"@ + d@.subrange(4, 6) + "00:00"@ + d@.subrange(6, i as int)
                } else {
                    d@.subrange(0, 4) + ":"@ + d@.subrange(4, 6) + "00:00"@ + d@.subrange(6, 8) + ":"@
                        + d@.subrange(8, i as int)
                }),
            decreases 12 - i,
        {
            if i == 4 {
                extend_str(&mut s, ":");
            } else if i == 6 {
                extend_str(&mut s, "00:00");
            } else if i == 8 {
                extend_str(&mut s, ":");
            }
            s.push(d[i]);
            i = i + 1;
        }
        let mut r: Vec<(String, String)> = Vec::new();
        let img = string_of(&s);
        r.push((String::from_str("DPU_SYS_IMAGE"), img));
        assert(inventory_view(r@) =~= seq![("DPU_SYS_IMAGE"@, sys_image_version(self.host_mac_address@))]);
        push_entry(&mut r, "BMC_Firmware", self.firmware_versions.bmc.as_str());
        push_entry(&mut r, "Bluefield_FW_ERoT", self.firmware_versions.erot.as_str());
        push_entry(&mut r, "DPU_UEFI", self.firmware_versions.uefi.as_str());
        push_entry(&mut r, "DPU_NIC", self.firmware_versions.dpu_nic.as_str());
        r
    }
}

/// The Wiwynn GB200 NVL compute tray.
#[derive(Clone, Debug)]
pub struct WiwynnGB200Nvl {
    pub system_serial_number: String,
    pub chassis_serial_number: String,
    pub compute_board: [BiancaBoard; 2],
    pub dpu1: Bluefield3,
    pub dpu2: Bluefield3,
    pub io_board: [IoBoard; 2],
}

/// Whether a chassis has exactly the given identity fields.
pub open spec fn chassis_head(
    p: ChassisPlan,
    id: Seq<char>,
    chassis_type: Seq<char>,
    manufacturer: Seq<char>,
    part_number: Seq<char>,
    model: Seq<char>,
) -> bool {
    &&& p.id@ == id
    &&& p.chassis_type@ == chassis_type
    &&& p.manufacturer matches Some(m) && m@ == manufacturer
    &&& p.part_number matches Some(n) && n@ == part_number
    &&& p.model matches Some(m) && m@ == model
}

/// The chassis of a BlueField-3 card in a riser slot: one network adapter,
/// the card's host NIC.
pub open spec fn dpu_chassis_is(p: ChassisPlan, id: Seq<char>, card: Bluefield3) -> bool {
    &&& chassis_head(p, id, "Card"@, "Mellanox Technologies"@, part_number_of(card.mode), "GB200 NVL"@)
    &&& p.serial_number is None
    &&& p.sensor_layout is None
    &&& p.assembly_serial is None
    &&& p.power_supplies is None
    &&& p.pcie_devices matches Some(d) && d@.len() == 0
    &&& p.network_adapters matches Some(a) && a@.len() == 1 && a@[0].status_ok && component_fields(
        a@[0],
        id,
        id,
        "Mellanox Technologies"@,
        "BlueField-3 SmartNIC Main Card"@,
        part_number_of(card.mode),
        nic_serial(card.product_serial_number@),
    )
}

fn dpu_chassis(id: &str, card: &Bluefield3) -> (p: ChassisPlan)
    ensures
        dpu_chassis_is(p, id@, *card),
{
    let mut serial: Vec<char> = Vec::new();
    extend_str(&mut serial, card.product_serial_number.as_str());
    extend_str(&mut serial, "                 ");
    let adapter = ComponentPlan {
        chassis_id: String::from_str(id),
        id: String::from_str(id),
        manufacturer: Some(String::from_str("Mellanox Technologies")),
        model: Some(String::from_str("BlueField-3 SmartNIC Main Card")),
        part_number: Some(String::from_str(card.part_number())),
        serial_number: Some(string_of(&serial)),
        functions: None,
        status_ok: true,
    };
    let mut adapters: Vec<ComponentPlan> = Vec::new();
    adapters.push(adapter);
    ChassisPlan {
        id: String::from_str(id),
        chassis_type: String::from_str("Card"),
        manufacturer: Some(String::from_str("Mellanox Technologies")),
        part_number: Some(String::from_str(card.part_number())),
        model: Some(String::from_str("GB200 NVL")),
        serial_number: None,
        sensor_layout: None,
        pcie_devices: Some(Vec::new()),
        network_adapters: Some(adapters),
        assembly_serial: None,
        power_supplies: None,
    }
}

/// The firmware inventory of the tray's BMC.
pub open spec fn wiwynn_firmware() -> Seq<(Seq<char>, Seq<char>)> {
    seq![
        ("FW_BMC_0"@, "25.06-2_NV_WW_02"@),
        ("FW_BMC_1"@, "    "@),
        ("FW_CPLD_0"@, "0x00 0x0b 0x03 0x04"@),
        ("FW_ERoT_AP_CFG_0"@, "0128"@),
        ("NIC_0"@, "32.47.1026"@),
        ("TPM_Firmware"@, "15.23"@),
        ("UEFI"@, "02.04.12-dde0f655"@),
        ("HGX_FW_BMC_0"@, "GB200Nvl-25.06-A"@),
        ("HGX_FW_CPLD_0"@, "0.22"@),
        ("HGX_FW_CPU_0"@, "00000082"@),
        ("HGX_FW_ERoT_BMC_0"@, "01.04.0031.0000_n04"@),
    ]
}

impl WiwynnGB200Nvl {
    /// Sensors of the tray's main chassis.
    pub fn sensor_layout() -> (l: SensorLayout)
        ensures
            l == layout(40, 10, 4, 10, 10),
    {
        SensorLayout { temperature: 40, power: 10, leak: 4, fan: 10, current: 10 }
    }

    /// The tray's two managers: its own BMC, with the host USB interface
    /// enabled, and the HGX BMC.
    pub fn manager_config(&self) -> (r: Vec<ManagerPlan>)
        ensures
            r@.len() == 2,
            r@[0].id@ == "BMC_0"@,
            r@[0].eth_interfaces matches Some(e) && e@.len() == 0,
            r@[0].host_interfaces matches Some(h) && h@.len() == 1 && h@[0].1 && h@[0].0.id@
                == "hostusb0"@ && h@[0].0.odata_id@ == host_interfaces_path("BMC_0"@) + "/"@
                + "hostusb0"@,
            r@[0].firmware_version matches Some(v) && v@ == "25.06-2_NV_WW_02"@,
            r@[1].id@ == "HGX_BMC_0"@,
            r@[1].eth_interfaces matches Some(e) && e@.len() == 0,
            r@[1].host_interfaces is None,
            r@[1].firmware_version matches Some(v) && v@ == "GB200Nvl-25.06-A"@,
            !r@[0].dell_oem && !r@[1].dell_oem,
    {
        let mut ifaces: Vec<(Resource, bool)> = Vec::new();
        ifaces.push((manager_resource("BMC_0", "hostusb0"), true));
        let bmc = ManagerPlan {
            id: String::from_str("BMC_0"),
            eth_interfaces: Some(Vec::new()),
            host_interfaces: Some(ifaces),
            firmware_version: Some(String::from_str("25.06-2_NV_WW_02")),
            dell_oem: false,
        };
        let hgx = ManagerPlan {
            id: String::from_str("HGX_BMC_0"),
            eth_interfaces: Some(Vec::new()),
            host_interfaces: None,
            firmware_version: Some(String::from_str("GB200Nvl-25.06-A")),
            dell_oem: false,
        };
        let mut r: Vec<ManagerPlan> = Vec::new();
        r.push(bmc);
        r.push(hgx);
        r
    }

    /// The firmware inventory of the tray's BMC.
    pub fn update_service_config(&self) -> (r: Vec<(String, String)>)
        ensures
            inventory_view(r@) == wiwynn_firmware(),
    {
        let mut r: Vec<(String, String)> = Vec::new();
        assert(inventory_view(r@) =~= Seq::empty());
        push_entry(&mut r, "FW_BMC_0", "25.06-2_NV_WW_02");
        push_entry(&mut r, "FW_BMC_1", "    ");
        push_entry(&mut r, "FW_CPLD_0", "0x00 0x0b 0x03 0x04");
        push_entry(&mut r, "FW_ERoT_AP_CFG_0", "0128");
        push_entry(&mut r, "NIC_0", "32.47.1026");
        push_entry(&mut r, "TPM_Firmware", "15.23");
        push_entry(&mut r, "UEFI", "02.04.12-dde0f655");
        push_entry(&mut r, "HGX_FW_BMC_0", "GB200Nvl-25.06-A");
        push_entry(&mut r, "HGX_FW_CPLD_0", "0.22");
        push_entry(&mut r, "HGX_FW_CPU_0", "00000082");
        push_entry(&mut r, "HGX_FW_ERoT_BMC_0", "01.04.0031.0000_n04");
        assert(inventory_view(r@) =~= wiwynn_firmware());
        r
    }
}

impl WiwynnGB200Nvl {
    /// The tray's chassis, in order: the BMC module, the rack-mount
    /// chassis, the compute-board controllers `cbc` (built from the rack
    /// topology), the two CPU and four GPU chassis of the compute boards,
    /// the two I/O boards, and the two BlueField-3 riser cards.
    pub fn chassis_config(&self, cbc: Vec<ChassisPlan>) -> (r: Vec<ChassisPlan>)
        ensures
            r@.len() == cbc@.len() + 12,
            chassis_head(r@[0], "BMC_0"@, "Module"@, "WIWYNN"@, "B81.11810.0005"@, "GB200 NVL"@),
            r@[0].pcie_devices matches Some(d) && d@.len() == 0,
            r@[0].network_adapters is None && r@[0].serial_number is None && r@[0].sensor_layout is None
                && r@[0].assembly_serial is None && r@[0].power_supplies is None,
            chassis_head(r@[1], "Chassis_0"@, "RackMount"@, "NVIDIA"@, "B81.11810.000D"@, "GB200 NVL"@),
            r@[1].sensor_layout == Some(layout(40, 10, 4, 10, 10)),
            r@[1].assembly_serial matches Some(s) && s@ == self.chassis_serial_number@,
            r@[1].pcie_devices is None && r@[1].network_adapters is None && r@[1].serial_number is None
                && r@[1].power_supplies is None,
            r@.subrange(2, 2 + cbc@.len() as int) == cbc@,
            plain_chassis(r@[2 + cbc@.len() as int], "HGX_CPU_0"@, "NVIDIA"@, "900-2G548-0001-000"@, "Grace A02P"@,
                self.compute_board@[0].cpu_serial_number@, layout(2, 3, 2, 0, 0)),
            plain_chassis(r@[3 + cbc@.len() as int], "HGX_CPU_1"@, "NVIDIA"@, "900-2G548-0001-000"@, "Grace A02P"@,
                self.compute_board@[1].cpu_serial_number@, layout(2, 3, 2, 0, 0)),
            plain_chassis(r@[4 + cbc@.len() as int], "HGX_GPU_0"@, "NVIDIA"@, "NA"@, "GB200 186GB HBM3e"@,
                self.compute_board@[0].gpu_serial_number@, layout(3, 2, 1, 0, 0)),
            plain_chassis(r@[5 + cbc@.len() as int], "HGX_GPU_1"@, "NVIDIA"@, "NA"@, "GB200 186GB HBM3e"@,
                self.compute_board@[0].gpu_serial_number@, layout(3, 2, 1, 0, 0)),
            plain_chassis(r@[6 + cbc@.len() as int], "HGX_GPU_2"@, "NVIDIA"@, "NA"@, "GB200 186GB HBM3e"@,
                self.compute_board@[1].gpu_serial_number@, layout(3, 2, 1, 0, 0)),
            plain_chassis(r@[7 + cbc@.len() as int], "HGX_GPU_3"@, "NVIDIA"@, "NA"@, "GB200 186GB HBM3e"@,
                self.compute_board@[1].gpu_serial_number@, layout(3, 2, 1, 0, 0)),
            r@[4 + cbc@.len() as int].pcie_devices matches Some(d) && d@.len() == 1 && component_is(d@[0],
                "HGX_GPU_0"@, "GPU_0"@, "NVIDIA"@, "GB200 186GB HBM3e"@, "2941-892-A1"@,
                self.compute_board@[0].gpu_serial_number@),
            r@[5 + cbc@.len() as int].pcie_devices matches Some(d) && d@.len() == 1 && component_is(d@[0],
                "HGX_GPU_1"@, "GPU_1"@, "NVIDIA"@, "GB200 186GB HBM3e"@, "2941-892-A1"@,
                self.compute_board@[0].gpu_serial_number@),
            r@[6 + cbc@.len() as int].pcie_devices matches Some(d) && d@.len() == 1 && component_is(d@[0],
                "HGX_GPU_2"@, "GPU_2"@, "NVIDIA"@, "GB200 186GB HBM3e"@, "2941-892-A1"@,
                self.compute_board@[1].gpu_serial_number@),
            r@[7 + cbc@.len() as int].pcie_devices matches Some(d) && d@.len() == 1 && component_is(d@[0],
                "HGX_GPU_3"@, "GPU_3"@, "NVIDIA"@, "GB200 186GB HBM3e"@, "2941-892-A1"@,
                self.compute_board@[1].gpu_serial_number@),
            plain_chassis(r@[8 + cbc@.len() as int], "IO_Board_0"@, "Nvidia"@, "900-24768-0002-000"@,
                "2x ConnectX-7 Mezz"@, self.io_board@[0].serial_number@, layout(4, 0, 0, 0, 0)),
            plain_chassis(r@[9 + cbc@.len() as int], "IO_Board_1"@, "Nvidia"@, "900-24768-0002-000"@,
                "2x ConnectX-7 Mezz"@, self.io_board@[1].serial_number@, layout(4, 0, 0, 0, 0)),
            r@[8 + cbc@.len() as int].network_adapters matches Some(a) && a@.len() == 2 && forall|n: int|
                0 <= n < 2 ==> component_is(#[trigger] a@[n], "IO_Board_0"@, adapter_id("IO_Board_0"@, n as nat),
                "Nvidia"@, "2x ConnectX-7 Mezz"@, "900-24768-0002-000"@, self.io_board@[0].serial_number@),
            r@[9 + cbc@.len() as int].network_adapters matches Some(a) && a@.len() == 2 && forall|n: int|
                0 <= n < 2 ==> component_is(#[trigger] a@[n], "IO_Board_1"@, adapter_id("IO_Board_1"@, n as nat),
                "Nvidia"@, "2x ConnectX-7 Mezz"@, "900-24768-0002-000"@, self.io_board@[1].serial_number@),
            dpu_chassis_is(r@[10 + cbc@.len() as int], "Riser_Slot1_BlueField_3_Card"@, self.dpu1),
            dpu_chassis_is(r@[11 + cbc@.len() as int], "Riser_Slot2_BlueField_3_Card"@, self.dpu2),
    {
        let n = cbc.len();
        let ghost cbc_v = cbc@;
        let mut r: Vec<ChassisPlan> = Vec::new();
        let mut bmc_pcie: Vec<ComponentPlan> = Vec::new();
        r.push(ChassisPlan {
            id: String::from_str("BMC_0"),
            chassis_type: String::from_str("Module"),
            manufacturer: Some(String::from_str("WIWYNN")),
            part_number: Some(String::from_str("B81.11810.0005")),
            model: Some(String::from_str("GB200 NVL")),
            serial_number: None,
            sensor_layout: None,
            pcie_devices: Some(bmc_pcie),
            network_adapters: None,
            assembly_serial: None,
            power_supplies: None,
        });
        r.push(ChassisPlan {
            id: String::from_str("Chassis_0"),
            chassis_type: String::from_str("RackMount"),
            manufacturer: Some(String::from_str("NVIDIA")),
            part_number: Some(String::from_str("B81.11810.000D")),
            model: Some(String::from_str("GB200 NVL")),
            serial_number: None,
            sensor_layout: Some(Self::sensor_layout()),
            pcie_devices: None,
            network_adapters: None,
            assembly_serial: Some(self.chassis_serial_number.clone()),
            power_supplies: None,
        });
        let mut rest = cbc;
        r.append(&mut rest);
        assert(r@.subrange(2, 2 + n as int) =~= cbc_v);
        let ghost head = r@;
        r.push(self.compute_board[0].hgx_cpu_chassis(String::from_str("HGX_CPU_0")));
        r.push(self.compute_board[1].hgx_cpu_chassis(String::from_str("HGX_CPU_1")));
        r.push(self.compute_board[0].one_gpu_chassis(
            GpuChassisIds { chassis_id: String::from_str("HGX_GPU_0"), pcie_device_id: String::from_str("GPU_0") },
        ));
        r.push(self.compute_board[0].one_gpu_chassis(
            GpuChassisIds { chassis_id: String::from_str("HGX_GPU_1"), pcie_device_id: String::from_str("GPU_1") },
        ));
        r.push(self.compute_board[1].one_gpu_chassis(
            GpuChassisIds { chassis_id: String::from_str("HGX_GPU_2"), pcie_device_id: String::from_str("GPU_2") },
        ));
        r.push(self.compute_board[1].one_gpu_chassis(
            GpuChassisIds { chassis_id: String::from_str("HGX_GPU_3"), pcie_device_id: String::from_str("GPU_3") },
        ));
        r.push(self.io_board[0].as_chassis(String::from_str("IO_Board_0")));
        r.push(self.io_board[1].as_chassis(String::from_str("IO_Board_1")));
        r.push(dpu_chassis("Riser_Slot1_BlueField_3_Card", &self.dpu1));
        r.push(dpu_chassis("Riser_Slot2_BlueField_3_Card", &self.dpu2));
        assert(r@.subrange(2, 2 + n as int) =~= head.subrange(2, 2 + n as int));
        r
    }
}

/// A network card as the host sees it.
#[derive(Clone, Debug)]
pub struct HostNic {
    pub mac_address: [u8; 6],
    pub serial_number: Option<String>,
    pub manufacturer: Option<String>,
    pub model: Option<String>,
    pub description: Option<String>,
    pub part_number: Option<String>,
    pub firmware_version: Option<String>,
    pub is_mat_dpu: bool,
}

/// A component that carries a NIC's manufacturer, model, part number and
/// serial number, at the given chassis and id.
pub open spec fn nic_fields(c: ComponentPlan, chassis_id: Seq<char>, id: Seq<char>, nic: HostNic) -> bool {
    &&& c.chassis_id@ == chassis_id
    &&& c.id@ == id
    &&& opt_seq(c.manufacturer) == opt_seq(nic.manufacturer)
    &&& opt_seq(c.model) == opt_seq(nic.model)
    &&& opt_seq(c.part_number) == opt_seq(nic.part_number)
    &&& opt_seq(c.serial_number) == opt_seq(nic.serial_number)
}

/// A component built from a NIC, with no functions and no status.
pub open spec fn nic_component(c: ComponentPlan, chassis_id: Seq<char>, id: Seq<char>, nic: HostNic) -> bool {
    &&& nic_fields(c, chassis_id, id, nic)
    &&& c.functions is None
    &&& !c.status_ok
}

/// A copy of an optional text.
pub fn clone_opt(o: &Option<String>) -> (r: Option<String>)
    ensures
        opt_seq(r) == opt_seq(*o),
{
    match o {
        Some(s) => Some(s.clone()),
        None => None,
    }
}

/// The component that describes `nic` at `chassis_id` under `id`.
pub fn component_from_nic(chassis_id: &str, id: String, nic: &HostNic) -> (c: ComponentPlan)
    ensures
        nic_component(c, chassis_id@, id@, *nic),
{
    ComponentPlan {
        chassis_id: String::from_str(chassis_id),
        id,
        manufacturer: clone_opt(&nic.manufacturer),
        model: clone_opt(&nic.model),
        part_number: clone_opt(&nic.part_number),
        serial_number: clone_opt(&nic.serial_number),
        functions: None,
        status_ok: false,
    }
}

fn with_suffix(a: &str, b: &str) -> (r: String)
    ensures
        r@ == a@ + b@,
{
    let mut v: Vec<char> = Vec::new();
    extend_str(&mut v, a);
    extend_str(&mut v, b);
    string_of(&v)
}

impl Bluefield3 {
    /// Sensors of the card's chassis.
    pub fn sensor_layout() -> (l: SensorLayout)
        ensures
            l == layout(4, 3, 0, 4, 3),
    {
        SensorLayout { temperature: 4, power: 3, leak: 0, fan: 4, current: 3 }
    }

    /// The card's NIC as a host with a BlueField-3 SmartNIC sees it.
    pub fn host_nic(&self) -> (n: HostNic)
        ensures
            n.mac_address == self.host_mac_address,
            opt_is(n.serial_number, nic_serial(self.product_serial_number@)),
            opt_is(n.manufacturer, "Mellanox Technologies"@),
            opt_is(n.model, "BlueField-3 SmartNIC Main Card"@),
            opt_is(n.description, "MT43244 BlueField-3 integrated ConnectX-7 network controller"@),
            opt_is(n.part_number, part_number_of(self.mode)),
            opt_is(n.firmware_version, self.firmware_versions.dpu_nic@),
            n.is_mat_dpu,
    {
        HostNic {
            mac_address: self.host_mac_address,
            serial_number: Some(with_suffix(self.product_serial_number.as_str(), "                 ")),
            manufacturer: Some(String::from_str("Mellanox Technologies")),
            model: Some(String::from_str("BlueField-3 SmartNIC Main Card")),
            description: Some(String::from_str("MT43244 BlueField-3 integrated ConnectX-7 network controller")),
            part_number: Some(String::from_str(self.part_number())),
            firmware_version: Some(self.firmware_versions.dpu_nic.clone()),
            is_mat_dpu: true,
        }
    }

    /// The card's NIC as a DGX H100 host sees it.
    pub fn host_nic_h100_variant(&self) -> (n: HostNic)
        ensures
            n.mac_address == self.host_mac_address,
            opt_is(n.serial_number, nic_serial(self.product_serial_number@)),
            opt_is(n.manufacturer, "MLNX"@),
            opt_is(n.model, "D3B6           "@),
            n.description is None,
            opt_is(n.part_number, part_number_of(self.mode) + "       "@),
            opt_is(n.firmware_version, self.firmware_versions.dpu_nic@),
            n.is_mat_dpu,
    {
        HostNic {
            mac_address: self.host_mac_address,
            serial_number: Some(with_suffix(self.product_serial_number.as_str(), "                 ")),
            manufacturer: Some(String::from_str("MLNX")),
            model: Some(String::from_str("D3B6           ")),
            description: None,
            part_number: Some(with_suffix(self.part_number(), "       ")),
            firmware_version: Some(self.firmware_versions.dpu_nic.clone()),
            is_mat_dpu: true,
        }
    }
}

/// A chassis with only an id, a type, a manufacturer and a serial number.
pub open spec fn bare_chassis(p: ChassisPlan, id: Seq<char>, chassis_type: Seq<char>, manufacturer: Seq<char>, serial: Seq<char>) -> bool {
    &&& p.id@ == id
    &&& p.chassis_type@ == chassis_type
    &&& p.manufacturer matches Some(m) && m@ == manufacturer
    &&& p.serial_number matches Some(s) && s@ == serial
    &&& p.part_number is None && p.model is None && p.sensor_layout is None
    &&& p.pcie_devices is None && p.network_adapters is None
    &&& p.assembly_serial is None && p.power_supplies is None
}

/// No components listed, but the lists are present and empty.
pub open spec fn empty_lists(p: ChassisPlan) -> bool {
    &&& p.pcie_devices matches Some(d) && d@.len() == 0
    &&& p.network_adapters matches Some(a) && a@.len() == 0
    &&& p.assembly_serial is None && p.power_supplies is None
}

fn listed_chassis(
    id: &str,
    chassis_type: &str,
    manufacturer: &str,
    part_number: String,
    model: &str,
    serial: String,
    sensors: Option<SensorLayout>,
) -> (p: ChassisPlan)
    ensures
        chassis_head(p, id@, chassis_type@, manufacturer@, part_number@, model@),
        p.serial_number matches Some(s) && s@ == serial@,
        p.sensor_layout == sensors,
        empty_lists(p),
{
    ChassisPlan {
        id: String::from_str(id),
        chassis_type: String::from_str(chassis_type),
        manufacturer: Some(String::from_str(manufacturer)),
        part_number: Some(part_number),
        model: Some(String::from_str(model)),
        serial_number: Some(serial),
        sensor_layout: sensors,
        pcie_devices: Some(Vec::new()),
        network_adapters: Some(Vec::new()),
        assembly_serial: None,
        power_supplies: None,
    }
}

impl Bluefield3 {
    /// The card's chassis: its BMC, its ERoT, its CPU and the card itself.
    pub fn chassis_config(&self) -> (r: Vec<ChassisPlan>)
        ensures
            r@.len() == 4,
            chassis_head(r@[0], "Bluefield_BMC"@, "Component"@, "Nvidia"@, part_number_of(self.mode),
                "BlueField-3 DPU"@),
            r@[0].serial_number matches Some(s) && s@ == self.product_serial_number@,
            r@[0].sensor_layout is None && empty_lists(r@[0]),
            bare_chassis(r@[1], "Bluefield_ERoT"@, "Component"@, "NVIDIA"@, Seq::empty()),
            chassis_head(r@[2], "CPU_0"@, "Component"@, "https://www.mellanox.com"@, "OPN: "@ + opn_of(self.mode),
                "Mellanox BlueField-3 [A1] A78(D42) 16 Cores r0p1"@),
            r@[2].serial_number matches Some(s) && s@ == "Unspecified Serial Number"@,
            r@[2].sensor_layout is None && empty_lists(r@[2]),
            chassis_head(r@[3], "Card1"@, "Card"@, "Nvidia"@, part_number_of(self.mode), "BlueField-3 DPU"@),
            r@[3].serial_number matches Some(s) && s@ == self.product_serial_number@,
            r@[3].sensor_layout == Some(layout(4, 3, 0, 4, 3)) && empty_lists(r@[3]),
    {
        let mut r: Vec<ChassisPlan> = Vec::new();
        r.push(listed_chassis("Bluefield_BMC", "Component", "Nvidia", String::from_str(self.part_number()),
            "BlueField-3 DPU", self.product_serial_number.clone(), None));
        r.push(ChassisPlan {
            id: String::from_str("Bluefield_ERoT"),
            chassis_type: String::from_str("Component"),
            manufacturer: Some(String::from_str("NVIDIA")),
            part_number: None,
            model: None,
            serial_number: Some(String::new()),
            sensor_layout: None,
            pcie_devices: None,
            network_adapters: None,
            assembly_serial: None,
            power_supplies: None,
        });
        r.push(listed_chassis("CPU_0", "Component", "https://www.mellanox.com", with_suffix("OPN: ", self.opn()),
            "Mellanox BlueField-3 [A1] A78(D42) 16 Cores r0p1", String::from_str("Unspecified Serial Number"), None));
        r.push(listed_chassis("Card1", "Card", "Nvidia", String::from_str(self.part_number()), "BlueField-3 DPU",
            self.product_serial_number.clone(), Some(Self::sensor_layout())));
        r
    }

    /// The card's BMC manager, with its enabled Ethernet interface.
    pub fn manager_config(&self) -> (r: Vec<ManagerPlan>)
        ensures
            r@.len() == 1,
            r@[0].id@ == "Bluefield_BMC"@,
            r@[0].host_interfaces is None,
            r@[0].firmware_version matches Some(v) && v@ == "BF-23.10-4"@,
            r@[0].eth_interfaces matches Some(e) && e@.len() == 1 && enabled_eth(e@[0], "eth0"@, self.bmc_mac_address@),
            !r@[0].dell_oem,
    {
        let mut eths: Vec<EthInterfacePlan> = Vec::new();
        eths.push(enabled_eth_plan("eth0", self.bmc_mac_address));
        let mut r: Vec<ManagerPlan> = Vec::new();
        r.push(ManagerPlan {
            id: String::from_str("Bluefield_BMC"),
            eth_interfaces: Some(eths),
            host_interfaces: None,
            firmware_version: Some(String::from_str("BF-23.10-4")),
            dell_oem: false,
        });
        r
    }
}

/// Id of the HTTP boot option of DPU `index` (below 256): `Boot` and the
/// index as four upper-case hexadecimal digits.
pub open spec fn dpu_boot_id(index: u8) -> Seq<char> {
    "Boot"@ + hex_pair(0) + hex_pair(index)
}

/// Display name of the HTTP boot option of the DPU with MAC `mac`.
pub open spec fn dpu_boot_name(mac: Seq<u8>) -> Seq<char> {
    "UEFI HTTPv4 (MAC:"@ + mac_compact(mac) + ")"@
}

/// Device path of the HTTP boot option of the DPU with MAC `mac`.
pub open spec fn dpu_boot_path(mac: Seq<u8>) -> Seq<char> {
    "MAC("@ + mac_compact(mac) + ",0x1)/IPv4(0.0.0.0,0x0,DHCP,0.0.0.0,0.0.0.0,0.0.0.0)/Uri()"@
}

/// Whether a boot option is the HTTP boot option of DPU `index` with MAC `mac`.
pub open spec fn is_dpu_boot_option(o: BootOptionPlan, index: u8, mac: Seq<u8>) -> bool {
    plain_boot_option(o, dpu_boot_id(index), dpu_boot_id(index), Some(BootOptionKind::Network), dpu_boot_name(mac),
        Some(dpu_boot_path(mac)))
}

/// The disk the tray's OS boots from.
pub const UBUNTU_DISK_PATH: &'static str = "HD(1,GPT,C07AA982-7D30-4663-9538-776771BBED85,0x800,0x219800)/\\EFI\\ubuntu\\shimaa64.efi";

fn dpu_boot_option(index: u8, card: &Bluefield3) -> (o: BootOptionPlan)
    ensures
        is_dpu_boot_option(o, index, card.host_mac_address@),
{
    let digits = mac_digits(&card.host_mac_address, "");
    let mut id: Vec<char> = Vec::new();
    extend_str(&mut id, "Boot");
    let hi = crate::boot_order::mac_digits_of_byte(0);
    let lo = crate::boot_order::mac_digits_of_byte(index);
    crate::text::extend_chars(&mut id, &hi);
    crate::text::extend_chars(&mut id, &lo);
    let mut name: Vec<char> = Vec::new();
    extend_str(&mut name, "UEFI HTTPv4 (MAC:");
    crate::text::extend_chars(&mut name, &digits);
    extend_str(&mut name, ")");
    let mut path: Vec<char> = Vec::new();
    extend_str(&mut path, "MAC(");
    crate::text::extend_chars(&mut path, &digits);
    extend_str(&mut path, ",0x1)/IPv4(0.0.0.0,0x0,DHCP,0.0.0.0,0.0.0.0,0.0.0.0)/Uri()");
    BootOptionPlan {
        id: string_of(&id),
        reference: string_of(&id),
        kind: Some(BootOptionKind::Network),
        display_name: string_of(&name),
        alias: None,
        uefi_device_path: Some(string_of(&path)),
        odata_etag: None,
    }
}

impl WiwynnGB200Nvl {
    /// The tray's two systems: the host, which boots from its Ubuntu disk or
    /// over HTTP through either DPU, and the HGX baseboard.
    pub fn system_config(&self) -> (r: Vec<SystemPlan>)
        ensures
            r@.len() == 2,
            r@[0].id@ == "System_0"@,
            opt_is(r@[0].manufacturer, "WIWYNN"@) && opt_is(r@[0].model, "GB200 NVL"@),
            opt_is(r@[0].serial_number, self.system_serial_number@),
            r@[0].chassis@.len() == 1 && r@[0].chassis@[0]@ == "BMC_0"@,
            r@[0].eth_interfaces is None,
            r@[0].boot_options matches Some(b) && b@.len() == 3 && plain_boot_option(b@[0], "Boot0020"@, "Boot0020"@,
                Some(BootOptionKind::Disk), "Ubuntu"@, Some(UBUNTU_DISK_PATH@))
                && is_dpu_boot_option(b@[1], 0, self.dpu1.host_mac_address@)
                && is_dpu_boot_option(b@[2], 1, self.dpu2.host_mac_address@),
            r@[0].bios_attributes matches Some(a) && a@.len() == 1 && attr_is_text(a@[0], "EmbeddedUefiShell"@,
                "Enabled"@),
            r@[0].bios_odata_context is None,
            r@[0].secure_boot_available && r@[0].boot_order_mode == BootOrderMode::ViaSettings,
            r@[0].bios_mode == BiosMode::Generic && r@[0].oem == SystemOem::Generic,
            r@[0].controlled && r@[0].event_log is None && !r@[0].storage_listed,
            r@[1].id@ == "HGX_Baseboard_0"@,
            opt_is(r@[1].manufacturer, "NVIDIA"@) && opt_is(r@[1].model, "GB200 NVL"@),
            r@[1].serial_number is None,
            r@[1].chassis@.len() == 1 && r@[1].chassis@[0]@ == "HGX_Chassis_0"@,
            r@[1].eth_interfaces is None && r@[1].boot_options is None && r@[1].bios_attributes is None,
            r@[1].bios_odata_context is None,
            !r@[1].secure_boot_available && r@[1].boot_order_mode == BootOrderMode::Generic,
            r@[1].bios_mode == BiosMode::Generic && r@[1].oem == SystemOem::Generic,
            !r@[1].controlled && r@[1].event_log is None && !r@[1].storage_listed,
    {
        let mut boot: Vec<BootOptionPlan> = Vec::new();
        boot.push(BootOptionPlan {
            id: String::from_str("Boot0020"),
            reference: String::from_str("Boot0020"),
            kind: Some(BootOptionKind::Disk),
            display_name: String::from_str("Ubuntu"),
            alias: None,
            uefi_device_path: Some(String::from_str(UBUNTU_DISK_PATH)),
            odata_etag: None,
        });
        boot.push(dpu_boot_option(0, &self.dpu1));
        boot.push(dpu_boot_option(1, &self.dpu2));
        let mut bios: Vec<(String, AttrValue)> = Vec::new();
        bios.push(text_attr("EmbeddedUefiShell", "Enabled"));
        let mut host_chassis: Vec<String> = Vec::new();
        host_chassis.push(String::from_str("BMC_0"));
        let mut hgx_chassis: Vec<String> = Vec::new();
        hgx_chassis.push(String::from_str("HGX_Chassis_0"));
        let mut r: Vec<SystemPlan> = Vec::new();
        r.push(SystemPlan {
            id: String::from_str("System_0"),
            manufacturer: Some(String::from_str("WIWYNN")),
            model: Some(String::from_str("GB200 NVL")),
            serial_number: Some(self.system_serial_number.clone()),
            eth_interfaces: None,
            chassis: host_chassis,
            boot_options: Some(boot),
            bios_attributes: Some(bios),
            bios_odata_context: None,
            boot_order_mode: BootOrderMode::ViaSettings,
            bios_mode: BiosMode::Generic,
            oem: SystemOem::Generic,
            controlled: true,
            event_log: None,
            storage_listed: false,
            secure_boot_available: true,
        });
        r.push(SystemPlan {
            id: String::from_str("HGX_Baseboard_0"),
            manufacturer: Some(String::from_str("NVIDIA")),
            model: Some(String::from_str("GB200 NVL")),
            serial_number: None,
            eth_interfaces: None,
            chassis: hgx_chassis,
            boot_options: None,
            bios_attributes: None,
            bios_odata_context: None,
            boot_order_mode: BootOrderMode::Generic,
            bios_mode: BiosMode::Generic,
            oem: SystemOem::Generic,
            controlled: false,
            event_log: None,
            storage_listed: false,
            secure_boot_available: false,
        });
        r
    }
}

/// The disk a BlueField-3 card's own OS boots from.
pub const BLUEFIELD_DISK_PATH: &'static str = "HD(1,GPT,2FAFB38D-05F6-DF41-AE01-F9991E2CC0F0,0x800,0x19000)/\\EFI\\ubuntu\\shimaa64.efi";

/// The mode a card's BIOS reports: `NicMode` for a SuperNIC set up in NIC
/// mode, `DpuMode` otherwise.
pub open spec fn bios_nic_mode(m: Mode) -> Seq<char> {
    if m == (Mode::SuperNIC { nic_mode: true }) {
        "NicMode"@
    } else {
        "DpuMode"@
    }
}

impl Bluefield3 {
    /// The card's own computer system: it boots from its disk, and over
    /// HTTP through its out-of-band port when it has one; its event log
    /// records a completed warm reset.
    pub fn system_config(&self) -> (r: Vec<SystemPlan>)
        ensures
            r@.len() == 1,
            r@[0].id@ == "Bluefield"@,
            opt_is(r@[0].manufacturer, "Nvidia"@) && opt_is(r@[0].model, "BlueField-3 DPU"@),
            opt_is(r@[0].serial_number, self.product_serial_number@),
            r@[0].chassis@.len() == 1 && r@[0].chassis@[0]@ == "Bluefield_BMC"@,
            r@[0].eth_interfaces matches Some(e) && match self.oob_mac_address {
                Some(m) => e@.len() == 1 && e@[0].id@ == "oob_net0"@ && e@[0].mac_address == m
                    && opt_is(e@[0].description, "1G DPU OOB network interface"@) && e@[0].interface_enabled is None,
                None => e@.len() == 0,
            },
            r@[0].boot_options matches Some(b) && plain_boot_option(b@[0], "Boot0040"@, "Boot0040"@,
                Some(BootOptionKind::Disk), "ubuntu0"@, Some(BLUEFIELD_DISK_PATH@)) && match self.oob_mac_address {
                Some(m) => b@.len() == 2 && plain_boot_option(b@[1], "Boot0000"@, "Boot0000"@,
                    Some(BootOptionKind::Network), "NET-OOB-IPV4-HTTP"@, Some(dpu_boot_path(m@))),
                None => b@.len() == 1,
            },
            r@[0].bios_attributes matches Some(a) && a@.len() == 4
                && attr_is_text(a@[0], "NicMode"@, bios_nic_mode(self.mode))
                && attr_is_text(a@[1], "HostPrivilegeLevel"@, "Unavailable"@)
                && attr_is_text(a@[2], "InternalCPUModel"@, "Unavailable"@)
                && attr_is_text(a@[3], "CurrentUefiPassword"@, ""@),
            r@[0].bios_odata_context is None,
            r@[0].boot_order_mode == BootOrderMode::ViaSettings && r@[0].bios_mode == BiosMode::Generic,
            r@[0].oem == SystemOem::NvidiaBluefield,
            r@[0].event_log matches Some(l) && l@.len() == 1 && l@[0]@ == "DPU Warm Reset"@,
            r@[0].controlled && !r@[0].storage_listed && r@[0].secure_boot_available,
    {
        let mut eths: Vec<EthInterfacePlan> = Vec::new();
        let mut boot: Vec<BootOptionPlan> = Vec::new();
        boot.push(BootOptionPlan {
            id: String::from_str("Boot0040"),
            reference: String::from_str("Boot0040"),
            kind: Some(BootOptionKind::Disk),
            display_name: String::from_str("ubuntu0"),
            alias: None,
            uefi_device_path: Some(String::from_str(BLUEFIELD_DISK_PATH)),
            odata_etag: None,
        });
        match self.oob_mac_address {
            Some(mac) => {
                eths.push(EthInterfacePlan {
                    id: String::from_str("oob_net0"),
                    mac_address: mac,
                    description: Some(String::from_str("1G DPU OOB network interface")),
                    interface_enabled: None,
                });
                let digits = mac_digits(&mac, "");
                let mut path: Vec<char> = Vec::new();
                extend_str(&mut path, "MAC(");
                crate::text::extend_chars(&mut path, &digits);
                extend_str(&mut path, ",0x1)/IPv4(0.0.0.0,0x0,DHCP,0.0.0.0,0.0.0.0,0.0.0.0)/Uri()");
                boot.push(BootOptionPlan {
                    id: String::from_str("Boot0000"),
                    reference: String::from_str("Boot0000"),
                    kind: Some(BootOptionKind::Network),
                    display_name: String::from_str("NET-OOB-IPV4-HTTP"),
                    alias: None,
                    uefi_device_path: Some(string_of(&path)),
                    odata_etag: None,
                });
            },
            None => {},
        }
        let nic_mode = match self.mode {
            Mode::SuperNIC { nic_mode: true } => "NicMode",
            _ => "DpuMode",
        };
        let mut bios: Vec<(String, AttrValue)> = Vec::new();
        bios.push(text_attr("NicMode", nic_mode));
        bios.push(text_attr("HostPrivilegeLevel", "Unavailable"));
        bios.push(text_attr("InternalCPUModel", "Unavailable"));
        bios.push(text_attr("CurrentUefiPassword", ""));
        let mut chassis: Vec<String> = Vec::new();
        chassis.push(String::from_str("Bluefield_BMC"));
        let mut log: Vec<String> = Vec::new();
        log.push(String::from_str("DPU Warm Reset"));
        let mut r: Vec<SystemPlan> = Vec::new();
        r.push(SystemPlan {
            id: String::from_str("Bluefield"),
            manufacturer: Some(String::from_str("Nvidia")),
            model: Some(String::from_str("BlueField-3 DPU")),
            serial_number: Some(self.product_serial_number.clone()),
            eth_interfaces: Some(eths),
            chassis,
            boot_options: Some(boot),
            bios_attributes: Some(bios),
            bios_odata_context: None,
            boot_order_mode: BootOrderMode::ViaSettings,
            bios_mode: BiosMode::Generic,
            oem: SystemOem::NvidiaBluefield,
            controlled: true,
            event_log: Some(log),
            storage_listed: false,
            secure_boot_available: true,
        });
        r
    }
}

} // verus!
