//! What an explored BMC is: its hardware family from the service root and
//! system identity, and the mode a BlueField card runs in.

use vstd::prelude::*;
use crate::bmc_attrs::{Attributes, HwType, opt_attr, opt_seq, opt_str_attr, str_value};
use crate::text::str_eq;

verus! {

/// The identity facts the hardware family is decided from.
#[derive(Clone, Debug)]
pub struct IdentityFacts {
    /// Vendor named by the service root.
    pub vendor: Option<String>,
    /// OEM id named by the service root.
    pub oem_id: Option<String>,
    /// Product named by the service root.
    pub product: Option<String>,
    /// Id of the computer system.
    pub system_id: String,
    /// Whether the chassis are those of a Lenovo GB300.
    pub lenovo_gb300_chassis: bool,
    /// Whether the chassis are those of a LiteOn power shelf.
    pub liteon_power_shelf: bool,
}

/// The vendor the decision goes by: the root's vendor, else "Supermicro"
/// when the OEM id says so.
pub open spec fn vendor_id(f: IdentityFacts) -> Option<Seq<char>> {
    match f.vendor {
        Some(v) => Some(v@),
        None => if opt_seq(f.oem_id) == Some("Supermicro"@) {
            Some("Supermicro"@)
        } else {
            None
        },
    }
}

/// The family decided from the vendor alone (with the system, product and
/// chassis where the vendor needs them).
pub open spec fn family_of_vendor(f: IdentityFacts, v: Seq<char>) -> Option<HwType> {
    let product = opt_seq(f.product);
    if v == "AMI"@ {
        if f.system_id@ == "DGX"@ {
            Some(HwType::Viking)
        } else if f.lenovo_gb300_chassis {
            Some(HwType::LenovoGb300)
        } else {
            Some(HwType::Ami)
        }
    } else if v == "Dell"@ {
        Some(HwType::Dell)
    } else if v == "Lenovo"@ {
        if opt_seq(f.oem_id) == Some("Ami"@) {
            Some(HwType::LenovoAmi)
        } else {
            Some(HwType::Lenovo)
        }
    } else if v == "Supermicro"@ {
        Some(HwType::Supermicro)
    } else if v == "HPE"@ {
        Some(HwType::Hpe)
    } else if v == "Nvidia"@ && f.system_id@ == "Bluefield"@ {
        Some(HwType::Bluefield)
    } else if (v == "WIWYNN"@ || v == "NVIDIA"@) && (product == Some("GB200 NVL"@) || product == Some(
        "GB BMC"@,
    )) {
        Some(HwType::Gb200)
    } else if v == "NVIDIA"@ && product == Some("P3809"@) {
        Some(HwType::NvSwitch)
    } else {
        None
    }
}

/// The hardware family: by vendor, else a LiteOn power shelf by its
/// chassis, else unknown.
pub open spec fn hw_type_spec(f: IdentityFacts) -> Option<HwType> {
    let by_vendor = match vendor_id(f) {
        Some(v) => family_of_vendor(f, v),
        None => None,
    };
    match by_vendor {
        Some(h) => Some(h),
        None => if f.liteon_power_shelf {
            Some(HwType::LiteonPowerShelf)
        } else {
            None
        },
    }
}

/// Law: the hardware family follows the vendor the service root names.
/// Dell, HPE and Supermicro vendors are their own families (a root without
/// a vendor whose OEM id is Supermicro counts as Supermicro); a Lenovo
/// vendor is a Lenovo machine, with AMI firmware when the OEM id is Ami; an
/// AMI vendor is a Viking on a DGX system, else a Lenovo GB300 by its
/// chassis, else an AMI machine; an Nvidia vendor on a Bluefield system is
/// a BlueField card; a WIWYNN or NVIDIA vendor with a GB200 NVL or GB BMC
/// product is a GB200 tray, and an NVIDIA P3809 an NVLink switch. A root
/// naming no vendor and no OEM id is a LiteOn power shelf by its chassis,
/// else of no known family. Conversely each of the first families is
/// reported only for its vendor.
pub proof fn lemma_hw_type_by_vendor(f: IdentityFacts)
    ensures
        opt_seq(f.vendor) == Some("Dell"@) ==> hw_type_spec(f) == Some(HwType::Dell),
        opt_seq(f.vendor) == Some("HPE"@) ==> hw_type_spec(f) == Some(HwType::Hpe),
        opt_seq(f.vendor) == Some("Supermicro"@) ==> hw_type_spec(f) == Some(HwType::Supermicro),
        f.vendor is None && opt_seq(f.oem_id) == Some("Supermicro"@) ==> hw_type_spec(f) == Some(HwType::Supermicro),
        opt_seq(f.vendor) == Some("Lenovo"@) ==> hw_type_spec(f) == if opt_seq(f.oem_id) == Some("Ami"@) {
            Some(HwType::LenovoAmi)
        } else {
            Some(HwType::Lenovo)
        },
        opt_seq(f.vendor) == Some("AMI"@) ==> hw_type_spec(f) == if f.system_id@ == "DGX"@ {
            Some(HwType::Viking)
        } else if f.lenovo_gb300_chassis {
            Some(HwType::LenovoGb300)
        } else {
            Some(HwType::Ami)
        },
        opt_seq(f.vendor) == Some("Nvidia"@) && f.system_id@ == "Bluefield"@ ==> hw_type_spec(f) == Some(
            HwType::Bluefield,
        ),
        hw_type_spec(f) == Some(HwType::Dell) ==> opt_seq(f.vendor) == Some("Dell"@),
        hw_type_spec(f) == Some(HwType::Hpe) ==> opt_seq(f.vendor) == Some("HPE"@),
        hw_type_spec(f) == Some(HwType::Supermicro) ==> vendor_id(f) == Some("Supermicro"@),
        hw_type_spec(f) == Some(HwType::Lenovo) || hw_type_spec(f) == Some(HwType::LenovoAmi) ==> opt_seq(f.vendor)
            == Some("Lenovo"@),
        hw_type_spec(f) == Some(HwType::Viking) || hw_type_spec(f) == Some(HwType::Ami) ==> opt_seq(f.vendor) == Some(
            "AMI"@,
        ),
        hw_type_spec(f) == Some(HwType::Bluefield) ==> opt_seq(f.vendor) == Some("Nvidia"@),
        (opt_seq(f.vendor) == Some("WIWYNN"@) || opt_seq(f.vendor) == Some("NVIDIA"@)) && (opt_seq(f.product) == Some(
            "GB200 NVL"@,
        ) || opt_seq(f.product) == Some("GB BMC"@)) ==> hw_type_spec(f) == Some(HwType::Gb200),
        opt_seq(f.vendor) == Some("NVIDIA"@) && opt_seq(f.product) == Some("P3809"@) ==> hw_type_spec(f) == Some(
            HwType::NvSwitch,
        ),
        f.vendor is None && f.oem_id is None && f.liteon_power_shelf ==> hw_type_spec(f) == Some(
            HwType::LiteonPowerShelf,
        ),
        f.vendor is None && f.oem_id is None && !f.liteon_power_shelf ==> hw_type_spec(f) is None,
{
    reveal_strlit("AMI");
    reveal_strlit("Dell");
    reveal_strlit("Lenovo");
    reveal_strlit("Supermicro");
    reveal_strlit("HPE");
    reveal_strlit("Nvidia");
    assert("Dell"@ != "AMI"@) by { assert("Dell"@[0] != "AMI"@[0]); }
    assert("HPE"@ != "AMI"@) by { assert("HPE"@[0] != "AMI"@[0]); }
    assert("HPE"@ != "Dell"@) by { assert("HPE"@[0] != "Dell"@[0]); }
    assert("HPE"@ != "Lenovo"@) by { assert("HPE"@[0] != "Lenovo"@[0]); }
    assert("HPE"@ != "Supermicro"@) by { assert("HPE"@[0] != "Supermicro"@[0]); }
    assert("Supermicro"@ != "AMI"@) by { assert("Supermicro"@[0] != "AMI"@[0]); }
    assert("Supermicro"@ != "Dell"@) by { assert("Supermicro"@[0] != "Dell"@[0]); }
    assert("Supermicro"@ != "Lenovo"@) by { assert("Supermicro"@[0] != "Lenovo"@[0]); }
    assert("Lenovo"@ != "AMI"@) by { assert("Lenovo"@[0] != "AMI"@[0]); }
    assert("Lenovo"@ != "Dell"@) by { assert("Lenovo"@[0] != "Dell"@[0]); }
    assert("Nvidia"@ != "AMI"@) by { assert("Nvidia"@[0] != "AMI"@[0]); }
    assert("Nvidia"@ != "Dell"@) by { assert("Nvidia"@[0] != "Dell"@[0]); }
    assert("Nvidia"@ != "Lenovo"@) by { assert("Nvidia"@[0] != "Lenovo"@[0]); }
    assert("Nvidia"@ != "Supermicro"@) by { assert("Nvidia"@[0] != "Supermicro"@[0]); }
    assert("Nvidia"@ != "HPE"@) by { assert("Nvidia"@[0] != "HPE"@[0]); }
    reveal_strlit("WIWYNN");
    reveal_strlit("NVIDIA");
    reveal_strlit("GB200 NVL");
    reveal_strlit("GB BMC");
    reveal_strlit("P3809");
    assert("P3809"@ != "GB200 NVL"@) by { assert("P3809"@[0] != "GB200 NVL"@[0]); }
    assert("P3809"@ != "GB BMC"@) by { assert("P3809"@[0] != "GB BMC"@[0]); }
    assert("WIWYNN"@ != "AMI"@) by { assert("WIWYNN"@[0] != "AMI"@[0]); }
    assert("WIWYNN"@ != "Dell"@) by { assert("WIWYNN"@[0] != "Dell"@[0]); }
    assert("WIWYNN"@ != "Lenovo"@) by { assert("WIWYNN"@[0] != "Lenovo"@[0]); }
    assert("WIWYNN"@ != "Supermicro"@) by { assert("WIWYNN"@[0] != "Supermicro"@[0]); }
    assert("WIWYNN"@ != "HPE"@) by { assert("WIWYNN"@[0] != "HPE"@[0]); }
    assert("WIWYNN"@ != "Nvidia"@) by { assert("WIWYNN"@[0] != "Nvidia"@[0]); }
    assert("NVIDIA"@ != "AMI"@) by { assert("NVIDIA"@[0] != "AMI"@[0]); }
    assert("NVIDIA"@ != "Dell"@) by { assert("NVIDIA"@[0] != "Dell"@[0]); }
    assert("NVIDIA"@ != "Lenovo"@) by { assert("NVIDIA"@[0] != "Lenovo"@[0]); }
    assert("NVIDIA"@ != "Supermicro"@) by { assert("NVIDIA"@[0] != "Supermicro"@[0]); }
    assert("NVIDIA"@ != "HPE"@) by { assert("NVIDIA"@[0] != "HPE"@[0]); }
    assert("NVIDIA"@ != "Nvidia"@) by { assert("NVIDIA"@[1] != "Nvidia"@[1]); }
}

fn opt_is(o: &Option<String>, s: &str) -> (r: bool)
    ensures
        r == (opt_seq(*o) == Some(s@)),
{
    match o {
        Some(x) => str_eq(x.as_str(), s),
        None => false,
    }
}

fn family_of_vendor_exec(f: &IdentityFacts, v: &str) -> (r: Option<HwType>)
    ensures
        r == family_of_vendor(*f, v@),
{
    if str_eq(v, "AMI") {
        if str_eq(f.system_id.as_str(), "DGX") {
            Some(HwType::Viking)
        } else if f.lenovo_gb300_chassis {
            Some(HwType::LenovoGb300)
        } else {
            Some(HwType::Ami)
        }
    } else if str_eq(v, "Dell") {
        Some(HwType::Dell)
    } else if str_eq(v, "Lenovo") {
        if opt_is(&f.oem_id, "Ami") {
            Some(HwType::LenovoAmi)
        } else {
            Some(HwType::Lenovo)
        }
    } else if str_eq(v, "Supermicro") {
        Some(HwType::Supermicro)
    } else if str_eq(v, "HPE") {
        Some(HwType::Hpe)
    } else if str_eq(v, "Nvidia") && str_eq(f.system_id.as_str(), "Bluefield") {
        Some(HwType::Bluefield)
    } else if (str_eq(v, "WIWYNN") || str_eq(v, "NVIDIA")) && (opt_is(&f.product, "GB200 NVL")
        || opt_is(&f.product, "GB BMC")) {
        Some(HwType::Gb200)
    } else if str_eq(v, "NVIDIA") && opt_is(&f.product, "P3809") {
        Some(HwType::NvSwitch)
    } else {
        None
    }
}

/// The hardware family of an explored BMC.
pub fn hw_type(f: &IdentityFacts) -> (r: Option<HwType>)
    ensures
        r == hw_type_spec(*f),
{
    let by_vendor = match &f.vendor {
        Some(v) => family_of_vendor_exec(f, v.as_str()),
        None => if opt_is(&f.oem_id, "Supermicro") {
            family_of_vendor_exec(f, "Supermicro")
        } else {
            None
        },
    };
    match by_vendor {
        Some(h) => Some(h),
        None => if f.liteon_power_shelf {
            Some(HwType::LiteonPowerShelf)
        } else {
            None
        },
    }
}

/// The mode a BlueField card reports in its NVIDIA extension.
#[derive(Clone, Copy, Debug, PartialEq, Eq, Structural)]
pub enum BluefieldMode {
    DpuMode,
    NicMode,
}

/// The mode a network card runs in.
#[derive(Clone, Copy, Debug, PartialEq, Eq, Structural)]
pub enum NicMode {
    Dpu,
    Nic,
}

/// Whether the manufacturer is one a BlueField card reports.
pub open spec fn bluefield_manufacturer(m: Option<Seq<char>>) -> bool {
    m is None || m == Some("Nvidia"@) || m == Some("https://www.mellanox.com"@)
}

/// Whether the model is a BlueField-3 (or unnamed).
pub open spec fn bluefield3_model(m: Option<Seq<char>>) -> bool {
    m is None || m == Some("BlueField-3 DPU"@) || m == Some("Bluefield 3 DPU"@) || m == Some(
        "BlueField-3 SmartNIC Main Card"@,
    ) || m == Some("Bluefield 3 SmartNIC Main Card"@)
}

/// Whether the model is an older BlueField that keeps its mode in BIOS.
pub open spec fn bluefield2_model(m: Option<Seq<char>>) -> bool {
    m == Some("Bluefield 2 SmartNIC Main Card"@) || m == Some("Bluefield SoC"@)
}

/// The mode of a BlueField card: from its NVIDIA extension on a
/// BlueField-3, from the `NicMode` BIOS attribute on older cards.
pub open spec fn dpu_mode_spec(
    manufacturer: Option<Seq<char>>,
    model: Option<Seq<char>>,
    oem_mode: Option<BluefieldMode>,
    bios: Option<Attributes>,
) -> Option<NicMode> {
    if !bluefield_manufacturer(manufacturer) {
        None
    } else if bluefield3_model(model) {
        match oem_mode {
            Some(BluefieldMode::DpuMode) => Some(NicMode::Dpu),
            Some(BluefieldMode::NicMode) => Some(NicMode::Nic),
            None => None,
        }
    } else if bluefield2_model(model) {
        let v = str_value(opt_attr(bios, "NicMode"@));
        if v == Some("NicMode"@) {
            Some(NicMode::Nic)
        } else if v == Some("DpuMode"@) {
            Some(NicMode::Dpu)
        } else {
            None
        }
    } else {
        None
    }
}

/// Law: a card from another manufacturer than Nvidia or Mellanox has no
/// mode. A BlueField-3 DPU (or a card naming no model) runs in the mode its
/// NVIDIA extension reports, and has none when the extension says nothing.
/// A BlueField SoC or BlueField-2 card runs in NIC mode when its `NicMode`
/// BIOS attribute is "NicMode", in DPU mode when it is "DpuMode", and has
/// no known mode otherwise.
pub proof fn lemma_dpu_mode(
    manufacturer: Option<Seq<char>>,
    model: Option<Seq<char>>,
    oem_mode: Option<BluefieldMode>,
    bios: Option<Attributes>,
)
    ensures
        manufacturer matches Some(m) && m != "Nvidia"@ && m != "https://www.mellanox.com"@ ==> dpu_mode_spec(
            manufacturer,
            model,
            oem_mode,
            bios,
        ) is None,
        (manufacturer is None || manufacturer == Some("Nvidia"@)) && (model is None || model == Some(
            "BlueField-3 DPU"@,
        )) ==> dpu_mode_spec(manufacturer, model, oem_mode, bios) == match oem_mode {
            Some(BluefieldMode::DpuMode) => Some(NicMode::Dpu),
            Some(BluefieldMode::NicMode) => Some(NicMode::Nic),
            None => None::<NicMode>,
        },
        (manufacturer is None || manufacturer == Some("Nvidia"@)) && (model == Some("Bluefield SoC"@) || model
            == Some("Bluefield 2 SmartNIC Main Card"@)) ==> dpu_mode_spec(manufacturer, model, oem_mode, bios) == (
        if str_value(opt_attr(bios, "NicMode"@)) == Some("NicMode"@) {
            Some(NicMode::Nic)
        } else if str_value(opt_attr(bios, "NicMode"@)) == Some("DpuMode"@) {
            Some(NicMode::Dpu)
        } else {
            None
        }),
{
    reveal_strlit("Bluefield SoC");
    reveal_strlit("Bluefield 2 SmartNIC Main Card");
    reveal_strlit("BlueField-3 DPU");
    reveal_strlit("Bluefield 3 DPU");
    reveal_strlit("BlueField-3 SmartNIC Main Card");
    reveal_strlit("Bluefield 3 SmartNIC Main Card");
    reveal_strlit("NicMode");
    reveal_strlit("DpuMode");
    assert("NicMode"@ != "DpuMode"@) by {
        assert("NicMode"@[0] != "DpuMode"@[0]);
    }
    if model == Some("Bluefield SoC"@) {
        let m = "Bluefield SoC"@;
        assert(m.len() == 13);
        assert(m != "BlueField-3 DPU"@ && m != "Bluefield 3 DPU"@ && m != "BlueField-3 SmartNIC Main Card"@
            && m != "Bluefield 3 SmartNIC Main Card"@) by {
            assert("BlueField-3 DPU"@.len() == 15 && "Bluefield 3 DPU"@.len() == 15);
            assert("BlueField-3 SmartNIC Main Card"@.len() == 30 && "Bluefield 3 SmartNIC Main Card"@.len() == 30);
        }
        assert(!bluefield3_model(model));
        assert(bluefield2_model(model));
    }
    if model == Some("Bluefield 2 SmartNIC Main Card"@) {
        let m = "Bluefield 2 SmartNIC Main Card"@;
        assert(m.len() == 30);
        assert(m != "BlueField-3 DPU"@ && m != "Bluefield 3 DPU"@) by {
            assert("BlueField-3 DPU"@.len() == 15 && "Bluefield 3 DPU"@.len() == 15);
        }
        assert(m != "BlueField-3 SmartNIC Main Card"@) by {
            assert(m[4] != "BlueField-3 SmartNIC Main Card"@[4]);
        }
        assert(m != "Bluefield 3 SmartNIC Main Card"@) by {
            assert(m[10] != "Bluefield 3 SmartNIC Main Card"@[10]);
        }
        assert(!bluefield3_model(model));
        assert(bluefield2_model(model));
    }
}

/// The mode of a BlueField card.
pub fn dpu_mode(
    manufacturer: &Option<String>,
    model: &Option<String>,
    oem_mode: Option<BluefieldMode>,
    bios: &Option<Attributes>,
) -> (r: Option<NicMode>)
    ensures
        r == dpu_mode_spec(opt_seq(*manufacturer), opt_seq(*model), oem_mode, *bios),
{
    let maker_ok = manufacturer.is_none() || opt_is(manufacturer, "Nvidia") || opt_is(
        manufacturer,
        "https://www.mellanox.com",
    );
    if !maker_ok {
        return None;
    }
    if model.is_none() || opt_is(model, "BlueField-3 DPU") || opt_is(model, "Bluefield 3 DPU")
        || opt_is(model, "BlueField-3 SmartNIC Main Card") || opt_is(
        model,
        "Bluefield 3 SmartNIC Main Card",
    ) {
        match oem_mode {
            Some(BluefieldMode::DpuMode) => Some(NicMode::Dpu),
            Some(BluefieldMode::NicMode) => Some(NicMode::Nic),
            None => None,
        }
    } else if opt_is(model, "Bluefield 2 SmartNIC Main Card") || opt_is(model, "Bluefield SoC") {
        let v = opt_str_attr(bios, "NicMode");
        if opt_is(&v, "NicMode") {
            Some(NicMode::Nic)
        } else if opt_is(&v, "DpuMode") {
            Some(NicMode::Dpu)
        } else {
            None
        }
    } else {
        None
    }
}

} // verus!
