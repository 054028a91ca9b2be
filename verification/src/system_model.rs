//! How an explored computer system is reported: its boot order, its PCIe
//! devices, and the out-of-band MAC address a DPU names in a boot option.

use vstd::prelude::*;
use crate::bmc_attrs::{HwType, opt_seq};
use crate::boot_order::{BootOptionFacts, first_index, refers_to};
use crate::text::{chars_of, contains_seq, is_ascii_alnum, str_contains, str_eq, string_of};

verus! {

/// One entry of a reported boot order.
#[derive(Clone, Debug)]
pub struct BootOptionModel {
    pub id: String,
    pub display_name: String,
    pub uefi_device_path: Option<String>,
    pub boot_option_enabled: Option<bool>,
}

/// The option a boot order entry refers to, as reported: its display name
/// (empty when it has none) and device path.
pub open spec fn option_model_matches(m: BootOptionModel, o: BootOptionFacts, enabled: Option<bool>) -> bool {
    &&& m.id@ == o.id@
    &&& m.display_name@ == match o.display_name {
        Some(d) => d@,
        None => Seq::empty(),
    }
    &&& opt_seq(m.uefi_device_path) == opt_seq(o.uefi_device_path)
    &&& m.boot_option_enabled == enabled
}

/// The reported boot order: for each entry of the order that some option
/// refers to, the first such option; entries no option refers to are
/// left out.
pub open spec fn boot_order_model_spec(
    order: Seq<String>,
    opts: Seq<BootOptionFacts>,
    enabled: Seq<Option<bool>>,
    r: Seq<BootOptionModel>,
) -> bool
    decreases order.len(),
{
    if order.len() == 0 {
        r.len() == 0
    } else {
        let last = order.last();
        match first_index(opts, refers_to(last@), 0) {
            Some(i) => r.len() > 0 && boot_order_model_spec(order.drop_last(), opts, enabled, r.drop_last())
                && option_model_matches(r.last(), opts[i], enabled[i]),
            None => boot_order_model_spec(order.drop_last(), opts, enabled, r),
        }
    }
}

fn find_referred(opts: &Vec<BootOptionFacts>, r: &String) -> (res: Option<usize>)
    ensures
        match res {
            Some(i) => i < opts@.len() && first_index(opts@, refers_to(r@), 0) == Some(i as int),
            None => first_index(opts@, refers_to(r@), 0) is None,
        },
{
    let ghost p = refers_to(r@);
    let mut i: usize = 0;
    while i < opts.len()
        invariant
            i <= opts@.len(),
            p == refers_to(r@),
            first_index(opts@, p, 0) == first_index(opts@, p, i as int),
        decreases opts.len() - i,
    {
        if str_eq(opts[i].boot_reference.as_str(), r.as_str()) {
            return Some(i);
        }
        i = i + 1;
    }
    None
}

/// The reported boot order; `enabled` tells, per option, whether it is
/// enabled.
pub fn boot_order_model(order: &Vec<String>, opts: &Vec<BootOptionFacts>, enabled: &Vec<Option<bool>>) -> (r: Vec<
    BootOptionModel,
>)
    requires
        enabled@.len() == opts@.len(),
    ensures
        boot_order_model_spec(order@, opts@, enabled@, r@),
{
    let mut r: Vec<BootOptionModel> = Vec::new();
    let mut k: usize = 0;
    while k < order.len()
        invariant
            k <= order@.len(),
            enabled@.len() == opts@.len(),
            boot_order_model_spec(order@.take(k as int), opts@, enabled@, r@),
        decreases order.len() - k,
    {
        assert(order@.take(k + 1).drop_last() =~= order@.take(k as int));
        match find_referred(opts, &order[k]) {
            Some(i) => {
                let o = &opts[i];
                let m = BootOptionModel {
                    id: o.id.clone(),
                    display_name: match &o.display_name {
                        Some(d) => d.clone(),
                        None => String::new(),
                    },
                    uefi_device_path: match &o.uefi_device_path {
                        Some(p) => Some(p.clone()),
                        None => None,
                    },
                    boot_option_enabled: enabled[i],
                };
                let ghost before = r@;
                r.push(m);
                assert(r@.drop_last() =~= before);
            },
            None => {},
        }
        k = k + 1;
    }
    assert(order@.take(order@.len() as int) =~= order@);
    r
}

/// The length of the run of ASCII letters and digits in `s` from `j` on.
pub open spec fn alnum_run(s: Seq<char>, j: int) -> nat
    decreases s.len() - j,
{
    if 0 <= j < s.len() && is_ascii_alnum(s[j]) {
        1 + alnum_run(s, j + 1)
    } else {
        0
    }
}

/// Whether a MAC address is named in `s` at `i`: `MAC(`, then one or
/// more ASCII letters and digits, then `,`.
pub open spec fn mac_named_at(s: Seq<char>, i: int) -> bool {
    let n = alnum_run(s, i + 4);
    &&& 0 <= i
    &&& i + 4 <= s.len()
    &&& s[i] == 'M' && s[i + 1] == 'A' && s[i + 2] == 'C' && s[i + 3] == '('
    &&& n > 0
    &&& i + 4 + n < s.len()
    &&& s[i + 4 + n] == ','
}

/// The MAC digits of the first place at or after `i` where `s` names a MAC
/// address, if any: the longest run of ASCII letters and digits after
/// `MAC(`, which must be followed by `,`.
pub open spec fn uefi_mac_from(s: Seq<char>, i: int) -> Option<Seq<char>>
    decreases s.len() - i,
{
    if i < 0 || i >= s.len() {
        None
    } else if mac_named_at(s, i) {
        Some(s.subrange(i + 4, i + 4 + alnum_run(s, i + 4)))
    } else {
        uefi_mac_from(s, i + 1)
    }
}

/// The MAC digits a UEFI device path names.
pub open spec fn uefi_mac_capture(path: Seq<char>) -> Option<Seq<char>> {
    uefi_mac_from(path, 0)
}

fn is_ascii_alnum_exec(c: char) -> (r: bool)
    ensures
        r == is_ascii_alnum(c),
{
    ('0' <= c && c <= '9') || ('a' <= c && c <= 'z') || ('A' <= c && c <= 'Z')
}

/// The end of the run of ASCII letters and digits in `s` from `j` on.
fn alnum_run_end(s: &Vec<char>, j: usize) -> (e: usize)
    requires
        j <= s@.len(),
    ensures
        e == j + alnum_run(s@, j as int),
        e <= s@.len(),
{
    let mut e: usize = j;
    while e < s.len() && is_ascii_alnum_exec(s[e])
        invariant
            j <= e <= s@.len(),
            alnum_run(s@, j as int) == (e - j) + alnum_run(s@, e as int),
        decreases s.len() - e,
    {
        e = e + 1;
    }
    e
}

/// The MAC digits a UEFI device path names: after the first `MAC(` that is
/// followed by ASCII letters and digits and then `,`, those letters and
/// digits.
pub fn capture_uefi_mac(path: &str) -> (r: Option<String>)
    ensures
        opt_seq(r) == uefi_mac_capture(path@),
{
    let s = chars_of(path);
    let mut i: usize = 0;
    while i < s.len()
        invariant
            s@ == path@,
            i <= s@.len(),
            uefi_mac_from(s@, 0) == uefi_mac_from(s@, i as int),
        decreases s.len() - i,
    {
        if s.len() - i >= 4 && s[i] == 'M' && s[i + 1] == 'A' && s[i + 2] == 'C' && s[i + 3] == '(' {
            let e = alnum_run_end(&s, i + 4);
            if e > i + 4 && e < s.len() && s[e] == ',' {
                let mut v: Vec<char> = Vec::new();
                let mut k: usize = i + 4;
                while k < e
                    invariant
                        i + 4 <= k <= e,
                        e <= s@.len(),
                        v@ == s@.subrange(i + 4, k as int),
                    decreases e - k,
                {
                    v.push(s[k]);
                    assert(s@.subrange(i + 4, k + 1) =~= s@.subrange(i + 4, k as int).push(s@[k as int]));
                    k = k + 1;
                }
                return Some(string_of(&v));
            }
        }
        i = i + 1;
    }
    None
}

/// The MAC text of the first boot option whose display name mentions
/// `OOB` and whose device path names a MAC address.
pub open spec fn oob_mac_from(opts: Seq<BootOptionFacts>, i: int) -> Option<Seq<char>>
    decreases opts.len() - i,
{
    if i < 0 || i >= opts.len() {
        None
    } else {
        let here = match opts[i].display_name {
            Some(d) => if contains_seq(d@, "OOB"@) {
                match opts[i].uefi_device_path {
                    Some(p) => uefi_mac_capture(p@),
                    None => None,
                }
            } else {
                None
            },
            None => None,
        };
        if here is Some {
            here
        } else {
            oob_mac_from(opts, i + 1)
        }
    }
}

/// The out-of-band MAC text a DPU names in its `OOB` boot option.
pub fn oob_mac_text(opts: &Vec<BootOptionFacts>) -> (r: Option<String>)
    ensures
        opt_seq(r) == oob_mac_from(opts@, 0),
{
    let mut i: usize = 0;
    while i < opts.len()
        invariant
            i <= opts@.len(),
            oob_mac_from(opts@, 0) == oob_mac_from(opts@, i as int),
        decreases opts.len() - i,
    {
        let here = match &opts[i].display_name {
            Some(d) => if str_contains(d.as_str(), "OOB") {
                match &opts[i].uefi_device_path {
                    Some(p) => capture_uefi_mac(p.as_str()),
                    None => None,
                }
            } else {
                None
            },
            None => None,
        };
        if here.is_some() {
            return here;
        }
        i = i + 1;
    }
    None
}

/// Health of a resource.
#[derive(Clone, Copy, Debug, PartialEq, Eq, Structural)]
pub enum Health {
    Okay,
    Warning,
    Critical,
}

/// State of a resource.
#[derive(Clone, Copy, Debug, PartialEq, Eq, Structural)]
pub enum ResourceState {
    Enabled,
    Disabled,
    Absent,
    Other,
}

/// Status of a PCIe device as the BMC reports it.
#[derive(Clone, Copy, Debug)]
pub struct ResourceStatus {
    pub health: Option<Health>,
    pub health_rollup: Option<Health>,
    pub state: Option<ResourceState>,
}

/// A PCIe device as the BMC reports it.
#[derive(Clone, Debug)]
pub struct PcieDeviceFacts {
    pub id: String,
    pub name: String,
    pub description: Option<String>,
    pub firmware_version: Option<String>,
    pub manufacturer: Option<String>,
    pub part_number: Option<String>,
    pub serial_number: Option<String>,
    pub status: Option<ResourceStatus>,
}

/// Status of a reported PCIe device, as text.
#[derive(Clone, Debug)]
pub struct SystemStatus {
    pub health: Option<String>,
    pub health_rollup: Option<String>,
    pub state: String,
}

/// A reported PCIe device.
#[derive(Clone, Debug)]
pub struct PcieDeviceModel {
    pub description: Option<String>,
    pub firmware_version: Option<String>,
    pub id: Option<String>,
    pub manufacturer: Option<String>,
    pub gpu_vendor: Option<String>,
    pub name: Option<String>,
    pub part_number: Option<String>,
    pub serial_number: Option<String>,
    pub status: Option<SystemStatus>,
}

/// The text of a health.
pub open spec fn health_text(h: Health) -> Seq<char> {
    match h {
        Health::Okay => "OK"@,
        Health::Warning => "Warning"@,
        Health::Critical => "Critical"@,
    }
}

/// The text of an optional health.
pub open spec fn opt_health_text(h: Option<Health>) -> Option<Seq<char>> {
    match h {
        Some(x) => Some(health_text(x)),
        None => None,
    }
}

fn health_string(h: Option<Health>) -> (r: Option<String>)
    ensures
        opt_seq(r) == opt_health_text(h),
{
    match h {
        Some(Health::Okay) => Some(String::from_str("OK")),
        Some(Health::Warning) => Some(String::from_str("Warning")),
        Some(Health::Critical) => Some(String::from_str("Critical")),
        None => None,
    }
}

/// A character of the Unicode `White_Space` property.
pub open spec fn is_white_space(c: char) -> bool {
    ('\u{9}' <= c <= '\u{d}') || c == ' ' || c == '\u{85}' || c == '\u{a0}' || c == '\u{1680}'
        || ('\u{2000}' <= c <= '\u{200a}') || c == '\u{2028}' || c == '\u{2029}' || c == '\u{202f}'
        || c == '\u{205f}' || c == '\u{3000}'
}

/// `s` without its leading and trailing white space.
pub open spec fn trimmed(s: Seq<char>) -> Seq<char>
    decreases s.len(),
{
    if s.len() > 0 && is_white_space(s[0]) {
        trimmed(s.drop_first())
    } else if s.len() > 0 && is_white_space(s.last()) {
        trimmed(s.drop_last())
    } else {
        s
    }
}

fn is_white_space_exec(c: char) -> (r: bool)
    ensures
        r == is_white_space(c),
{
    ('\u{9}' <= c && c <= '\u{d}') || c == ' ' || c == '\u{85}' || c == '\u{a0}' || c == '\u{1680}' || (
    '\u{2000}' <= c && c <= '\u{200a}') || c == '\u{2028}' || c == '\u{2029}' || c == '\u{202f}' || c
        == '\u{205f}' || c == '\u{3000}'
}

proof fn lemma_trim_leading(s: Seq<char>, i: int)
    requires
        0 <= i <= s.len(),
        forall|k: int| 0 <= k < i ==> is_white_space(#[trigger] s[k]),
    ensures
        trimmed(s) == trimmed(s.subrange(i, s.len() as int)),
    decreases i,
{
    if i == 0 {
        assert(s.subrange(0, s.len() as int) =~= s);
    } else {
        assert(is_white_space(s[0]));
        lemma_trim_leading(s.drop_first(), i - 1);
        assert(s.drop_first().subrange(i - 1, s.len() - 1) =~= s.subrange(i, s.len() as int));
    }
}

proof fn lemma_trim_trailing(t: Seq<char>, j: int)
    requires
        t.len() == 0 || !is_white_space(t[0]),
        0 <= j <= t.len(),
        forall|k: int| j <= k < t.len() ==> is_white_space(#[trigger] t[k]),
        j == 0 || !is_white_space(t[j - 1]),
    ensures
        trimmed(t) == t.subrange(0, j),
    decreases t.len(),
{
    if t.len() == j {
        assert(t.subrange(0, j) =~= t);
    } else {
        assert(is_white_space(t[t.len() - 1]));
        let d = t.drop_last();
        lemma_trim_trailing(d, j);
        assert(d.subrange(0, j) =~= t.subrange(0, j));
    }
}

/// `s` without its leading and trailing white space, as `str::trim` of
/// std gives it.
fn trim_text(s: &str) -> (r: String)
    ensures
        r@ == trimmed(s@),
{
    let cs = chars_of(s);
    let n = cs.len();
    let mut i: usize = 0;
    while i < n && is_white_space_exec(cs[i])
        invariant
            cs@ == s@,
            n == cs@.len(),
            i <= n,
            forall|k: int| 0 <= k < i ==> is_white_space(#[trigger] cs@[k]),
        decreases n - i,
    {
        i = i + 1;
    }
    let mut j: usize = n;
    while j > i && is_white_space_exec(cs[j - 1])
        invariant
            cs@ == s@,
            n == cs@.len(),
            i <= j <= n,
            forall|k: int| j <= k < n ==> is_white_space(#[trigger] cs@[k]),
        decreases j - i,
    {
        j = j - 1;
    }
    let mut v: Vec<char> = Vec::new();
    let mut k: usize = i;
    while k < j
        invariant
            i <= k <= j,
            j <= cs@.len(),
            v@ == cs@.subrange(i as int, k as int),
        decreases j - k,
    {
        v.push(cs[k]);
        assert(cs@.subrange(i as int, k + 1) =~= cs@.subrange(i as int, k as int).push(cs@[k as int]));
        k = k + 1;
    }
    proof {
        let u = cs@.subrange(i as int, n as int);
        lemma_trim_leading(cs@, i as int);
        assert forall|m: int| (j - i) <= m < u.len() implies is_white_space(#[trigger] u[m]) by {
            assert(u[m] == cs@[i + m]);
        }
        if j > i {
            assert(u[j - i - 1] == cs@[j - 1]);
        }
        lemma_trim_trailing(u, (j - i) as int);
        assert(u.subrange(0, (j - i) as int) =~= cs@.subrange(i as int, j as int));
    }
    string_of(&v)
}

/// Whether a device is reported: it must name its manufacturer and must
/// not be in a state other than enabled.
pub open spec fn pcie_reported(d: PcieDeviceFacts) -> bool {
    d.manufacturer is Some && !(d.status matches Some(st) && (st.state matches Some(s) && s
        != ResourceState::Enabled))
}

/// The reported form of a PCIe device, or `None` when it is not reported.
/// HPE serial numbers are trimmed of white space.
pub fn pcie_device_to_model(hw: Option<HwType>, d: &PcieDeviceFacts) -> (r: Option<PcieDeviceModel>)
    ensures
        !pcie_reported(*d) ==> r is None,
        pcie_reported(*d) ==> (r matches Some(m) && opt_seq(m.description) == opt_seq(d.description)
            && opt_seq(m.firmware_version) == opt_seq(d.firmware_version) && opt_seq(m.id) == Some(d.id@)
            && opt_seq(m.manufacturer) == opt_seq(d.manufacturer) && m.gpu_vendor is None && opt_seq(m.name)
            == Some(d.name@) && opt_seq(m.part_number) == opt_seq(d.part_number) && opt_seq(m.serial_number)
            == match d.serial_number {
            Some(s) => Some(if hw == Some(HwType::Hpe) {
                trimmed(s@)
            } else {
                s@
            }),
            None => None,
        } && match d.status {
            None => m.status is None,
            Some(st) => m.status matches Some(ms) && opt_seq(ms.health) == opt_health_text(st.health)
                && opt_seq(ms.health_rollup) == opt_health_text(st.health_rollup) && ms.state@ == (
            if st.state is Some {
                "Enabled"@
            } else {
                Seq::empty()
            }),
        }),
{
    if d.manufacturer.is_none() {
        return None;
    }
    if let Some(st) = d.status {
        if let Some(s) = st.state {
            if s != ResourceState::Enabled {
                return None;
            }
        }
    }
    let serial_number = match &d.serial_number {
        Some(s) => if hw == Some(HwType::Hpe) {
            Some(trim_text(s.as_str()))
        } else {
            Some(s.clone())
        },
        None => None,
    };
    let status = match d.status {
        Some(st) => Some(
            SystemStatus {
                health: health_string(st.health),
                health_rollup: health_string(st.health_rollup),
                state: if st.state.is_some() {
                    String::from_str("Enabled")
                } else {
                    String::new()
                },
            },
        ),
        None => None,
    };
    Some(
        PcieDeviceModel {
            description: d.description.clone(),
            firmware_version: d.firmware_version.clone(),
            id: Some(d.id.clone()),
            manufacturer: d.manufacturer.clone(),
            gpu_vendor: None,
            name: Some(d.name.clone()),
            part_number: d.part_number.clone(),
            serial_number,
            status,
        },
    )
}

} // verus!
