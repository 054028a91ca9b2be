//! The setup status of an explored machine: every difference between what
//! its hardware family expects and what the BMC reports, in a fixed order.

use vstd::prelude::*;
use crate::bmc_attrs::{Attributes, AttrValue, ExploreError, ExploreErrorView, HwType, not_provided, opt_attr, str_value};
use crate::bmc_lockdown::{EthInterfaceFacts, InternalLockdownStatus, LockdownStatus};
use crate::boot_order::{
    BootOptionFacts, boot_order_first_option, compare_boot, compare_boot_options, first_boot_option,
    first_index, is_uefi_tree_child, mac_compact, mac_digits, mac_parse, mac_text, order_view, parse_mac, same_mac,
    uefi_tree_child,
};
use crate::machine_setup::{
    BiosAttr, BiosAttrValue, DiffView, MachineSetupDiff, bios_diffs, diff_view, diffs_view, make_diff,
    opt_to_seq, push_bios_diffs, push_diff, push_opt_diff, verify_attr, verify_bios_attr,
};
use crate::text::{chars_of, contains_chars, contains_seq, extend_chars, extend_str, occurs_at, occurs_at_exec, str_contains, str_eq};

verus! {

/// One function of a network adapter found in the chassis.
#[derive(Clone, Debug)]
pub struct NetworkFunctionFacts {
    pub id: String,
    /// The resource id other resources refer to it by.
    pub odata_id: String,
    pub mac_address: Option<String>,
}

/// Whether secure boot is in force for the current boot.
#[derive(Clone, Copy, Debug, PartialEq, Eq, Structural)]
pub enum SecureBootCurrentBootType {
    Enabled,
    Disabled,
}

/// The secure boot resource of a system.
#[derive(Clone, Copy, Debug)]
pub struct SecureBootFacts {
    pub secure_boot_enable: Option<bool>,
    pub current_boot: Option<SecureBootCurrentBootType>,
}

/// What the setup checks read from an explored system.
#[derive(Clone, Debug)]
pub struct SetupFacts {
    pub bios: Option<Attributes>,
    pub boot_options: Vec<BootOptionFacts>,
    pub boot_order: Option<Vec<String>>,
    pub system_eth_interfaces: Vec<EthInterfaceFacts>,
    pub dell_attributes: Option<Attributes>,
    pub adapter_functions: Vec<NetworkFunctionFacts>,
    pub secure_boot: Option<SecureBootFacts>,
}

/// Whether secure boot is enabled: the resource and both of its
/// properties must be reported.
pub open spec fn secure_boot_spec(sb: Option<SecureBootFacts>) -> Result<bool, ExploreErrorView> {
    match sb {
        None => Err(ExploreErrorView::BmcNotProvided("SecureBoot resource"@)),
        Some(s) => match s.secure_boot_enable {
            None => Err(ExploreErrorView::BmcNotProvided("SecureBootEnable in SecureBoot resource"@)),
            Some(en) => match s.current_boot {
                None => Err(
                    ExploreErrorView::BmcNotProvided(
                        "SecureBootCurrentBootType in SecureBoot resource"@,
                    ),
                ),
                Some(cur) => Ok(en && cur == SecureBootCurrentBootType::Enabled),
            },
        },
    }
}

/// Whether secure boot is enabled on the system.
pub fn secure_boot_status(sb: &Option<SecureBootFacts>) -> (r: Result<bool, ExploreError>)
    ensures
        match r {
            Ok(b) => secure_boot_spec(*sb) == Ok::<bool, ExploreErrorView>(b),
            Err(e) => secure_boot_spec(*sb) == Err::<bool, ExploreErrorView>(e@),
        },
{
    let s = match sb {
        None => {
            return Err(not_provided("SecureBoot resource"));
        },
        Some(s) => *s,
    };
    let en = match s.secure_boot_enable {
        None => {
            return Err(not_provided("SecureBootEnable in SecureBoot resource"));
        },
        Some(e) => e,
    };
    match s.current_boot {
        None => Err(not_provided("SecureBootCurrentBootType in SecureBoot resource")),
        Some(cur) => Ok(en && cur == SecureBootCurrentBootType::Enabled),
    }
}

// ---------------------------------------------------------------- searches

/// Interfaces whose MAC address parses to `m`.
pub open spec fn has_mac(m: Seq<u8>) -> spec_fn(EthInterfaceFacts) -> bool {
    |e: EthInterfaceFacts|
        match e.mac_address {
            Some(s) => mac_parse(s@) == Some(m),
            None => false,
        }
}

/// Options booting over IPv4 from a device under `parent`.
pub open spec fn uefi_child_ipv4(parent: Seq<char>) -> spec_fn(BootOptionFacts) -> bool {
    |o: BootOptionFacts|
        match o.uefi_device_path {
            Some(p) => is_uefi_tree_child(parent, p@) && contains_seq(p@, "/IPv4("@),
            None => false,
        }
}

/// The option the boot interface should boot from, found by the device
/// path of the first system interface with the boot MAC address.
pub open spec fn uefi_expected(eths: Seq<EthInterfaceFacts>, opts: Seq<BootOptionFacts>, m: Seq<u8>) -> Option<int> {
    match first_index(eths, has_mac(m), 0) {
        Some(i) => match eths[i].uefi_device_path {
            Some(p) => first_index(opts, uefi_child_ipv4(p@), 0),
            None => None,
        },
        None => None,
    }
}

fn find_iface_by_mac(eths: &Vec<EthInterfaceFacts>, mac: &[u8; 6]) -> (r: Option<usize>)
    ensures
        match r {
            Some(i) => i < eths@.len() && first_index(eths@, has_mac(mac@), 0) == Some(i as int),
            None => first_index(eths@, has_mac(mac@), 0) is None,
        },
{
    let ghost p = has_mac(mac@);
    let mut i: usize = 0;
    while i < eths.len()
        invariant
            i <= eths@.len(),
            p == has_mac(mac@),
            first_index(eths@, p, 0) == first_index(eths@, p, i as int),
        decreases eths.len() - i,
    {
        let hit = match &eths[i].mac_address {
            Some(s) => match parse_mac(s.as_str()) {
                Some(b) => same_mac(&b, mac),
                None => false,
            },
            None => false,
        };
        if hit {
            return Some(i);
        }
        i = i + 1;
    }
    None
}

fn find_uefi_child_ipv4(opts: &Vec<BootOptionFacts>, parent: &str) -> (r: Option<usize>)
    ensures
        match r {
            Some(i) => i < opts@.len() && first_index(opts@, uefi_child_ipv4(parent@), 0) == Some(i as int),
            None => first_index(opts@, uefi_child_ipv4(parent@), 0) is None,
        },
{
    let ghost p = uefi_child_ipv4(parent@);
    let mut i: usize = 0;
    while i < opts.len()
        invariant
            i <= opts@.len(),
            p == uefi_child_ipv4(parent@),
            first_index(opts@, p, 0) == first_index(opts@, p, i as int),
        decreases opts.len() - i,
    {
        let hit = match &opts[i].uefi_device_path {
            Some(path) => uefi_tree_child(parent, path.as_str()) && str_contains(path.as_str(), "/IPv4("),
            None => false,
        };
        if hit {
            return Some(i);
        }
        i = i + 1;
    }
    None
}

/// Position of the option the boot interface should boot from.
fn uefi_expected_exec(f: &SetupFacts, mac: &[u8; 6]) -> (r: Option<usize>)
    ensures
        match r {
            Some(i) => i < f.boot_options@.len() && uefi_expected(f.system_eth_interfaces@, f.boot_options@, mac@) == Some(i as int),
            None => uefi_expected(f.system_eth_interfaces@, f.boot_options@, mac@) is None,
        },
{
    match find_iface_by_mac(&f.system_eth_interfaces, mac) {
        None => None,
        Some(i) => match &f.system_eth_interfaces[i].uefi_device_path {
            None => None,
            Some(p) => find_uefi_child_ipv4(&f.boot_options, p.as_str()),
        },
    }
}

/// An optional position as a spec position.
pub open spec fn pos(i: Option<usize>) -> Option<int> {
    match i {
        Some(k) => Some(k as int),
        None => None,
    }
}

/// An optional difference as plain values.
pub open spec fn opt_diff_view(d: Option<MachineSetupDiff>) -> Option<DiffView> {
    match d {
        Some(x) => Some(diff_view(x)),
        None => None,
    }
}

/// The boot-order difference for families whose boot option is found by
/// the device path of the boot interface.
pub open spec fn uefi_prefix_diff(f: SetupFacts, mac: Seq<u8>) -> Option<DiffView> {
    compare_boot(
        f.boot_options@,
        uefi_expected(f.system_eth_interfaces@, f.boot_options@, mac),
        first_boot_option(f.boot_options@, order_view(f.boot_order)),
    )
}

/// Checks that the option that boots first is the one under the boot
/// interface's device path.
pub fn check_boot_by_uefi_prefix(f: &SetupFacts, mac: &[u8; 6]) -> (r: Option<MachineSetupDiff>)
    ensures
        opt_diff_view(r) == uefi_prefix_diff(*f, mac@),
{
    let expected = uefi_expected_exec(f, mac);
    let actual = boot_order_first_option(&f.boot_options, &f.boot_order);
    compare_boot_options(&f.boot_options, expected, actual)
}

// ---------------------------------------------------------------- Dell

/// The string an attribute holds, or "unexpected type".
pub open spec fn str_or_unexpected(a: AttrValue) -> Seq<char> {
    match str_value(Some(a)) {
        Some(s) => s,
        None => "unexpected type"@,
    }
}

/// The difference for an attribute that should hold the string
/// `expected`: none when the attribute is absent or holds it.
pub open spec fn expected_str_diff(doc: Option<Attributes>, key: Seq<char>, expected: Seq<char>) -> Seq<DiffView> {
    match opt_attr(doc, key) {
        Some(a) => if str_value(Some(a)) != Some(expected) {
            seq![(key, expected, str_or_unexpected(a))]
        } else {
            Seq::empty()
        },
        None => Seq::empty(),
    }
}

fn push_expected_str_diff(diffs: &mut Vec<MachineSetupDiff>, doc: &Option<Attributes>, key: &str, expected: &str)
    ensures
        diffs_view(final(diffs)@) == diffs_view(old(diffs)@) + expected_str_diff(*doc, key@, expected@),
{
    let d = match doc {
        None => None,
        Some(a) => match a.find(key) {
            None => None,
            Some(i) => {
                let (same, actual) = match &a.entries[i].1 {
                    AttrValue::Str(s) => (str_eq(s.as_str(), expected), chars_of(s.as_str())),
                    _ => (false, chars_of("unexpected type")),
                };
                if same {
                    None
                } else {
                    let k = chars_of(key);
                    let e = chars_of(expected);
                    Some(make_diff(&k, &e, &actual))
                }
            },
        },
    };
    push_opt_diff(diffs, d);
    assert(opt_to_seq(opt_diff_view(d)) =~= expected_str_diff(*doc, key@, expected@));
}

/// The iDRAC settings every Dell machine should have.
pub open spec fn dell_manager_diffs(attrs: Option<Attributes>) -> Seq<DiffView> {
    expected_str_diff(attrs, "WebServer.1.HostHeaderCheck"@, "Disabled"@) + expected_str_diff(
        attrs,
        "IPMILan.1.Enable"@,
        "Enabled"@,
    ) + expected_str_diff(attrs, "OS-BMC.1.AdminState"@, "Disabled"@)
}

/// Adapter functions whose MAC address parses to `m`.
pub open spec fn function_has_mac(m: Seq<u8>) -> spec_fn(NetworkFunctionFacts) -> bool {
    |f: NetworkFunctionFacts|
        match f.mac_address {
            Some(s) => mac_parse(s@) == Some(m),
            None => false,
        }
}

/// Options related to the resource `odata_id`.
pub open spec fn relates_to(odata_id: Seq<char>) -> spec_fn(BootOptionFacts) -> bool {
    |o: BootOptionFacts| exists|j: int| 0 <= j < o.related_items@.len() && #[trigger] o.related_items@[j]@ == odata_id
}

/// The Dell boot checks: the adapter function with the boot MAC address
/// must be the HTTP boot device, and the option related to it must boot
/// first.
pub open spec fn dell_boot_diffs(f: SetupFacts, m: Seq<u8>) -> Seq<DiffView> {
    let opts = f.boot_options@;
    let first = first_boot_option(opts, order_view(f.boot_order));
    match first_index(f.adapter_functions@, function_has_mac(m), 0) {
        Some(i) => expected_str_diff(f.bios, "HttpDev1Interface"@, f.adapter_functions@[i].id@)
            + opt_to_seq(
            compare_boot(opts, first_index(opts, relates_to(f.adapter_functions@[i].odata_id@), 0), first),
        ),
        None => opt_to_seq(compare_boot(opts, None, first)),
    }
}

fn find_function_by_mac(funcs: &Vec<NetworkFunctionFacts>, mac: &[u8; 6]) -> (r: Option<usize>)
    ensures
        match r {
            Some(i) => i < funcs@.len() && first_index(funcs@, function_has_mac(mac@), 0) == Some(i as int),
            None => first_index(funcs@, function_has_mac(mac@), 0) is None,
        },
{
    let ghost p = function_has_mac(mac@);
    let mut i: usize = 0;
    while i < funcs.len()
        invariant
            i <= funcs@.len(),
            p == function_has_mac(mac@),
            first_index(funcs@, p, 0) == first_index(funcs@, p, i as int),
        decreases funcs.len() - i,
    {
        let hit = match &funcs[i].mac_address {
            Some(s) => match parse_mac(s.as_str()) {
                Some(b) => same_mac(&b, mac),
                None => false,
            },
            None => false,
        };
        if hit {
            return Some(i);
        }
        i = i + 1;
    }
    None
}

fn related(o: &BootOptionFacts, odata_id: &str) -> (r: bool)
    ensures
        r == relates_to(odata_id@)(*o),
{
    let mut j: usize = 0;
    while j < o.related_items.len()
        invariant
            j <= o.related_items@.len(),
            forall|k: int| 0 <= k < j ==> o.related_items@[k]@ != odata_id@,
        decreases o.related_items.len() - j,
    {
        if str_eq(o.related_items[j].as_str(), odata_id) {
            assert(o.related_items@[j as int]@ == odata_id@);
            return true;
        }
        j = j + 1;
    }
    false
}

fn find_related(opts: &Vec<BootOptionFacts>, odata_id: &str) -> (r: Option<usize>)
    ensures
        match r {
            Some(i) => i < opts@.len() && first_index(opts@, relates_to(odata_id@), 0) == Some(i as int),
            None => first_index(opts@, relates_to(odata_id@), 0) is None,
        },
{
    let ghost p = relates_to(odata_id@);
    let mut i: usize = 0;
    while i < opts.len()
        invariant
            i <= opts@.len(),
            p == relates_to(odata_id@),
            first_index(opts@, p, 0) == first_index(opts@, p, i as int),
        decreases opts.len() - i,
    {
        if related(&opts[i], odata_id) {
            return Some(i);
        }
        i = i + 1;
    }
    None
}

fn push_dell_boot_diffs(diffs: &mut Vec<MachineSetupDiff>, f: &SetupFacts, mac: &[u8; 6])
    ensures
        diffs_view(final(diffs)@) == diffs_view(old(diffs)@) + dell_boot_diffs(*f, mac@),
{
    let first = boot_order_first_option(&f.boot_options, &f.boot_order);
    match find_function_by_mac(&f.adapter_functions, mac) {
        Some(i) => {
            let func = &f.adapter_functions[i];
            push_expected_str_diff(diffs, &f.bios, "HttpDev1Interface", func.id.as_str());
            let ghost mid = diffs_view(diffs@);
            let expected = find_related(&f.boot_options, func.odata_id.as_str());
            let d = compare_boot_options(&f.boot_options, expected, first);
            push_opt_diff(diffs, d);
            assert(diffs_view(diffs@) =~= diffs_view(old(diffs)@) + dell_boot_diffs(*f, mac@));
        },
        None => {
            let d = compare_boot_options(&f.boot_options, None, first);
            push_opt_diff(diffs, d);
            assert(diffs_view(diffs@) =~= diffs_view(old(diffs)@) + dell_boot_diffs(*f, mac@));
        },
    }
}

// ---------------------------------------------------------------- Lenovo

/// The Lenovo boot check: the first option must be a network boot.
pub open spec fn lenovo_boot_diff(f: SetupFacts) -> Seq<DiffView> {
    match first_boot_option(f.boot_options@, order_view(f.boot_order)) {
        Some(i) => if f.boot_options@[i].name@ != "Network"@ {
            seq![("boot_first_type"@, "Network"@, f.boot_options@[i].name@)]
        } else {
            Seq::empty()
        },
        None => Seq::empty(),
    }
}

fn push_lenovo_boot_diff(diffs: &mut Vec<MachineSetupDiff>, f: &SetupFacts)
    ensures
        diffs_view(final(diffs)@) == diffs_view(old(diffs)@) + lenovo_boot_diff(*f),
{
    match boot_order_first_option(&f.boot_options, &f.boot_order) {
        Some(i) => {
            if !str_eq(f.boot_options[i].name.as_str(), "Network") {
                let k = chars_of("boot_first_type");
                let e = chars_of("Network");
                let a = chars_of(f.boot_options[i].name.as_str());
                push_diff(diffs, make_diff(&k, &e, &a));
            }
            assert(diffs_view(diffs@) =~= diffs_view(old(diffs)@) + lenovo_boot_diff(*f));
        },
        None => {
            assert(diffs_view(diffs@) =~= diffs_view(old(diffs)@) + lenovo_boot_diff(*f));
        },
    }
}

// ---------------------------------------------------------------- Supermicro

/// Position of the last `c` in `k`, or -1.
pub open spec fn last_index_of(k: Seq<char>, c: char) -> int
    decreases k.len(),
{
    if k.len() == 0 {
        -1
    } else if k.last() == c {
        k.len() - 1
    } else {
        last_index_of(k.drop_last(), c)
    }
}

/// The name of a Supermicro BIOS attribute without its numeric suffix:
/// what precedes the last underscore, or the whole name.
pub open spec fn key_prefix(k: Seq<char>) -> Seq<char> {
    let j = last_index_of(k, '_');
    if j < 0 {
        k
    } else {
        k.take(j)
    }
}

/// The name of `k` without its suffix.
pub fn key_prefix_of(k: &str) -> (r: Vec<char>)
    ensures
        r@ == key_prefix(k@),
{
    let c = chars_of(k);
    let mut i: usize = c.len();
    assert(c@.take(c@.len() as int) =~= c@);
    while i > 0
        invariant
            i <= c@.len(),
            c@ == k@,
            last_index_of(c@, '_') == last_index_of(c@.take(i as int), '_'),
        decreases i,
    {
        if c[i - 1] == '_' {
            let mut r: Vec<char> = Vec::new();
            let mut j: usize = 0;
            while j < i - 1
                invariant
                    1 <= i <= c@.len(),
                    c@ == k@,
                    c@[i - 1] == '_',
                    last_index_of(c@, '_') == last_index_of(c@.take(i as int), '_'),
                    j <= i - 1,
                    r@ == c@.take(j as int),
                decreases i - 1 - j,
            {
                r.push(c[j]);
                assert(c@.take(j + 1) =~= c@.take(j as int).push(c@[j as int]));
                j = j + 1;
            }
            assert(c@.take(i as int).last() == '_');
            return r;
        }
        assert(c@.take(i as int).drop_last() =~= c@.take(i - 1));
        i = i - 1;
    }
    assert(c@.take(0) =~= Seq::<char>::empty());
    c
}

/// Differences for every attribute among the first `n` entries whose name
/// has the prefix of `e`, each checked against the value of `e`.
pub open spec fn prefix_diffs_upto(
    bios: Option<Attributes>,
    entries: Seq<(String, AttrValue)>,
    e: BiosAttr,
    n: int,
) -> Seq<DiffView>
    decreases n,
{
    if n <= 0 {
        Seq::empty()
    } else {
        prefix_diffs_upto(bios, entries, e, n - 1) + if key_prefix(entries[n - 1].0@) == e.key@ {
            opt_to_seq(verify_attr(bios, entries[n - 1].0@, e.value))
        } else {
            Seq::empty()
        }
    }
}

/// The Supermicro BIOS differences: expected values are given by name
/// prefix, and every attribute with that prefix is checked.
pub open spec fn supermicro_bios_diffs(bios: Option<Attributes>, expected: Seq<BiosAttr>) -> Seq<DiffView>
    decreases expected.len(),
{
    if expected.len() == 0 {
        Seq::empty()
    } else {
        supermicro_bios_diffs(bios, expected.drop_last()) + match bios {
            Some(b) => prefix_diffs_upto(bios, b.entries@, expected.last(), b.entries@.len() as int),
            None => Seq::empty(),
        }
    }
}

fn push_prefix_diffs(diffs: &mut Vec<MachineSetupDiff>, bios: &Option<Attributes>, b: &Attributes, e: &BiosAttr)
    requires
        *bios == Some(*b),
    ensures
        diffs_view(final(diffs)@) == diffs_view(old(diffs)@) + prefix_diffs_upto(
            *bios,
            b.entries@,
            *e,
            b.entries@.len() as int,
        ),
{
    let ek = chars_of(e.key.as_str());
    let mut i: usize = 0;
    while i < b.entries.len()
        invariant
            i <= b.entries@.len(),
            ek@ == e.key@,
            diffs_view(diffs@) == diffs_view(old(diffs)@) + prefix_diffs_upto(
                *bios,
                b.entries@,
                *e,
                i as int,
            ),
        decreases b.entries.len() - i,
    {
        let key = &b.entries[i].0;
        let pre = key_prefix_of(key.as_str());
        if crate::text::chars_eq(&pre, &ek) {
            let d = verify_bios_attr(bios, key.as_str(), &e.value);
            push_opt_diff(diffs, d);
        }
        assert(diffs_view(diffs@) =~= diffs_view(old(diffs)@) + prefix_diffs_upto(
            *bios,
            b.entries@,
            *e,
            i + 1,
        ));
        i = i + 1;
    }
}

fn push_supermicro_bios_diffs(diffs: &mut Vec<MachineSetupDiff>, bios: &Option<Attributes>, expected: &Vec<BiosAttr>)
    ensures
        diffs_view(final(diffs)@) == diffs_view(old(diffs)@) + supermicro_bios_diffs(*bios, expected@),
{
    let mut i: usize = 0;
    while i < expected.len()
        invariant
            i <= expected@.len(),
            diffs_view(diffs@) == diffs_view(old(diffs)@) + supermicro_bios_diffs(
                *bios,
                expected@.take(i as int),
            ),
        decreases expected.len() - i,
    {
        assert(expected@.take(i + 1).drop_last() =~= expected@.take(i as int));
        match bios {
            Some(b) => {
                push_prefix_diffs(diffs, bios, b, &expected[i]);
            },
            None => {},
        }
        assert(diffs_view(diffs@) =~= diffs_view(old(diffs)@) + supermicro_bios_diffs(
            *bios,
            expected@.take(i + 1),
        ));
        i = i + 1;
    }
    assert(expected@.take(expected@.len() as int) =~= expected@);
}

/// Display name of a Mellanox adapter's UEFI HTTP IPv4 boot option.
pub const MELLANOX_UEFI_HTTP_IPV4: &'static str = "UEFI HTTP IPv4 Mellanox Network Adapter";

/// Display name of an NVIDIA adapter's UEFI HTTP IPv4 boot option.
pub const NVIDIA_UEFI_HTTP_IPV4: &'static str = "UEFI HTTP IPv4 Nvidia Network Adapter";

/// Supermicro HTTP boot options of the adapter whose MAC text is `ms`.
pub open spec fn supermicro_http_option(ms: Seq<char>) -> spec_fn(BootOptionFacts) -> bool {
    |o: BootOptionFacts|
        match o.display_name {
            Some(d) => (contains_seq(d@, MELLANOX_UEFI_HTTP_IPV4@) || contains_seq(
                d@,
                NVIDIA_UEFI_HTTP_IPV4@,
            )) && contains_seq(d@, ms),
            None => false,
        }
}

/// The Supermicro boot check.
pub open spec fn supermicro_boot_diff(f: SetupFacts, m: Seq<u8>) -> Seq<DiffView> {
    opt_to_seq(
        compare_boot(
            f.boot_options@,
            first_index(f.boot_options@, supermicro_http_option(mac_text(m)), 0),
            first_boot_option(f.boot_options@, order_view(f.boot_order)),
        ),
    )
}

fn find_supermicro_http(opts: &Vec<BootOptionFacts>, ms: &Vec<char>) -> (r: Option<usize>)
    ensures
        match r {
            Some(i) => i < opts@.len() && first_index(opts@, supermicro_http_option(ms@), 0) == Some(i as int),
            None => first_index(opts@, supermicro_http_option(ms@), 0) is None,
        },
{
    let ghost p = supermicro_http_option(ms@);
    let mell = chars_of(MELLANOX_UEFI_HTTP_IPV4);
    let nv = chars_of(NVIDIA_UEFI_HTTP_IPV4);
    let mut i: usize = 0;
    while i < opts.len()
        invariant
            i <= opts@.len(),
            p == supermicro_http_option(ms@),
            mell@ == MELLANOX_UEFI_HTTP_IPV4@,
            nv@ == NVIDIA_UEFI_HTTP_IPV4@,
            first_index(opts@, p, 0) == first_index(opts@, p, i as int),
        decreases opts.len() - i,
    {
        let hit = match &opts[i].display_name {
            Some(d) => {
                let dc = chars_of(d.as_str());
                (contains_chars(&dc, &mell) || contains_chars(&dc, &nv)) && contains_chars(&dc, ms)
            },
            None => false,
        };
        if hit {
            return Some(i);
        }
        i = i + 1;
    }
    None
}

fn push_supermicro_boot_diff(diffs: &mut Vec<MachineSetupDiff>, f: &SetupFacts, mac: &[u8; 6])
    ensures
        diffs_view(final(diffs)@) == diffs_view(old(diffs)@) + supermicro_boot_diff(*f, mac@),
{
    let ms = mac_digits(mac, ":");
    let expected = find_supermicro_http(&f.boot_options, &ms);
    let actual = boot_order_first_option(&f.boot_options, &f.boot_order);
    let d = compare_boot_options(&f.boot_options, expected, actual);
    push_opt_diff(diffs, d);
}

// ---------------------------------------------------------------- GB200

/// Whether `s` ends with `suf`.
pub open spec fn ends_with(s: Seq<char>, suf: Seq<char>) -> bool {
    suf.len() <= s.len() && occurs_at(s, suf, s.len() - suf.len())
}

/// GB200 HTTP IPv4 boot options of the device whose path has `ms`.
pub open spec fn gb200_http_option(ms: Seq<char>) -> spec_fn(BootOptionFacts) -> bool {
    |o: BootOptionFacts|
        match o.uefi_device_path {
            Some(p) => contains_seq(p@, ms) && contains_seq(p@, "/IPv4("@) && ends_with(p@, "/Uri()"@),
            None => false,
        }
}

/// The device path fragment naming the MAC address `m`.
pub open spec fn gb200_mac_fragment(m: Seq<u8>) -> Seq<char> {
    "/MAC("@ + mac_compact(m) + ","@
}

/// The GB200 boot check.
pub open spec fn gb200_boot_diff(f: SetupFacts, m: Seq<u8>) -> Seq<DiffView> {
    opt_to_seq(
        compare_boot(
            f.boot_options@,
            first_index(f.boot_options@, gb200_http_option(gb200_mac_fragment(m)), 0),
            first_boot_option(f.boot_options@, order_view(f.boot_order)),
        ),
    )
}

/// The GB200 secure boot check: secure boot must be off.
pub open spec fn secure_boot_diff(sb: Option<SecureBootFacts>) -> Seq<DiffView> {
    if secure_boot_spec(sb) == Ok::<bool, ExploreErrorView>(true) {
        seq![("SecureBoot"@, "false"@, "true"@)]
    } else {
        Seq::empty()
    }
}

fn find_gb200_http(opts: &Vec<BootOptionFacts>, ms: &Vec<char>) -> (r: Option<usize>)
    ensures
        match r {
            Some(i) => i < opts@.len() && first_index(opts@, gb200_http_option(ms@), 0) == Some(i as int),
            None => first_index(opts@, gb200_http_option(ms@), 0) is None,
        },
{
    let ghost p = gb200_http_option(ms@);
    let ipv4 = chars_of("/IPv4(");
    let uri = chars_of("/Uri()");
    let mut i: usize = 0;
    while i < opts.len()
        invariant
            i <= opts@.len(),
            p == gb200_http_option(ms@),
            ipv4@ == "/IPv4("@,
            uri@ == "/Uri()"@,
            first_index(opts@, p, 0) == first_index(opts@, p, i as int),
        decreases opts.len() - i,
    {
        let hit = match &opts[i].uefi_device_path {
            Some(d) => {
                let dc = chars_of(d.as_str());
                contains_chars(&dc, ms) && contains_chars(&dc, &ipv4) && uri.len() <= dc.len()
                    && occurs_at_exec(&dc, &uri, dc.len() - uri.len())
            },
            None => false,
        };
        if hit {
            return Some(i);
        }
        i = i + 1;
    }
    None
}

fn push_gb200_boot_diff(diffs: &mut Vec<MachineSetupDiff>, f: &SetupFacts, mac: &[u8; 6])
    ensures
        diffs_view(final(diffs)@) == diffs_view(old(diffs)@) + gb200_boot_diff(*f, mac@),
{
    let mut ms = chars_of("/MAC(");
    let digits = mac_digits(mac, "");
    extend_chars(&mut ms, &digits);
    extend_str(&mut ms, ",");
    let expected = find_gb200_http(&f.boot_options, &ms);
    let actual = boot_order_first_option(&f.boot_options, &f.boot_order);
    let d = compare_boot_options(&f.boot_options, expected, actual);
    push_opt_diff(diffs, d);
}

fn push_secure_boot_diff(diffs: &mut Vec<MachineSetupDiff>, sb: &Option<SecureBootFacts>)
    ensures
        diffs_view(final(diffs)@) == diffs_view(old(diffs)@) + secure_boot_diff(*sb),
{
    match secure_boot_status(sb) {
        Ok(true) => {
            let k = chars_of("SecureBoot");
            let e = chars_of("false");
            let a = chars_of("true");
            push_diff(diffs, make_diff(&k, &e, &a));
            assert(diffs_view(diffs@) =~= diffs_view(old(diffs)@) + secure_boot_diff(*sb));
        },
        _ => {
            assert(diffs_view(diffs@) =~= diffs_view(old(diffs)@) + secure_boot_diff(*sb));
        },
    }
}

// ---------------------------------------------------------------- the whole status

/// The name `Debug` gives a lockdown state.
pub open spec fn lockdown_name(s: InternalLockdownStatus) -> Seq<char> {
    match s {
        InternalLockdownStatus::Enabled => "Enabled"@,
        InternalLockdownStatus::Disabled => "Disabled"@,
        InternalLockdownStatus::Partial => "Partial"@,
    }
}

/// The lockdown difference: lockdown that is known and not enabled.
pub open spec fn lockdown_diff(l: Option<LockdownStatus>) -> Seq<DiffView> {
    match l {
        Some(s) => if s.status != InternalLockdownStatus::Enabled {
            seq![("lockdown"@, "Enabled"@, lockdown_name(s.status))]
        } else {
            Seq::empty()
        },
        None => Seq::empty(),
    }
}

/// A boot check that applies only when the boot MAC address is known.
pub open spec fn with_mac(mac: Option<Seq<u8>>, d: spec_fn(Seq<u8>) -> Seq<DiffView>) -> Seq<DiffView> {
    match mac {
        Some(m) => d(m),
        None => Seq::empty(),
    }
}

/// The differences each hardware family checks, after lockdown:
/// `expected` is the family's list of expected BIOS attributes (for
/// Supermicro, by name prefix).
pub open spec fn family_diffs(hw: HwType, f: SetupFacts, mac: Option<Seq<u8>>, expected: Seq<BiosAttr>) -> Seq<DiffView> {
    match hw {
        HwType::LiteonPowerShelf | HwType::NvSwitch => Seq::empty(),
        HwType::Viking | HwType::Ami | HwType::LenovoAmi | HwType::Hpe | HwType::LenovoGb300 => bios_diffs(
            f.bios,
            expected,
        ) + with_mac(mac, |m: Seq<u8>| opt_to_seq(uefi_prefix_diff(f, m))),
        HwType::Bluefield => bios_diffs(f.bios, expected),
        HwType::Dell => bios_diffs(f.bios, expected) + dell_manager_diffs(f.dell_attributes) + with_mac(
            mac,
            |m: Seq<u8>| dell_boot_diffs(f, m),
        ),
        HwType::Lenovo => bios_diffs(f.bios, expected) + lenovo_boot_diff(f),
        HwType::Supermicro => supermicro_bios_diffs(f.bios, expected) + with_mac(
            mac,
            |m: Seq<u8>| supermicro_boot_diff(f, m),
        ),
        HwType::Gb200 => secure_boot_diff(f.secure_boot) + bios_diffs(f.bios, expected) + with_mac(
            mac,
            |m: Seq<u8>| gb200_boot_diff(f, m),
        ),
    }
}

/// Every difference from the expected setup, lockdown first.
pub open spec fn setup_diffs(
    hw: HwType,
    f: SetupFacts,
    lockdown: Option<LockdownStatus>,
    mac: Option<Seq<u8>>,
    expected: Seq<BiosAttr>,
) -> Seq<DiffView> {
    lockdown_diff(lockdown) + family_diffs(hw, f, mac, expected)
}

/// The setup status of a machine: its differences, and whether there are
/// none.
#[derive(Clone, Debug)]
pub struct MachineSetupStatus {
    pub is_done: bool,
    pub diffs: Vec<MachineSetupDiff>,
}

/// The boot MAC address as plain values.
pub open spec fn mac_view(mac: Option<[u8; 6]>) -> Option<Seq<u8>> {
    match mac {
        Some(m) => Some(m@),
        None => None,
    }
}

fn push_lockdown_diff(diffs: &mut Vec<MachineSetupDiff>, lockdown: &Option<LockdownStatus>)
    ensures
        diffs_view(final(diffs)@) == diffs_view(old(diffs)@) + lockdown_diff(*lockdown),
{
    match lockdown {
        Some(l) => {
            if l.status != InternalLockdownStatus::Enabled {
                let k = chars_of("lockdown");
                let e = chars_of("Enabled");
                let a = match l.status {
                    InternalLockdownStatus::Enabled => chars_of("Enabled"),
                    InternalLockdownStatus::Disabled => chars_of("Disabled"),
                    InternalLockdownStatus::Partial => chars_of("Partial"),
                };
                push_diff(diffs, make_diff(&k, &e, &a));
            }
            assert(diffs_view(diffs@) =~= diffs_view(old(diffs)@) + lockdown_diff(*lockdown));
        },
        None => {
            assert(diffs_view(diffs@) =~= diffs_view(old(diffs)@) + lockdown_diff(*lockdown));
        },
    }
}

fn push_uefi_prefix_diff(diffs: &mut Vec<MachineSetupDiff>, f: &SetupFacts, mac: &Option<[u8; 6]>)
    ensures
        diffs_view(final(diffs)@) == diffs_view(old(diffs)@) + with_mac(
            mac_view(*mac),
            |m: Seq<u8>| opt_to_seq(uefi_prefix_diff(*f, m)),
        ),
{
    match mac {
        Some(m) => {
            let d = check_boot_by_uefi_prefix(f, m);
            push_opt_diff(diffs, d);
        },
        None => {
            assert(diffs_view(diffs@) =~= diffs_view(old(diffs)@) + Seq::<DiffView>::empty());
        },
    }
}

#[verifier::spinoff_prover]
#[verifier::rlimit(40)]
fn push_family_diffs(
    diffs: &mut Vec<MachineSetupDiff>,
    hw: HwType,
    f: &SetupFacts,
    mac: &Option<[u8; 6]>,
    expected: &Vec<BiosAttr>,
)
    ensures
        diffs_view(final(diffs)@) == diffs_view(old(diffs)@) + family_diffs(hw, *f, mac_view(*mac), expected@),
{
    let ghost start = diffs_view(diffs@);
    match hw {
        HwType::LiteonPowerShelf | HwType::NvSwitch => {
            assert(diffs_view(diffs@) =~= start + Seq::<DiffView>::empty());
        },
        HwType::Viking | HwType::Ami | HwType::LenovoAmi | HwType::Hpe | HwType::LenovoGb300 => {
            push_bios_diffs(diffs, &f.bios, expected);
            push_uefi_prefix_diff(diffs, f, mac);
            assert(diffs_view(diffs@) =~= start + family_diffs(hw, *f, mac_view(*mac), expected@));
        },
        HwType::Bluefield => {
            push_bios_diffs(diffs, &f.bios, expected);
        },
        HwType::Dell => {
            push_bios_diffs(diffs, &f.bios, expected);
            let ghost a = diffs_view(diffs@);
            push_expected_str_diff(diffs, &f.dell_attributes, "WebServer.1.HostHeaderCheck", "Disabled");
            push_expected_str_diff(diffs, &f.dell_attributes, "IPMILan.1.Enable", "Enabled");
            push_expected_str_diff(diffs, &f.dell_attributes, "OS-BMC.1.AdminState", "Disabled");
            let ghost b = diffs_view(diffs@);
            assert(b =~= a + dell_manager_diffs(f.dell_attributes));
            match mac {
                Some(m) => push_dell_boot_diffs(diffs, f, m),
                None => {},
            }
            assert(diffs_view(diffs@) =~= start + family_diffs(hw, *f, mac_view(*mac), expected@));
        },
        HwType::Lenovo => {
            push_bios_diffs(diffs, &f.bios, expected);
            push_lenovo_boot_diff(diffs, f);
            assert(diffs_view(diffs@) =~= start + family_diffs(hw, *f, mac_view(*mac), expected@));
        },
        HwType::Supermicro => {
            push_supermicro_bios_diffs(diffs, &f.bios, expected);
            match mac {
                Some(m) => push_supermicro_boot_diff(diffs, f, m),
                None => {},
            }
            assert(diffs_view(diffs@) =~= start + family_diffs(hw, *f, mac_view(*mac), expected@));
        },
        HwType::Gb200 => {
            push_secure_boot_diff(diffs, &f.secure_boot);
            push_bios_diffs(diffs, &f.bios, expected);
            match mac {
                Some(m) => push_gb200_boot_diff(diffs, f, m),
                None => {},
            }
            assert(diffs_view(diffs@) =~= start + family_diffs(hw, *f, mac_view(*mac), expected@));
        },
    }
}

/// An expected BIOS attribute with key `key` and string value `v`.
pub open spec fn str_attr_is(a: BiosAttr, key: Seq<char>, v: Seq<char>) -> bool {
    a.key@ == key && (a.value matches BiosAttrValue::Str(s) && s@ == v)
}

/// An expected BIOS attribute with key `key` and integer value `n`.
pub open spec fn int_attr_is(a: BiosAttr, key: Seq<char>, n: i64) -> bool {
    a.key@ == key && a.value == BiosAttrValue::Int(n)
}

/// The BIOS attributes a Lenovo GB300 machine is expected to hold, in the
/// order they are checked.
pub open spec fn is_lenovo_gb300_bios(t: Seq<BiosAttr>) -> bool {
    &&& t.len() == 8
    &&& str_attr_is(t[0], "PCIS007"@, "PCIS007Enabled"@)
    &&& int_attr_is(t[1], "LEM0001"@, 3i64)
    &&& str_attr_is(t[2], "NWSK000"@, "NWSK000Enabled"@)
    &&& str_attr_is(t[3], "NWSK001"@, "NWSK001Disabled"@)
    &&& str_attr_is(t[4], "NWSK006"@, "NWSK006Enabled"@)
    &&& str_attr_is(t[5], "NWSK002"@, "NWSK002Disabled"@)
    &&& str_attr_is(t[6], "NWSK007"@, "NWSK007Disabled"@)
    &&& int_attr_is(t[7], "LEM0003"@, 50i64)
}

fn push_attr(t: &mut Vec<BiosAttr>, key: &str, value: BiosAttrValue)
    ensures
        final(t)@.len() == old(t)@.len() + 1,
        forall|i: int| 0 <= i < old(t)@.len() ==> final(t)@[i] == old(t)@[i],
        final(t)@.last().key@ == key@,
        final(t)@.last().value == value,
{
    t.push(BiosAttr { key: String::from_str(key), value });
}

/// The BIOS attributes a Lenovo GB300 machine is expected to hold.
pub fn lenovo_gb300_expected_bios() -> (t: Vec<BiosAttr>)
    ensures
        is_lenovo_gb300_bios(t@),
{
    let mut t: Vec<BiosAttr> = Vec::new();
    push_attr(&mut t, "PCIS007", BiosAttrValue::Str(String::from_str("PCIS007Enabled")));  // SR-IOV support
    push_attr(&mut t, "LEM0001", BiosAttrValue::Int(3i64));  // PXE retry count
    push_attr(&mut t, "NWSK000", BiosAttrValue::Str(String::from_str("NWSK000Enabled")));  // network stack
    push_attr(&mut t, "NWSK001", BiosAttrValue::Str(String::from_str("NWSK001Disabled")));  // IPv4 PXE support
    push_attr(&mut t, "NWSK006", BiosAttrValue::Str(String::from_str("NWSK006Enabled")));  // IPv4 HTTP support
    push_attr(&mut t, "NWSK002", BiosAttrValue::Str(String::from_str("NWSK002Disabled")));  // IPv6 PXE support
    push_attr(&mut t, "NWSK007", BiosAttrValue::Str(String::from_str("NWSK007Disabled")));  // IPv6 HTTP support
    push_attr(&mut t, "LEM0003", BiosAttrValue::Int(50i64));  // infinite boot
    t
}

/// Two expected values that say the same.
pub open spec fn same_expected_value(a: BiosAttrValue, b: BiosAttrValue) -> bool {
    match (a, b) {
        (BiosAttrValue::Str(x), BiosAttrValue::Str(y)) => x@ == y@,
        (BiosAttrValue::Bool(x), BiosAttrValue::Bool(y)) => x == y,
        (BiosAttrValue::Int(x), BiosAttrValue::Int(y)) => x == y,
        _ => false,
    }
}

proof fn lemma_bios_diffs_same(bios: Option<Attributes>, t1: Seq<BiosAttr>, t2: Seq<BiosAttr>)
    requires
        t1.len() == t2.len(),
        forall|i: int| 0 <= i < t1.len() ==> t1[i].key@ == t2[i].key@ && same_expected_value(t1[i].value, t2[i].value),
    ensures
        bios_diffs(bios, t1) == bios_diffs(bios, t2),
    decreases t1.len(),
{
    if t1.len() > 0 {
        lemma_bios_diffs_same(bios, t1.drop_last(), t2.drop_last());
        let a = t1.last();
        let b = t2.last();
        assert(t1[t1.len() - 1] == a && t2[t2.len() - 1] == b);
        assert(verify_attr(bios, a.key@, a.value) == verify_attr(bios, b.key@, b.value));
    }
}

/// Law: the setup differences of a Lenovo GB300 machine are the same for
/// any two lists that hold its expected BIOS attributes.
pub proof fn lemma_lenovo_gb300_diffs_determined(
    f: SetupFacts,
    lockdown: Option<LockdownStatus>,
    mac: Option<Seq<u8>>,
    t1: Seq<BiosAttr>,
    t2: Seq<BiosAttr>,
)
    requires
        is_lenovo_gb300_bios(t1),
        is_lenovo_gb300_bios(t2),
    ensures
        setup_diffs(HwType::LenovoGb300, f, lockdown, mac, t1) == setup_diffs(HwType::LenovoGb300, f, lockdown, mac, t2),
{
    lemma_bios_diffs_same(f.bios, t1, t2);
}

/// The setup status of an explored machine of family `hw`, given its
/// lockdown state, the MAC address it should boot from, and the BIOS
/// attributes its family expects; a Lenovo GB300 machine is held to the
/// library's own list of expected attributes and `expected_bios` is not
/// read for it.
pub fn machine_setup_status(
    hw: HwType,
    f: &SetupFacts,
    lockdown: &Option<LockdownStatus>,
    boot_interface_mac: &Option<[u8; 6]>,
    expected_bios: &Vec<BiosAttr>,
) -> (r: MachineSetupStatus)
    ensures
        hw != HwType::LenovoGb300 ==> diffs_view(r.diffs@) == setup_diffs(
            hw,
            *f,
            *lockdown,
            mac_view(*boot_interface_mac),
            expected_bios@,
        ),
        hw == HwType::LenovoGb300 ==> exists|t: Seq<BiosAttr>|
            is_lenovo_gb300_bios(t) && diffs_view(r.diffs@) == #[trigger] setup_diffs(
                hw,
                *f,
                *lockdown,
                mac_view(*boot_interface_mac),
                t,
            ),
        r.is_done == (r.diffs@.len() == 0),
{
    let gb300: Vec<BiosAttr> = match hw {
        HwType::LenovoGb300 => lenovo_gb300_expected_bios(),
        _ => Vec::new(),
    };
    let table: &Vec<BiosAttr> = match hw {
        HwType::LenovoGb300 => &gb300,
        _ => expected_bios,
    };
    let mut diffs: Vec<MachineSetupDiff> = Vec::new();
    assert(diffs_view(diffs@) =~= Seq::<DiffView>::empty());
    push_lockdown_diff(&mut diffs, lockdown);
    push_family_diffs(&mut diffs, hw, f, boot_interface_mac, table);
    assert(diffs_view(diffs@) =~= setup_diffs(hw, *f, *lockdown, mac_view(*boot_interface_mac), table@));
    let is_done = diffs.len() == 0;
    MachineSetupStatus { is_done, diffs }
}

} // verus!
