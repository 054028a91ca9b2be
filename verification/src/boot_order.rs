//! Boot options of an explored system: which option boots first, which
//! option the boot interface should boot from, and how the two compare.

use vstd::prelude::*;
use crate::bmc_attrs::{append_joined, join};
use crate::machine_setup::{DiffView, MachineSetupDiff, make_diff};
use crate::text::{chars_of, digit_char, is_prefix, str_eq};

verus! {

/// One boot option of a computer system, as reported.
#[derive(Clone, Debug)]
pub struct BootOptionFacts {
    pub id: String,
    pub name: String,
    pub display_name: Option<String>,
    pub uefi_device_path: Option<String>,
    /// The reference the boot order uses for this option.
    pub boot_reference: String,
    /// Resource ids of the items the option is related to.
    pub related_items: Vec<String>,
}

/// The first position from `i` on whose element satisfies `p`.
pub open spec fn first_index<T>(s: Seq<T>, p: spec_fn(T) -> bool, i: int) -> Option<int>
    decreases s.len() - i,
{
    if i < 0 || i >= s.len() {
        None
    } else if p(s[i]) {
        Some(i)
    } else {
        first_index(s, p, i + 1)
    }
}

/// Options that the boot order entry `r` refers to.
pub open spec fn refers_to(r: Seq<char>) -> spec_fn(BootOptionFacts) -> bool {
    |o: BootOptionFacts| o.boot_reference@ == r
}

/// The option that boots first: the first option the first boot order
/// entry refers to.
pub open spec fn first_boot_option(opts: Seq<BootOptionFacts>, order: Option<Seq<String>>) -> Option<int> {
    match order {
        Some(o) => if o.len() > 0 {
            first_index(opts, refers_to(o[0]@), 0)
        } else {
            None
        },
        None => None,
    }
}

/// The boot order as plain values.
pub open spec fn order_view(order: Option<Vec<String>>) -> Option<Seq<String>> {
    match order {
        Some(o) => Some(o@),
        None => None,
    }
}

/// The option that boots first.
pub fn boot_order_first_option(opts: &Vec<BootOptionFacts>, order: &Option<Vec<String>>) -> (r: Option<usize>)
    ensures
        match r {
            Some(i) => i < opts@.len() && first_boot_option(opts@, order_view(*order)) == Some(i as int),
            None => first_boot_option(opts@, order_view(*order)) is None,
        },
{
    let first = match order {
        None => {
            return None;
        },
        Some(o) => {
            if o.len() == 0 {
                return None;
            }
            &o[0]
        },
    };
    let ghost p = refers_to(first@);
    assert(first_boot_option(opts@, order_view(*order)) == first_index(opts@, p, 0));
    let mut i: usize = 0;
    while i < opts.len()
        invariant
            i <= opts@.len(),
            p == refers_to(first@),
            first_boot_option(opts@, order_view(*order)) == first_index(opts@, p, 0),
            first_index(opts@, p, 0) == first_index(opts@, p, i as int),
        decreases opts.len() - i,
    {
        if str_eq(opts[i].boot_reference.as_str(), first.as_str()) {
            return Some(i);
        }
        i = i + 1;
    }
    None
}

/// How an option is named in a difference: its display name, else its id;
/// "Not found" when there is no option.
pub open spec fn option_label(opts: Seq<BootOptionFacts>, i: Option<int>) -> Seq<char> {
    match i {
        Some(k) => match opts[k].display_name {
            Some(d) => d@,
            None => opts[k].id@,
        },
        None => "Not found"@,
    }
}

/// The id of an option, if there is one.
pub open spec fn option_id(opts: Seq<BootOptionFacts>, i: Option<int>) -> Option<Seq<char>> {
    match i {
        Some(k) => Some(opts[k].id@),
        None => None,
    }
}

/// The difference between the option that should boot first and the one
/// that does: none when the expected option exists and has the id of the
/// actual first one.
pub open spec fn compare_boot(opts: Seq<BootOptionFacts>, expected: Option<int>, actual: Option<int>) -> Option<DiffView> {
    if expected is None || option_id(opts, actual) != option_id(opts, expected) {
        Some(("boot_first"@, option_label(opts, expected), option_label(opts, actual)))
    } else {
        None
    }
}

fn label_of(opts: &Vec<BootOptionFacts>, i: Option<usize>) -> (t: Vec<char>)
    requires
        i matches Some(k) ==> k < opts@.len(),
    ensures
        t@ == option_label(
            opts@,
            match i {
                Some(k) => Some(k as int),
                None => None,
            },
        ),
{
    match i {
        Some(k) => match &opts[k].display_name {
            Some(d) => chars_of(d.as_str()),
            None => chars_of(opts[k].id.as_str()),
        },
        None => chars_of("Not found"),
    }
}

/// The difference between the option that should boot first and the one
/// that does.
pub fn compare_boot_options(opts: &Vec<BootOptionFacts>, expected: Option<usize>, actual: Option<usize>) -> (r: Option<MachineSetupDiff>)
    requires
        expected matches Some(k) ==> k < opts@.len(),
        actual matches Some(k) ==> k < opts@.len(),
    ensures
        match r {
            Some(d) => compare_boot(
                opts@,
                match expected {
                    Some(k) => Some(k as int),
                    None => None,
                },
                match actual {
                    Some(k) => Some(k as int),
                    None => None,
                },
            ) == Some(crate::machine_setup::diff_view(d)),
            None => compare_boot(
                opts@,
                match expected {
                    Some(k) => Some(k as int),
                    None => None,
                },
                match actual {
                    Some(k) => Some(k as int),
                    None => None,
                },
            ) is None,
        },
{
    let same = match (expected, actual) {
        (Some(e), Some(a)) => str_eq(opts[e].id.as_str(), opts[a].id.as_str()),
        _ => false,
    };
    if same {
        None
    } else {
        let k = chars_of("boot_first");
        let e = label_of(opts, expected);
        let a = label_of(opts, actual);
        Some(make_diff(&k, &e, &a))
    }
}

// ---------------------------------------------------------------- MAC addresses

/// The value of a hexadecimal digit.
pub open spec fn hex_digit_value(c: char) -> Option<nat> {
    if '0' <= c <= '9' {
        Some((c as int - '0' as int) as nat)
    } else if 'a' <= c <= 'f' {
        Some((c as int - 'a' as int + 10) as nat)
    } else if 'A' <= c <= 'F' {
        Some((c as int - 'A' as int + 10) as nat)
    } else {
        None
    }
}

/// The value of a non-empty run of hexadecimal digits.
pub open spec fn hex_value(s: Seq<char>) -> Option<nat>
    decreases s.len(),
{
    if s.len() == 0 {
        None
    } else {
        match hex_digit_value(s.last()) {
            None => None,
            Some(d) => if s.len() == 1 {
                Some(d)
            } else {
                match hex_value(s.drop_last()) {
                    None => None,
                    Some(v) => Some(v * 16 + d),
                }
            },
        }
    }
}

/// A byte written in hexadecimal, as `u8::from_str_radix(s, 16)` reads it:
/// an optional `+`, then hexadecimal digits whose value fits in a byte.
pub open spec fn hex_byte(s: Seq<char>) -> Option<u8> {
    let digits = if s.len() > 0 && s[0] == '+' {
        s.drop_first()
    } else {
        s
    };
    match hex_value(digits) {
        Some(v) => if v <= 255 {
            Some(v as u8)
        } else {
            None
        },
        None => None,
    }
}

/// The pieces of `s` between the separators `:` and `-`, in order (empty
/// pieces included).
pub open spec fn mac_pieces(s: Seq<char>) -> Seq<Seq<char>>
    decreases s.len(),
{
    if s.len() == 0 {
        seq![Seq::empty()]
    } else {
        let before = mac_pieces(s.drop_last());
        if s.last() == ':' || s.last() == '-' {
            before.push(Seq::empty())
        } else {
            before.update(before.len() - 1, before.last().push(s.last()))
        }
    }
}

/// A MAC address written with separators: the first six pieces (fewer when
/// there are fewer; the missing bytes are zero) must each be a byte.
pub open spec fn separated_mac(s: Seq<char>) -> Option<Seq<u8>> {
    let ps = mac_pieces(s);
    if forall|i: int| 0 <= i < 6 && i < ps.len() ==> #[trigger] hex_byte(ps[i]) is Some {
        Some(
            Seq::new(
                6,
                |i: int|
                    if i < ps.len() {
                        hex_byte(ps[i])->Some_0
                    } else {
                        0u8
                    },
            ),
        )
    } else {
        None
    }
}

/// A MAC address written without separators: six pairs of characters,
/// each a byte.
pub open spec fn compact_mac(s: Seq<char>) -> Option<Seq<u8>> {
    if forall|i: int| 0 <= i < 6 ==> #[trigger] hex_byte(s.subrange(2 * i, 2 * i + 2)) is Some {
        Some(Seq::new(6, |i: int| hex_byte(s.subrange(2 * i, 2 * i + 2))->Some_0))
    } else {
        None
    }
}

/// What `<MacAddress as FromStr>::from_str` of the mac_address crate gives
/// for a text: ASCII text of 17 characters is read with separators, of 12
/// without; anything else is refused.
pub open spec fn mac_parse(s: Seq<char>) -> Option<Seq<u8>> {
    if !(forall|i: int| 0 <= i < s.len() ==> (#[trigger] s[i] as int) < 128) {
        None
    } else if s.len() == 17 {
        separated_mac(s)
    } else if s.len() == 12 {
        compact_mac(s)
    } else {
        None
    }
}

/// Parses a MAC address with `MacAddress::from_str` of the mac_address
/// crate; the contract claims the result is the parse stated above.
#[verifier::external_body]
pub(crate) fn parse_mac(s: &str) -> (r: Option<[u8; 6]>)
    ensures
        match r {
            Some(b) => mac_parse(s@) == Some(b@),
            None => mac_parse(s@) is None,
        },
{
    match s.parse::<mac_address::MacAddress>() {
        Ok(m) => Some(m.bytes()),
        Err(_) => None,
    }
}

/// Whether two MAC addresses are the same.
pub fn same_mac(a: &[u8; 6], b: &[u8; 6]) -> (r: bool)
    ensures
        r == (a@ == b@),
{
    let mut i: usize = 0;
    while i < 6
        invariant
            i <= 6,
            a@.len() == 6,
            b@.len() == 6,
            forall|j: int| 0 <= j < i ==> a@[j] == b@[j],
        decreases 6 - i,
    {
        if a[i] != b[i] {
            return false;
        }
        i = i + 1;
    }
    assert(a@ =~= b@);
    true
}

/// The upper-case hexadecimal digit for `d` (below sixteen).
pub open spec fn hex_upper_char(d: int) -> char {
    if d < 10 {
        digit_char(d)
    } else if d == 10 {
        'A'
    } else if d == 11 {
        'B'
    } else if d == 12 {
        'C'
    } else if d == 13 {
        'D'
    } else if d == 14 {
        'E'
    } else {
        'F'
    }
}

/// The two upper-case hexadecimal digits of a byte.
pub open spec fn hex_pair(b: u8) -> Seq<char> {
    seq![hex_upper_char((b / 16) as int), hex_upper_char((b % 16) as int)]
}

/// The digit pairs of each byte.
pub open spec fn hex_pairs(b: Seq<u8>) -> Seq<Seq<char>> {
    b.map_values(|x: u8| hex_pair(x))
}

/// How `MacAddress` displays: the digit pairs joined by colons.
pub open spec fn mac_text(b: Seq<u8>) -> Seq<char> {
    join(hex_pairs(b), ":"@)
}

/// The digit pairs with no separator.
pub open spec fn mac_compact(b: Seq<u8>) -> Seq<char> {
    join(hex_pairs(b), ""@)
}

/// The compact form has two digits per byte.
pub proof fn lemma_mac_compact_len(b: Seq<u8>)
    ensures
        mac_compact(b).len() == 2 * b.len(),
    decreases b.len(),
{
    reveal_strlit("");
    if b.len() > 1 {
        lemma_mac_compact_len(b.drop_last());
        assert(hex_pairs(b).drop_last() =~= hex_pairs(b.drop_last()));
    }
}

fn hex_upper_exec(d: u8) -> (c: char)
    requires
        d < 16,
    ensures
        c == hex_upper_char(d as int),
{
    if d == 0 { '0' } else if d == 1 { '1' } else if d == 2 { '2' } else if d == 3 { '3' }
    else if d == 4 { '4' } else if d == 5 { '5' } else if d == 6 { '6' } else if d == 7 { '7' }
    else if d == 8 { '8' } else if d == 9 { '9' } else if d == 10 { 'A' } else if d == 11 { 'B' }
    else if d == 12 { 'C' } else if d == 13 { 'D' } else if d == 14 { 'E' } else { 'F' }
}

/// The upper-case hexadecimal digits of `n`, without leading zeros.
pub open spec fn hex_upper(n: nat) -> Seq<char>
    decreases n,
{
    if n < 16 {
        seq![hex_upper_char(n as int)]
    } else {
        hex_upper(n / 16).push(hex_upper_char((n % 16) as int))
    }
}

/// `s` with leading zeros up to `width` characters.
pub open spec fn zero_padded(s: Seq<char>, width: nat) -> Seq<char> {
    if s.len() >= width {
        s
    } else {
        Seq::new((width - s.len()) as nat, |i: int| '0') + s
    }
}

fn push_hex_upper(v: &mut Vec<char>, n: u64)
    ensures
        final(v)@ == old(v)@ + hex_upper(n as nat),
    decreases n,
{
    if n >= 16 {
        push_hex_upper(v, n / 16);
    }
    v.push(hex_upper_exec((n % 16) as u8));
    assert(v@ =~= old(v)@ + hex_upper(n as nat));
}

/// `n` in upper-case hexadecimal, at least four digits wide (as `{:04X}`
/// formats it).
pub fn hex4_text(n: u64) -> (r: Vec<char>)
    ensures
        r@ == zero_padded(hex_upper(n as nat), 4),
{
    let mut digits: Vec<char> = Vec::new();
    push_hex_upper(&mut digits, n);
    assert(digits@ =~= hex_upper(n as nat));
    let mut r: Vec<char> = Vec::new();
    let mut k: usize = digits.len();
    while k < 4
        invariant
            digits.len() <= k <= 4 || (k == digits.len() && k >= 4),
            r@ == Seq::new((k - digits.len()) as nat, |i: int| '0'),
        decreases 4 - k,
    {
        r.push('0');
        k = k + 1;
        assert(r@ =~= Seq::new((k - digits.len()) as nat, |i: int| '0'));
    }
    crate::text::extend_chars(&mut r, &digits);
    assert(r@ =~= zero_padded(hex_upper(n as nat), 4));
    r
}

/// The two upper-case hexadecimal digits of `b`.
pub fn mac_digits_of_byte(b: u8) -> (t: Vec<char>)
    ensures
        t@ == hex_pair(b),
{
    let mut p: Vec<char> = Vec::new();
    p.push(hex_upper_exec(b / 16));
    p.push(hex_upper_exec(b % 16));
    assert(p@ =~= hex_pair(b));
    p
}

/// The digit pairs of `mac` joined by `sep`.
pub fn mac_digits(mac: &[u8; 6], sep: &str) -> (t: Vec<char>)
    ensures
        t@ == join(hex_pairs(mac@), sep@),
{
    let mut t: Vec<char> = Vec::new();
    let mut i: usize = 0;
    while i < 6
        invariant
            i <= 6,
            mac@.len() == 6,
            t@ == join(hex_pairs(mac@.take(i as int)), sep@),
        decreases 6 - i,
    {
        let b = mac[i];
        let mut p: Vec<char> = Vec::new();
        p.push(hex_upper_exec(b / 16));
        p.push(hex_upper_exec(b % 16));
        assert(p@ =~= hex_pair(b));
        append_joined(&mut t, i > 0, sep, &p, Ghost(hex_pairs(mac@.take(i as int))));
        assert(hex_pairs(mac@.take(i as int)).push(p@) =~= hex_pairs(mac@.take(i + 1)));
        i = i + 1;
    }
    assert(mac@.take(6) =~= mac@);
    t
}

// ---------------------------------------------------------------- UEFI device paths

/// The device path prefix HPE uses in place of `PciRoot(`.
pub const HPE_ACPI_PREFIX: &'static str = "Acpi(0x00168E09,";

/// The usual root of a PCI device path.
pub const PCI_ROOT_PREFIX: &'static str = "PciRoot(";

/// Whether the device path `child` lies under `parent`; an HPE child
/// written from `Acpi(0x00168E09,` matches a parent written from
/// `PciRoot(` on what follows those prefixes.
pub open spec fn is_uefi_tree_child(parent: Seq<char>, child: Seq<char>) -> bool {
    if is_prefix(HPE_ACPI_PREFIX@, child) && is_prefix(PCI_ROOT_PREFIX@, parent) {
        is_prefix(parent.skip(PCI_ROOT_PREFIX@.len() as int), child.skip(HPE_ACPI_PREFIX@.len() as int))
    } else {
        is_prefix(parent, child)
    }
}

fn prefix_from(s: &Vec<char>, i: usize, pre: &Vec<char>, j: usize) -> (r: bool)
    requires
        i <= s@.len(),
        j <= pre@.len(),
    ensures
        r == is_prefix(pre@.skip(j as int), s@.skip(i as int)),
{
    let n = pre.len() - j;
    if n > s.len() - i {
        return false;
    }
    let mut k: usize = 0;
    while k < n
        invariant
            i <= s@.len(),
            j <= pre@.len(),
            n == pre@.len() - j,
            n <= s@.len() - i,
            i + n <= s.len(),
            j + n == pre.len(),
            k <= n,
            forall|m: int| 0 <= m < k ==> #[trigger] s@.skip(i as int)[m] == pre@.skip(j as int)[m],
        decreases n - k,
    {
        if s[i + k] != pre[j + k] {
            assert(s@.skip(i as int).subrange(0, n as int)[k as int] != pre@.skip(j as int)[k as int]);
            return false;
        }
        k = k + 1;
    }
    assert(s@.skip(i as int).subrange(0, n as int) =~= pre@.skip(j as int));
    true
}

/// Whether the device path `child` lies under `parent`.
pub fn uefi_tree_child(parent: &str, child: &str) -> (r: bool)
    ensures
        r == is_uefi_tree_child(parent@, child@),
{
    let c = chars_of(child);
    let p = chars_of(parent);
    let hpe = chars_of(HPE_ACPI_PREFIX);
    let pci = chars_of(PCI_ROOT_PREFIX);
    assert(hpe@.skip(0) =~= hpe@);
    assert(pci@.skip(0) =~= pci@);
    assert(p@.skip(0) =~= p@);
    assert(c@.skip(0) =~= c@);
    let child_hpe = prefix_from(&c, 0, &hpe, 0);
    let parent_pci = prefix_from(&p, 0, &pci, 0);
    if child_hpe && parent_pci {
        prefix_from(&c, hpe.len(), &p, pci.len())
    } else {
        prefix_from(&c, 0, &p, 0)
    }
}

} // verus!
