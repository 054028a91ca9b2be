//! How far an explored machine is from the setup it should have: BIOS
//! attributes that differ from what the hardware family expects, boot
//! order that does not start from the boot interface, lockdown that is not
//! enabled. Each difference is reported with the expected and the actual
//! value.

use vstd::prelude::*;
use crate::bmc_attrs::{Attributes, AttrValue, append_joined, bool_text, bool_value, int_value, join, opt_attr, push_bool, push_signed, signed_decimal, str_value};
use crate::text::{extend_str, str_eq, string_of};

verus! {

/// One difference between the expected and the actual setup.
#[derive(Clone, Debug)]
pub struct MachineSetupDiff {
    pub key: String,
    pub expected: String,
    pub actual: String,
}

/// A difference as plain values: key, expected, actual.
pub type DiffView = (Seq<char>, Seq<char>, Seq<char>);

/// The difference as plain values.
pub open spec fn diff_view(d: MachineSetupDiff) -> DiffView {
    (d.key@, d.expected@, d.actual@)
}

/// Differences as plain values.
pub open spec fn diffs_view(v: Seq<MachineSetupDiff>) -> Seq<DiffView> {
    v.map_values(|d: MachineSetupDiff| diff_view(d))
}

/// The one difference, if any, as a sequence.
pub open spec fn opt_to_seq(o: Option<DiffView>) -> Seq<DiffView> {
    match o {
        Some(d) => seq![d],
        None => Seq::empty(),
    }
}

/// A difference built from its three texts.
pub fn make_diff(key: &Vec<char>, expected: &Vec<char>, actual: &Vec<char>) -> (d: MachineSetupDiff)
    ensures
        diff_view(d) == (key@, expected@, actual@),
{
    MachineSetupDiff { key: string_of(key), expected: string_of(expected), actual: string_of(actual) }
}

/// Appends one difference.
pub fn push_diff(diffs: &mut Vec<MachineSetupDiff>, d: MachineSetupDiff)
    ensures
        diffs_view(final(diffs)@) == diffs_view(old(diffs)@).push(diff_view(d)),
{
    diffs.push(d);
    assert(diffs_view(diffs@) =~= diffs_view(old(diffs)@).push(diff_view(d)));
}

/// Appends the difference, if there is one.
pub fn push_opt_diff(diffs: &mut Vec<MachineSetupDiff>, d: Option<MachineSetupDiff>)
    ensures
        diffs_view(final(diffs)@) == diffs_view(old(diffs)@) + opt_to_seq(
            match d {
                Some(x) => Some(diff_view(x)),
                None => None,
            },
        ),
{
    match d {
        Some(x) => push_diff(diffs, x),
        None => {
            assert(diffs_view(diffs@) =~= diffs_view(old(diffs)@) + Seq::<DiffView>::empty());
        },
    }
}

/// The value a BIOS attribute is expected to hold.
#[derive(Clone, Debug)]
pub enum BiosAttrValue {
    Str(String),
    Bool(bool),
    Int(i64),
    /// Any one of these strings.
    AnyStr(Vec<String>),
}

/// A BIOS attribute and the value it is expected to hold.
#[derive(Clone, Debug)]
pub struct BiosAttr {
    pub key: String,
    pub value: BiosAttrValue,
}

/// Whether an actual attribute value is the expected one.
pub open spec fn attr_matches(a: AttrValue, e: BiosAttrValue) -> bool {
    match e {
        BiosAttrValue::Str(v) => str_value(Some(a)) == Some(v@),
        BiosAttrValue::Bool(v) => bool_value(Some(a)) == Some(v),
        BiosAttrValue::Int(v) => int_value(Some(a)) == Some(v),
        BiosAttrValue::AnyStr(vs) => any_str_matches(a, vs@),
    }
}

/// Whether the actual value is one of the strings.
pub open spec fn any_str_matches(a: AttrValue, vs: Seq<String>) -> bool {
    exists|i: int| 0 <= i < vs.len() && str_value(Some(a)) == Some(#[trigger] vs[i]@)
}

/// The texts of a list of strings.
pub open spec fn texts(vs: Seq<String>) -> Seq<Seq<char>> {
    vs.map_values(|s: String| s@)
}

/// The text of an expected value.
pub open spec fn expected_text(e: BiosAttrValue) -> Seq<char> {
    match e {
        BiosAttrValue::Str(v) => v@,
        BiosAttrValue::Bool(b) => bool_text(b),
        BiosAttrValue::Int(n) => signed_decimal(n as int),
        BiosAttrValue::AnyStr(vs) => join(texts(vs@), " or "@),
    }
}

/// The text of an actual value.
pub open spec fn actual_text(a: AttrValue) -> Seq<char> {
    match a {
        AttrValue::Str(s) => s@,
        AttrValue::Bool(b) => bool_text(b),
        AttrValue::Int(n) => signed_decimal(n as int),
        AttrValue::Other => "unexpected type"@,
    }
}

/// The difference for one expected BIOS attribute: none when the
/// attribute is absent or holds the expected value.
pub open spec fn verify_attr(bios: Option<Attributes>, key: Seq<char>, value: BiosAttrValue) -> Option<DiffView> {
    match opt_attr(bios, key) {
        Some(a) => if attr_matches(a, value) {
            None
        } else {
            Some((key, expected_text(value), actual_text(a)))
        },
        None => None,
    }
}

/// Whether the BIOS attribute holds the expected value (`None` when the
/// BIOS does not have it).
pub open spec fn bios_attr_eq_spec(bios: Option<Attributes>, expected: BiosAttr) -> Option<bool> {
    match opt_attr(bios, expected.key@) {
        Some(a) => Some(attr_matches(a, expected.value)),
        None => None,
    }
}

fn matches_value(a: &AttrValue, e: &BiosAttrValue) -> (r: bool)
    ensures
        r == attr_matches(*a, *e),
{
    match e {
        BiosAttrValue::Str(v) => match a {
            AttrValue::Str(s) => str_eq(s.as_str(), v.as_str()),
            _ => false,
        },
        BiosAttrValue::Bool(v) => match a {
            AttrValue::Bool(b) => *b == *v,
            _ => false,
        },
        BiosAttrValue::Int(v) => match a {
            AttrValue::Int(n) => *n == *v,
            _ => false,
        },
        BiosAttrValue::AnyStr(vs) => match a {
            AttrValue::Str(s) => {
                let mut i: usize = 0;
                while i < vs.len()
                    invariant
                        i <= vs@.len(),
                        *a == AttrValue::Str(*s),
                        *e == BiosAttrValue::AnyStr(*vs),
                        forall|j: int| 0 <= j < i ==> vs@[j]@ != s@,
                    decreases vs.len() - i,
                {
                    if str_eq(s.as_str(), vs[i].as_str()) {
                        assert(str_value(Some(*a)) == Some(vs@[i as int]@));
                        assert(any_str_matches(*a, vs@));
                        return true;
                    }
                    i = i + 1;
                }
                false
            },
            _ => false,
        },
    }
}

fn expected_text_of(e: &BiosAttrValue) -> (t: Vec<char>)
    ensures
        t@ == expected_text(*e),
{
    let mut t: Vec<char> = Vec::new();
    match e {
        BiosAttrValue::Str(v) => extend_str(&mut t, v.as_str()),
        BiosAttrValue::Bool(b) => push_bool(&mut t, *b),
        BiosAttrValue::Int(n) => push_signed(&mut t, *n),
        BiosAttrValue::AnyStr(vs) => {
            let mut i: usize = 0;
            while i < vs.len()
                invariant
                    i <= vs@.len(),
                    t@ == join(texts(vs@.take(i as int)), " or "@),
                decreases vs.len() - i,
            {
                let mut p: Vec<char> = Vec::new();
                extend_str(&mut p, vs[i].as_str());
                append_joined(&mut t, i > 0, " or ", &p, Ghost(texts(vs@.take(i as int))));
                assert(texts(vs@.take(i as int)).push(p@) =~= texts(vs@.take(i + 1)));
                i = i + 1;
            }
            assert(vs@.take(vs@.len() as int) =~= vs@);
        },
    }
    t
}

fn actual_text_of(a: &AttrValue) -> (t: Vec<char>)
    ensures
        t@ == actual_text(*a),
{
    let mut t: Vec<char> = Vec::new();
    match a {
        AttrValue::Str(s) => extend_str(&mut t, s.as_str()),
        AttrValue::Bool(b) => push_bool(&mut t, *b),
        AttrValue::Int(n) => push_signed(&mut t, *n),
        AttrValue::Other => extend_str(&mut t, "unexpected type"),
    }
    t
}

/// The difference for one expected BIOS attribute under `key`.
pub fn verify_bios_attr(bios: &Option<Attributes>, key: &str, value: &BiosAttrValue) -> (r: Option<MachineSetupDiff>)
    ensures
        match r {
            Some(d) => verify_attr(*bios, key@, *value) == Some(diff_view(d)),
            None => verify_attr(*bios, key@, *value) is None,
        },
{
    let b = match bios {
        None => {
            return None;
        },
        Some(b) => b,
    };
    match b.find(key) {
        None => None,
        Some(i) => {
            let a = &b.entries[i].1;
            if matches_value(a, value) {
                None
            } else {
                let mut k: Vec<char> = Vec::new();
                extend_str(&mut k, key);
                let e = expected_text_of(value);
                let t = actual_text_of(a);
                Some(make_diff(&k, &e, &t))
            }
        },
    }
}

/// Whether the BIOS attribute holds the expected value.
pub fn bios_attr_eq(bios: &Option<Attributes>, expected: &BiosAttr) -> (r: Option<bool>)
    ensures
        r == bios_attr_eq_spec(*bios, *expected),
{
    let b = match bios {
        None => {
            return None;
        },
        Some(b) => b,
    };
    match b.find(expected.key.as_str()) {
        None => None,
        Some(i) => Some(matches_value(&b.entries[i].1, &expected.value)),
    }
}

/// The differences for a list of expected BIOS attributes, in list order.
pub open spec fn bios_diffs(bios: Option<Attributes>, expected: Seq<BiosAttr>) -> Seq<DiffView>
    decreases expected.len(),
{
    if expected.len() == 0 {
        Seq::empty()
    } else {
        bios_diffs(bios, expected.drop_last()) + opt_to_seq(
            verify_attr(bios, expected.last().key@, expected.last().value),
        )
    }
}

/// Appends the differences for a list of expected BIOS attributes.
pub fn push_bios_diffs(diffs: &mut Vec<MachineSetupDiff>, bios: &Option<Attributes>, expected: &Vec<BiosAttr>)
    ensures
        diffs_view(final(diffs)@) == diffs_view(old(diffs)@) + bios_diffs(*bios, expected@),
{
    let mut i: usize = 0;
    while i < expected.len()
        invariant
            i <= expected@.len(),
            diffs_view(diffs@) == diffs_view(old(diffs)@) + bios_diffs(*bios, expected@.take(i as int)),
        decreases expected.len() - i,
    {
        let d = verify_bios_attr(bios, expected[i].key.as_str(), &expected[i].value);
        push_opt_diff(diffs, d);
        assert(expected@.take(i + 1).drop_last() =~= expected@.take(i as int));
        i = i + 1;
    }
    assert(expected@.take(expected@.len() as int) =~= expected@);
}

} // verus!
