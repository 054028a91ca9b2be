//! Facts read from a BMC during exploration, held as plain values: keyed
//! attribute documents (BIOS attributes, Dell OEM attributes), the errors
//! exploration reports, and the text renderings that messages are built of.

use vstd::prelude::*;
use crate::text::{decimal, push_decimal, string_of, chars_of, extend_chars};

verus! {

/// The hardware family of an explored BMC.
#[derive(Clone, Copy, Debug, PartialEq, Eq, Structural)]
pub enum HwType {
    Viking,
    Ami,
    Dell,
    LenovoAmi,
    Lenovo,
    Supermicro,
    Hpe,
    Bluefield,
    Gb200,
    NvSwitch,
    LenovoGb300,
    LiteonPowerShelf,
}

/// One value of a keyed attribute document.
#[derive(Clone, Debug)]
pub enum AttrValue {
    Str(String),
    Bool(bool),
    Int(i64),
    /// A value of any other JSON type.
    Other,
}

/// A keyed attribute document, entries in document order.
#[derive(Clone, Debug)]
pub struct Attributes {
    pub entries: Vec<(String, AttrValue)>,
}

/// The value of the first entry from position `i` on whose key is `key`.
pub open spec fn attr_from(entries: Seq<(String, AttrValue)>, key: Seq<char>, i: int) -> Option<AttrValue>
    decreases entries.len() - i,
{
    if i < 0 || i >= entries.len() {
        None
    } else if entries[i].0@ == key {
        Some(entries[i].1)
    } else {
        attr_from(entries, key, i + 1)
    }
}

/// The value stored under `key` (the first entry with that key).
pub open spec fn attr_lookup(entries: Seq<(String, AttrValue)>, key: Seq<char>) -> Option<AttrValue> {
    attr_from(entries, key, 0)
}

/// The attribute under `key` of an optional document.
pub open spec fn opt_attr(doc: Option<Attributes>, key: Seq<char>) -> Option<AttrValue> {
    match doc {
        Some(d) => attr_lookup(d.entries@, key),
        None => None,
    }
}

/// The characters of an optional string.
pub open spec fn opt_seq(o: Option<String>) -> Option<Seq<char>> {
    match o {
        Some(s) => Some(s@),
        None => None,
    }
}

/// The string held by an attribute, if it holds one.
pub open spec fn str_value(a: Option<AttrValue>) -> Option<Seq<char>> {
    match a {
        Some(AttrValue::Str(s)) => Some(s@),
        _ => None,
    }
}

/// The boolean held by an attribute, if it holds one.
pub open spec fn bool_value(a: Option<AttrValue>) -> Option<bool> {
    match a {
        Some(AttrValue::Bool(b)) => Some(b),
        _ => None,
    }
}

/// The integer held by an attribute, if it holds one.
pub open spec fn int_value(a: Option<AttrValue>) -> Option<i64> {
    match a {
        Some(AttrValue::Int(n)) => Some(n),
        _ => None,
    }
}

impl Attributes {
    /// Position of the entry stored under `key`.
    pub fn find(&self, key: &str) -> (r: Option<usize>)
        ensures
            match r {
                None => attr_lookup(self.entries@, key@) is None,
                Some(i) => i < self.entries@.len() && attr_lookup(self.entries@, key@) == Some(
                    self.entries@[i as int].1,
                ),
            },
    {
        let mut i: usize = 0;
        while i < self.entries.len()
            invariant
                i <= self.entries@.len(),
                attr_from(self.entries@, key@, 0) == attr_from(self.entries@, key@, i as int),
            decreases self.entries.len() - i,
        {
            if crate::text::str_eq(self.entries[i].0.as_str(), key) {
                return Some(i);
            }
            i = i + 1;
        }
        None
    }

    /// The string stored under `key`, if the entry holds a string.
    pub fn str_attr(&self, key: &str) -> (r: Option<String>)
        ensures
            match r {
                None => str_value(attr_lookup(self.entries@, key@)) is None,
                Some(s) => str_value(attr_lookup(self.entries@, key@)) == Some(s@),
            },
    {
        match self.find(key) {
            None => None,
            Some(i) => match &self.entries[i].1 {
                AttrValue::Str(s) => Some(s.clone()),
                _ => None,
            },
        }
    }
}

/// The string stored under `key` in an optional document.
pub fn opt_str_attr(doc: &Option<Attributes>, key: &str) -> (r: Option<String>)
    ensures
        match r {
            None => str_value(opt_attr(*doc, key@)) is None,
            Some(s) => str_value(opt_attr(*doc, key@)) == Some(s@),
        },
{
    match doc {
        None => None,
        Some(d) => d.str_attr(key),
    }
}

/// Why exploring a BMC failed.
#[derive(Clone, Debug)]
pub enum ExploreError {
    /// The BMC did not provide a resource or property that is needed.
    BmcNotProvided(String),
    /// The BMC provided a value that cannot be used.
    InvalidValue(String),
}

/// The error as plain values.
pub enum ExploreErrorView {
    BmcNotProvided(Seq<char>),
    InvalidValue(Seq<char>),
}

impl View for ExploreError {
    type V = ExploreErrorView;

    open spec fn view(&self) -> ExploreErrorView {
        match self {
            ExploreError::BmcNotProvided(s) => ExploreErrorView::BmcNotProvided(s@),
            ExploreError::InvalidValue(s) => ExploreErrorView::InvalidValue(s@),
        }
    }
}

/// The error for a resource or property the BMC did not provide.
pub fn not_provided(what: &str) -> (e: ExploreError)
    ensures
        e@ == ExploreErrorView::BmcNotProvided(what@),
{
    let v = chars_of(what);
    ExploreError::BmcNotProvided(string_of(&v))
}

/// The text of a boolean.
pub open spec fn bool_text(b: bool) -> Seq<char> {
    if b { "true"@ } else { "false"@ }
}

/// Appends the text of `b`.
pub fn push_bool(v: &mut Vec<char>, b: bool)
    ensures
        final(v)@ == old(v)@ + bool_text(b),
{
    if b {
        crate::text::extend_str(v, "true");
    } else {
        crate::text::extend_str(v, "false");
    }
}

/// The decimal text of a signed integer.
pub open spec fn signed_decimal(n: int) -> Seq<char> {
    if n < 0 { seq!['-'] + decimal((-n) as nat) } else { decimal(n as nat) }
}

/// Appends the decimal text of `n`.
pub fn push_signed(v: &mut Vec<char>, n: i64)
    ensures
        final(v)@ == old(v)@ + signed_decimal(n as int),
{
    if n < 0 {
        v.push('-');
        let m: u64 = ((-(n + 1)) as u64) + 1;
        let ghost before = v@;
        push_decimal(v, m);
        assert(v@ =~= old(v)@ + signed_decimal(n as int));
    } else {
        push_decimal(v, n as u64);
    }
}

/// What `<str as Debug>::fmt` writes for a string: the quoted, escaped text.
pub uninterp spec fn str_debug(s: Seq<char>) -> Seq<char>;

/// Renders `s` with `Debug`; `format!("{:?}", s)` of std.
#[verifier::external_body]
fn debug_text(s: &str) -> (r: String)
    ensures
        r@ == str_debug(s@),
{
    format!("{:?}", s)
}

/// What `Debug` writes for an optional string.
pub open spec fn opt_str_debug(o: Option<Seq<char>>) -> Seq<char> {
    match o {
        None => "None"@,
        Some(s) => "Some("@ + str_debug(s) + ")"@,
    }
}

/// Appends what `Debug` writes for `o`.
pub fn push_opt_str_debug(v: &mut Vec<char>, o: &Option<String>)
    ensures
        final(v)@ == old(v)@ + opt_str_debug(opt_seq(*o)),
{
    match o {
        None => crate::text::extend_str(v, "None"),
        Some(s) => {
            crate::text::extend_str(v, "Some(");
            let d = debug_text(s.as_str());
            crate::text::extend_str(v, d.as_str());
            crate::text::extend_str(v, ")");
        },
    }
}

/// The parts joined with `sep` between neighbours.
pub open spec fn join(parts: Seq<Seq<char>>, sep: Seq<char>) -> Seq<char>
    decreases parts.len(),
{
    if parts.len() == 0 {
        Seq::empty()
    } else if parts.len() == 1 {
        parts[0]
    } else {
        join(parts.drop_last(), sep) + sep + parts.last()
    }
}

/// Appends one more part to a joined text.
pub fn append_joined(v: &mut Vec<char>, nonempty: bool, sep: &str, p: &Vec<char>, Ghost(parts): Ghost<Seq<Seq<char>>>)
    requires
        old(v)@ == join(parts, sep@),
        nonempty == (parts.len() > 0),
    ensures
        final(v)@ == join(parts.push(p@), sep@),
{
    if nonempty {
        crate::text::extend_str(v, sep);
    }
    crate::text::extend_chars(v, p);
    assert(parts.push(p@).drop_last() =~= parts);
    assert(v@ =~= join(parts.push(p@), sep@));
}


} // verus!
