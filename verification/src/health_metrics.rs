//! Naming of health metrics: component kinds, unit and identifier
//! sanitization, gauge keys, the numeric codes of NVUE statuses, and the
//! per-endpoint log state file path.

use vstd::prelude::*;
use crate::text::{ascii_lower, is_ascii_alnum, replace_all, replace_str, sanitize_ascii, sanitize_char, sanitized, str_eq};

verus! {

/// Kind of a pipeline component whose operations are measured.
#[derive(Clone, Copy, Debug, PartialEq, Eq, Structural)]
pub enum ComponentKind {
    Collector,
    Processor,
    Sink,
}

/// The label value of a component kind.
pub open spec fn component_kind_text(k: ComponentKind) -> Seq<char> {
    match k {
        ComponentKind::Collector => "collector"@,
        ComponentKind::Processor => "processor"@,
        ComponentKind::Sink => "sink"@,
    }
}

impl ComponentKind {
    /// The label value of this kind.
    pub fn as_str(self) -> (r: &'static str)
        ensures
            r@ == component_kind_text(self),
    {
        match self {
            ComponentKind::Collector => "collector",
            ComponentKind::Processor => "processor",
            ComponentKind::Sink => "sink",
        }
    }
}

/// Result of a collector iteration.
#[derive(Clone, Debug)]
pub struct IterationResult {
    /// Whether a refresh was triggered (data was fetched vs cached).
    pub refresh_triggered: bool,
    /// Number of entities collected, if applicable.
    pub entity_count: Option<usize>,
    /// Number of partial fetch failures tolerated during the iteration.
    pub fetch_failures: usize,
}

/// Key of a gauge reading.
#[derive(Clone, Debug, Hash, PartialEq, Eq)]
pub struct GaugeKey(pub String);

impl GaugeKey {
    /// The key with text `s`.
    pub fn from(s: String) -> (k: GaugeKey)
        ensures
            k.0@ == s@,
    {
        GaugeKey(s)
    }
}

/// The lower-case form of `s` under Unicode case mapping, as
/// `str::to_lowercase` computes it.
pub uninterp spec fn unicode_lowercase(s: Seq<char>) -> Seq<char>;

/// Whether every character of `s` is ASCII.
pub open spec fn all_ascii(s: Seq<char>) -> bool {
    forall|i: int| 0 <= i < s.len() ==> (s[i] as int) < 128
}

/// Lower-cases `s` with `str::to_lowercase`; the contract names the result,
/// which depends on `s` alone, and states the one case it spells out: on
/// ASCII text, Unicode's lower-case mapping turns `A`-`Z` into `a`-`z` and
/// leaves every other character as it is.
#[verifier::external_body]
pub(crate) fn to_lowercase(s: &str) -> (r: String)
    ensures
        r@ == unicode_lowercase(s@),
        all_ascii(s@) ==> r@ == s@.map_values(|c: char| ascii_lower(c)),
{
    s.to_lowercase()
}

/// The metric unit that a lower-cased unit spelling stands for, if it is one
/// of the known spellings.
pub open spec fn unit_alias(lowered: Seq<char>) -> Option<Seq<char>> {
    if lowered == "%"@ {
        Some("percent"@)
    } else if lowered == "°c"@ || lowered == "c"@ || lowered == "cel"@ {
        Some("celsius"@)
    } else if lowered == "°f"@ || lowered == "f"@ {
        Some("fahrenheit"@)
    } else if lowered == "v"@ {
        Some("volts"@)
    } else if lowered == "a"@ || lowered == "amps"@ {
        Some("amperes"@)
    } else if lowered == "w"@ {
        Some("watts"@)
    } else if lowered == "hz"@ {
        Some("hertz"@)
    } else {
        None
    }
}

/// The sanitized unit for `unit`, whose lower-cased form is `lowered`.
pub open spec fn sanitized_unit(unit: Seq<char>, lowered: Seq<char>) -> Seq<char> {
    match unit_alias(lowered) {
        Some(a) => a,
        None => sanitized(unit),
    }
}

/// The sanitized unit for `unit`, given its lower-cased form `lowered`:
/// known spellings become unit names, anything else keeps its ASCII letters
/// and digits (lower-cased) with every other character replaced by `_`.
pub fn sanitize_unit_lowered(unit: &str, lowered: &str) -> (r: String)
    ensures
        r@ == sanitized_unit(unit@, lowered@),
{
    if str_eq(lowered, "%") {
        String::from_str("percent")
    } else if str_eq(lowered, "°c") || str_eq(lowered, "c") || str_eq(lowered, "cel") {
        String::from_str("celsius")
    } else if str_eq(lowered, "°f") || str_eq(lowered, "f") {
        String::from_str("fahrenheit")
    } else if str_eq(lowered, "v") {
        String::from_str("volts")
    } else if str_eq(lowered, "a") || str_eq(lowered, "amps") {
        String::from_str("amperes")
    } else if str_eq(lowered, "w") {
        String::from_str("watts")
    } else if str_eq(lowered, "hz") {
        String::from_str("hertz")
    } else {
        sanitize_ascii(unit)
    }
}

/// A character of a metric unit name: a lower-case ASCII letter, a digit
/// or `_`.
pub open spec fn unit_name_char(c: char) -> bool {
    ('a' <= c <= 'z') || ('0' <= c <= '9') || c == '_'
}

/// A metric unit name: made of unit name characters, and no spelling that
/// stands for another unit.
pub open spec fn is_unit_name(s: Seq<char>) -> bool {
    &&& forall|i: int| 0 <= i < s.len() ==> unit_name_char(#[trigger] s[i])
    &&& unit_alias(s) is None
}

proof fn lemma_alias_spellings(s: Seq<char>)
    requires
        unit_alias(s) is Some,
        forall|i: int| 0 <= i < s.len() ==> unit_name_char(#[trigger] s[i]),
    ensures
        forall|i: int| 0 <= i < s.len() ==> is_ascii_alnum(#[trigger] s[i]),
{
    reveal_strlit("%");
    reveal_strlit("°c");
    reveal_strlit("c");
    reveal_strlit("cel");
    reveal_strlit("°f");
    reveal_strlit("f");
    reveal_strlit("v");
    reveal_strlit("a");
    reveal_strlit("amps");
    reveal_strlit("w");
    reveal_strlit("hz");
    if s == "%"@ {
        assert(unit_name_char(s[0]));
    } else if s == "°c"@ {
        assert(unit_name_char(s[0]));
    } else if s == "°f"@ {
        assert(unit_name_char(s[0]));
    }
}

proof fn lemma_alias_short(s: Seq<char>)
    ensures
        unit_alias(s) is Some ==> s.len() <= 4,
{
    reveal_strlit("%");
    reveal_strlit("°c");
    reveal_strlit("c");
    reveal_strlit("cel");
    reveal_strlit("°f");
    reveal_strlit("f");
    reveal_strlit("v");
    reveal_strlit("a");
    reveal_strlit("amps");
    reveal_strlit("w");
    reveal_strlit("hz");
}

proof fn lemma_unit_name_word(s: Seq<char>)
    requires
        s.len() >= 5,
        forall|i: int| 0 <= i < s.len() ==> 'a' <= #[trigger] s[i] <= 'z',
    ensures
        is_unit_name(s),
{
    lemma_alias_short(s);
}

proof fn lemma_unit_names()
    ensures
        is_unit_name("percent"@),
        is_unit_name("celsius"@),
        is_unit_name("fahrenheit"@),
        is_unit_name("volts"@),
        is_unit_name("amperes"@),
        is_unit_name("watts"@),
        is_unit_name("hertz"@),
{
    reveal_strlit("percent");
    lemma_unit_name_word("percent"@);
    reveal_strlit("celsius");
    lemma_unit_name_word("celsius"@);
    reveal_strlit("fahrenheit");
    lemma_unit_name_word("fahrenheit"@);
    reveal_strlit("volts");
    lemma_unit_name_word("volts"@);
    reveal_strlit("amperes");
    lemma_unit_name_word("amperes"@);
    reveal_strlit("watts");
    lemma_unit_name_word("watts"@);
    reveal_strlit("hertz");
    lemma_unit_name_word("hertz"@);
}

/// The metric unit name for a unit as a sensor reports it. The result is
/// always a unit name, and a unit name is given back unchanged, so
/// sanitizing a sanitized unit gives it back; a unit that is no known
/// spelling keeps its length.
pub fn sanitize_unit(unit: &str) -> (r: String)
    ensures
        r@ == sanitized_unit(unit@, unicode_lowercase(unit@)),
        is_unit_name(r@),
        is_unit_name(unit@) ==> r@ == unit@,
        unit_alias(unicode_lowercase(unit@)) is None ==> r@.len() == unit@.len(),
{
    let lowered = to_lowercase(unit);
    let r = sanitize_unit_lowered(unit, lowered.as_str());
    proof {
        lemma_unit_names();
        let u = unit@;
        if unit_alias(lowered@) is None {
            assert(r@ == sanitized(u));
            assert forall|i: int| 0 <= i < r@.len() implies unit_name_char(#[trigger] r@[i]) by {
                assert(r@[i] == sanitize_char(u[i]));
            }
            if unit_alias(r@) is Some {
                lemma_alias_spellings(r@);
                assert forall|i: int| 0 <= i < u.len() implies is_ascii_alnum(#[trigger] u[i]) by {
                    assert(r@[i] == sanitize_char(u[i]));
                    assert(is_ascii_alnum(r@[i]));
                }
                assert(all_ascii(u));
                assert(lowered@ =~= r@);
            }
        }
        if is_unit_name(u) {
            assert(all_ascii(u));
            assert(lowered@ =~= u);
            assert(sanitized(u) =~= u);
        }
    }
    r
}

/// An identifier reduced to lower-case ASCII letters, digits and `_`.
pub fn sanitize_id(value: &str) -> (r: String)
    ensures
        r@ == sanitized(value@),
{
    sanitize_ascii(value)
}

/// The name of the gauge metrics of one collector on one endpoint.
pub open spec fn stream_metric_text(endpoint_key: Seq<char>, collector_type: Seq<char>) -> Seq<char> {
    "sink_gauge_metrics_"@ + sanitized(endpoint_key) + "_"@ + sanitized(collector_type)
}

/// The name of the gauge metrics of collector `collector_type` on the
/// endpoint `endpoint_key`.
pub fn stream_metric_id(endpoint_key: &str, collector_type: &str) -> (r: String)
    ensures
        r@ == stream_metric_text(endpoint_key@, collector_type@),
{
    let mut s = String::from_str("sink_gauge_metrics_");
    let a = sanitize_id(endpoint_key);
    s.append(a.as_str());
    s.append("_");
    let b = sanitize_id(collector_type);
    s.append(b.as_str());
    s
}

/// The gauge key of a metric sample: its key, metric type and unit joined by `::`.
pub fn metric_reading_key(key: &str, metric_type: &str, unit: &str) -> (r: String)
    ensures
        r@ == key@ + "::"@ + metric_type@ + "::"@ + unit@,
{
    let mut s = String::from_str(key);
    s.append("::");
    s.append(metric_type);
    s.append("::");
    s.append(unit);
    s
}

/// The key of an NVUE metric: its type, followed by `:` and the entity
/// qualifier when there is one.
pub fn nvue_metric_key(metric_type: &str, entity_qualifier: Option<&str>) -> (r: String)
    ensures
        entity_qualifier is None ==> r@ == metric_type@,
        entity_qualifier matches Some(q) ==> r@ == metric_type@ + ":"@ + q@,
{
    let mut s = String::from_str(metric_type);
    match entity_qualifier {
        Some(q) => {
            s.append(":");
            s.append(q);
        },
        None => {},
    }
    s
}

/// Code of an NVUE system health status: 1 for "OK", 2 for "Not OK", 0 otherwise.
pub open spec fn system_health_value(status: Option<Seq<char>>) -> u8 {
    match status {
        Some(s) => if s == "OK"@ { 1u8 } else if s == "Not OK"@ { 2u8 } else { 0u8 },
        None => 0u8,
    }
}

/// Code of an NVUE partition health status: 1 healthy, 2 degraded bandwidth,
/// 3 degraded, 4 unhealthy, 0 otherwise.
pub open spec fn partition_health_value(status: Option<Seq<char>>) -> u8 {
    match status {
        Some(s) => if s == "healthy"@ { 1u8 } else if s == "degraded_bandwidth"@ { 2u8 }
            else if s == "degraded"@ { 3u8 } else if s == "unhealthy"@ { 4u8 } else { 0u8 },
        None => 0u8,
    }
}

/// Code of an NVUE application status: 1 for "ok", 2 for "not ok", 0 otherwise.
pub open spec fn app_status_value(status: Option<Seq<char>>) -> u8 {
    match status {
        Some(s) => if s == "ok"@ { 1u8 } else if s == "not ok"@ { 2u8 } else { 0u8 },
        None => 0u8,
    }
}

/// Code of an NVUE diagnostic opcode: 0 for "0" (no issue), 1 for any other.
pub open spec fn diagnostic_opcode_value(code: Seq<char>) -> u8 {
    if code == "0"@ { 0u8 } else { 1u8 }
}

/// The text of an optional string slice.
pub open spec fn opt_str(s: Option<&str>) -> Option<Seq<char>> {
    match s {
        Some(t) => Some(t@),
        None => None,
    }
}

/// Code of an NVUE system health status: 1 for "OK", 2 for "Not OK", 0 otherwise.
pub fn system_health_code(status: Option<&str>) -> (r: u8)
    ensures
        r == system_health_value(opt_str(status)),
{
    match status {
        Some(s) => if str_eq(s, "OK") { 1 } else if str_eq(s, "Not OK") { 2 } else { 0 },
        None => 0,
    }
}

/// Code of an NVUE partition health status: 1 healthy, 2 degraded bandwidth,
/// 3 degraded, 4 unhealthy, 0 otherwise.
pub fn partition_health_code(status: Option<&str>) -> (r: u8)
    ensures
        r == partition_health_value(opt_str(status)),
{
    match status {
        Some(s) => if str_eq(s, "healthy") { 1 } else if str_eq(s, "degraded_bandwidth") { 2 }
            else if str_eq(s, "degraded") { 3 } else if str_eq(s, "unhealthy") { 4 } else { 0 },
        None => 0,
    }
}

/// Code of an NVUE application status: 1 for "ok", 2 for "not ok", 0 otherwise.
pub fn app_status_code(status: Option<&str>) -> (r: u8)
    ensures
        r == app_status_value(opt_str(status)),
{
    match status {
        Some(s) => if str_eq(s, "ok") { 1 } else if str_eq(s, "not ok") { 2 } else { 0 },
        None => 0,
    }
}

/// Code of an NVUE diagnostic opcode: 0 for "0" (no issue), 1 for any other.
pub fn diagnostic_opcode_code(code: &str) -> (r: u8)
    ensures
        r == diagnostic_opcode_value(code@),
{
    if str_eq(code, "0") { 0 } else { 1 }
}

/// The path of the log state file of an endpoint: the template with every
/// `{machine_id}` replaced by the endpoint id.
pub open spec fn logs_state_file_text(template: Seq<char>, endpoint_id: Seq<char>) -> Seq<char> {
    replace_all(template, "{machine_id}"@, endpoint_id)
}

/// The text of the log state file path for `endpoint_id`; callers make
/// a filesystem path of it.
pub fn logs_state_file_path(template: &str, endpoint_id: &str) -> (r: String)
    ensures
        r@ == logs_state_file_text(template@, endpoint_id@),
{
    proof {
        reveal_strlit("{machine_id}");
    }
    replace_str(template, "{machine_id}", endpoint_id)
}

} // verus!
