//! Leak detection over health reports: when enough of a report's alerts
//! come from leak detectors, a derived report announces a leak, naming the
//! detectors; otherwise it reports the leak probe as passing.

use vstd::prelude::*;
use crate::pending_reports::ReportSource;
use crate::text::{
    chars_lt, lemma_lt_total, lemma_lt_transitive, str_lt, chars_of, contains_chars, contains_seq, decimal, occurs_at, extend_chars, extend_str, push_decimal,
    string_of,
};

verus! {

/// Marker that leak-detector alert targets contain.
pub const LEAK_DETECTOR_MARKER: &'static str = "LeakDetector";

/// Strictly increasing, hence without repeats.
pub open spec fn sorted_strict(s: Seq<Seq<char>>) -> bool {
    forall|i: int, j: int| 0 <= i < j < s.len() ==> chars_lt(s[i], s[j])
}

/// The elements of `list` joined with `sep` between consecutive ones.
pub open spec fn joined(list: Seq<Seq<char>>, sep: Seq<char>) -> Seq<char>
    decreases list.len(),
{
    if list.len() == 0 {
        Seq::empty()
    } else if list.len() == 1 {
        list[0]
    } else {
        joined(list.drop_last(), sep) + sep + list.last()
    }
}

/// Inserts `x` into the strictly increasing `list`, unless it is there already.
fn insert_sorted(list: &mut Vec<Vec<char>>, x: Vec<char>)
    requires
        sorted_strict(old(list)@.map_values(|v: Vec<char>| v@)),
    ensures
        sorted_strict(final(list)@.map_values(|v: Vec<char>| v@)),
        final(list)@.map_values(|v: Vec<char>| v@).to_set() == old(list)@.map_values(|v: Vec<char>| v@).to_set().insert(x@),
{
    let ghost s0 = list@.map_values(|v: Vec<char>| v@);
    let mut i: usize = 0;
    while i < list.len()
        invariant
            i <= list@.len(),
            s0 == list@.map_values(|v: Vec<char>| v@),
            s0 == old(list)@.map_values(|v: Vec<char>| v@),
            list@ == old(list)@,
            sorted_strict(s0),
            forall|j: int| 0 <= j < i ==> chars_lt(s0[j], x@),
        decreases list.len() - i,
    {
        if !str_lt(&list[i], &x) {
            proof {
                lemma_lt_total(list@[i as int]@, x@);
            }
            if crate::text::chars_eq(&list[i], &x) {
                proof {
                    assert(s0[i as int] == x@);
                    assert(s0.to_set().insert(x@) =~= s0.to_set());
                }
                return;
            }
            let ghost xv = x@;
            list.insert(i, x);
            proof {
                let s1 = list@.map_values(|v: Vec<char>| v@);
                assert(s1 =~= s0.insert(i as int, xv));
                assert forall|a: int, b: int| 0 <= a < b < s1.len() implies chars_lt(s1[a], s1[b]) by {
                    if b == i {
                    } else if a == i {
                        assert(s1[b] == s0[b - 1]);
                        if b - 1 > i {
                            lemma_lt_transitive(xv, s0[i as int], s0[b - 1]);
                        }
                    } else if a < i && b > i {
                        assert(s1[b] == s0[b - 1]);
                    } else if a > i {
                        assert(s1[a] == s0[a - 1]);
                        assert(s1[b] == s0[b - 1]);
                    }
                }
                assert(s1.to_set() =~= s0.to_set().insert(xv)) by {
                    assert forall|e: Seq<char>| s1.to_set().contains(e) <==> s0.to_set().insert(xv).contains(e) by {
                        if s1.to_set().contains(e) {
                            let k = choose|k: int| 0 <= k < s1.len() && s1[k] == e;
                            if k < i { assert(s0[k] == e); } else if k > i { assert(s0[k - 1] == e); }
                        }
                        if s0.to_set().contains(e) {
                            let k = choose|k: int| 0 <= k < s0.len() && s0[k] == e;
                            if k < i { assert(s1[k] == e); } else { assert(s1[k + 1] == e); }
                        }
                        if e == xv {
                            assert(s1[i as int] == e);
                        }
                    }
                }
            }
            return;
        }
        i = i + 1;
    }
    let ghost xv = x@;
    list.push(x);
    proof {
        let s1 = list@.map_values(|v: Vec<char>| v@);
        assert(s1 =~= s0.push(xv));
        assert(s1.to_set() =~= s0.to_set().insert(xv)) by {
            assert forall|e: Seq<char>| s1.to_set().contains(e) <==> s0.to_set().insert(xv).contains(e) by {
                if s1.to_set().contains(e) {
                    let k = choose|k: int| 0 <= k < s1.len() && s1[k] == e;
                    if k < s0.len() { assert(s0[k] == e); }
                }
                if s0.to_set().contains(e) {
                    let k = choose|k: int| 0 <= k < s0.len() && s0[k] == e;
                    assert(s1[k] == e);
                }
                if e == xv {
                    assert(s1[s0.len() as int] == e);
                }
            }
        }
    }
}

/// Whether an alert with this target comes from a leak detector.
pub open spec fn is_leak_target(target: Option<Seq<char>>) -> bool {
    target matches Some(t) && contains_seq(t, LEAK_DETECTOR_MARKER@)
}

/// Law: an alert comes from a leak detector exactly when its target holds
/// `LeakDetector` somewhere, at the start, in the middle or at the end; an
/// alert without a target never does.
pub proof fn lemma_leak_target_anywhere(t: Seq<char>, before: Seq<char>, after: Seq<char>)
    ensures
        is_leak_target(Some(t)) <==> exists|i: int|
            0 <= i && i + 12 <= t.len() && #[trigger] t.subrange(i, i + 12) == "LeakDetector"@,
        is_leak_target(Some(before + "LeakDetector"@ + after)),
        !is_leak_target(None),
{
    reveal_strlit("LeakDetector");
    let w = before + "LeakDetector"@ + after;
    assert(w.subrange(before.len() as int, before.len() + 12int) =~= "LeakDetector"@);
    assert(occurs_at(w, LEAK_DETECTOR_MARKER@, before.len() as int));
    if is_leak_target(Some(t)) {
        let i = choose|i: int| occurs_at(t, LEAK_DETECTOR_MARKER@, i);
        assert(t.subrange(i, i + 12) == "LeakDetector"@);
    }
    if exists|i: int| 0 <= i && i + 12 <= t.len() && #[trigger] t.subrange(i, i + 12) == "LeakDetector"@ {
        let i = choose|i: int| 0 <= i && i + 12 <= t.len() && #[trigger] t.subrange(i, i + 12) == "LeakDetector"@;
        assert(occurs_at(t, LEAK_DETECTOR_MARKER@, i));
    }
}

/// The targets of the leak-detector alerts among alerts with the given
/// targets, in order.
pub open spec fn leak_targets(targets: Seq<Option<Seq<char>>>) -> Seq<Seq<char>>
    decreases targets.len(),
{
    if targets.len() == 0 {
        Seq::empty()
    } else if is_leak_target(targets.last()) {
        leak_targets(targets.drop_last()).push(targets.last()->Some_0)
    } else {
        leak_targets(targets.drop_last())
    }
}

/// The views of alert targets.
pub open spec fn target_views(targets: Seq<Option<String>>) -> Seq<Option<Seq<char>>> {
    targets.map_values(|t: Option<String>| match t { Some(s) => Some(s@), None => None })
}

/// The detector names of a leak: the distinct leak targets in increasing
/// order joined by `, `, or `unknown` when there is none.
pub open spec fn leak_details_text(details: Seq<Seq<char>>) -> Seq<char> {
    if details.len() == 0 { "unknown"@ } else { joined(details, ", "@) }
}

/// The message announcing a leak.
pub open spec fn leak_message(count: nat, threshold: nat, details: Seq<Seq<char>>) -> Seq<char> {
    "Leak detected: "@ + decimal(count) + " leak-detector alerts reached threshold "@ + decimal(threshold)
        + " (detectors: "@ + leak_details_text(details) + ")"@
}

/// Whether an alert with this target comes from a leak detector.
pub fn is_leak_detector_alert(target: Option<&String>) -> (r: bool)
    ensures
        r == is_leak_target(match target { Some(s) => Some(s@), None => None }),
{
    match target {
        Some(t) => {
            let tc = chars_of(t.as_str());
            let m = chars_of(LEAK_DETECTOR_MARKER);
            contains_chars(&tc, &m)
        },
        None => false,
    }
}

/// What the leak processor derives from a health report.
pub enum LeakReport {
    /// A leak: one alert of the leak probe with this message.
    Leak { message: String },
    /// No leak: the leak probe passes.
    NoLeak,
}

/// The probe a derived report entry is about.
#[derive(Clone, Copy, Debug, PartialEq, Eq, Structural)]
pub enum Probe {
    LeakDetection,
}

/// How an alert is classified.
#[derive(Clone, Copy, Debug, PartialEq, Eq, Structural)]
pub enum Classification {
    Leak,
}

/// A probe that passed.
#[derive(Clone, Debug)]
pub struct ProbeSuccess {
    pub probe_id: Probe,
    pub target: Option<String>,
}

/// An alert of a derived report.
#[derive(Clone, Debug)]
pub struct ProbeAlert {
    pub probe_id: Probe,
    pub target: Option<String>,
    pub message: String,
    pub classifications: Vec<Classification>,
}

/// The health report the leak processor derives from another report.
#[derive(Clone, Debug)]
pub struct DerivedReport {
    pub source: ReportSource,
    pub successes: Vec<ProbeSuccess>,
    pub alerts: Vec<ProbeAlert>,
}

/// Turns health reports into leak reports.
pub struct LeakEventProcessor {
    minimum_alerts_per_report: usize,
}

impl LeakEventProcessor {
    /// A processor that reports a leak once a report holds at least
    /// `minimum_alerts_per_report` leak-detector alerts.
    pub fn new(minimum_alerts_per_report: usize) -> (p: Self)
        ensures
            p.threshold() == minimum_alerts_per_report,
    {
        LeakEventProcessor { minimum_alerts_per_report }
    }

    /// The number of leak-detector alerts that makes a leak.
    pub closed spec fn threshold(&self) -> usize {
        self.minimum_alerts_per_report
    }

    /// Whether `alerts` leak-detector alerts make a leak.
    pub fn is_leaking(&self, alerts: usize) -> (r: bool)
        ensures
            r == (alerts >= self.threshold()),
    {
        alerts >= self.minimum_alerts_per_report
    }

    /// The leak report for a health report whose alerts have the given
    /// targets: a leak, naming the distinct leak detectors in increasing
    /// order, when the leak-detector alerts reach the threshold; otherwise
    /// the leak probe passes.
    pub fn process_alert_targets(&self, targets: &Vec<Option<String>>) -> (r: LeakReport)
        ensures
            leak_targets(target_views(targets@)).len() >= self.threshold() ==> (r matches LeakReport::Leak { message: m }
                && exists|details: Seq<Seq<char>>| #![trigger leak_message(leak_targets(target_views(targets@)).len(), self.threshold() as nat, details)]
                    sorted_strict(details) && details.to_set() == leak_targets(target_views(targets@)).to_set()
                    && m@ == leak_message(leak_targets(target_views(targets@)).len(), self.threshold() as nat, details)),
            leak_targets(target_views(targets@)).len() < self.threshold() ==> r is NoLeak,
    {
        let ghost tv = target_views(targets@);
        let mut count: usize = 0;
        let mut sorted: Vec<Vec<char>> = Vec::new();
        let mut i: usize = 0;
        while i < targets.len()
            invariant
                i <= targets@.len(),
                tv == target_views(targets@),
                count == leak_targets(tv.take(i as int)).len(),
                count <= i,
                sorted_strict(sorted@.map_values(|v: Vec<char>| v@)),
                sorted@.map_values(|v: Vec<char>| v@).to_set() == leak_targets(tv.take(i as int)).to_set(),
            decreases targets.len() - i,
        {
            let t = &targets[i];
            proof {
                assert(tv.take(i + 1).drop_last() =~= tv.take(i as int));
                assert(tv.take(i + 1).last() == tv[i as int]);
            }
            let leak = match t {
                Some(s) => is_leak_detector_alert(Some(s)),
                None => false,
            };
            if leak {
                let tc = chars_of(t.as_ref().unwrap().as_str());
                let ghost before = sorted@.map_values(|v: Vec<char>| v@);
                insert_sorted(&mut sorted, tc);
                count = count + 1;
                proof {
                    let lt = leak_targets(tv.take(i as int));
                    assert(leak_targets(tv.take(i + 1)) == lt.push(tc@));
                    assert(lt.push(tc@).to_set() =~= lt.to_set().insert(tc@)) by {
                        assert forall|e: Seq<char>| lt.push(tc@).to_set().contains(e) <==> lt.to_set().insert(tc@).contains(e) by {
                            if lt.push(tc@).to_set().contains(e) {
                                let k = choose|k: int| 0 <= k < lt.push(tc@).len() && lt.push(tc@)[k] == e;
                                if k < lt.len() { assert(lt[k] == e); }
                            }
                            if lt.to_set().contains(e) {
                                let k = choose|k: int| 0 <= k < lt.len() && lt[k] == e;
                                assert(lt.push(tc@)[k] == e);
                            }
                            if e == tc@ {
                                assert(lt.push(tc@)[lt.len() as int] == e);
                            }
                        }
                    }
                }
            }
            i = i + 1;
        }
        proof {
            assert(tv.take(targets@.len() as int) =~= tv);
        }
        if !self.is_leaking(count) {
            return LeakReport::NoLeak;
        }
        let mut v: Vec<char> = Vec::new();
        extend_str(&mut v, "Leak detected: ");
        push_decimal(&mut v, count as u64);
        extend_str(&mut v, " leak-detector alerts reached threshold ");
        push_decimal(&mut v, self.minimum_alerts_per_report as u64);
        extend_str(&mut v, " (detectors: ");
        let ghost details = sorted@.map_values(|v: Vec<char>| v@);
        if sorted.len() == 0 {
            extend_str(&mut v, "unknown");
        } else {
            let mut j: usize = 0;
            let ghost prefix = v@;
            while j < sorted.len()
                invariant
                    1 <= sorted@.len(),
                    j <= sorted@.len(),
                    details == sorted@.map_values(|v: Vec<char>| v@),
                    v@ == prefix + joined(details.take(j as int), ", "@),
                decreases sorted.len() - j,
            {
                if j > 0 {
                    extend_str(&mut v, ", ");
                }
                extend_chars(&mut v, &sorted[j]);
                proof {
                    assert(details.take(j + 1).drop_last() =~= details.take(j as int));
                    if j == 0 {
                        assert(joined(details.take(0), ", "@) =~= Seq::<char>::empty());
                    }
                    assert(v@ =~= prefix + joined(details.take(j + 1), ", "@));
                }
                j = j + 1;
            }
            assert(details.take(sorted@.len() as int) =~= details);
        }
        extend_str(&mut v, ")");
        let message = string_of(&v);
        proof {
            assert(message@ =~= leak_message(count as nat, self.threshold() as nat, details));
        }
        LeakReport::Leak { message }
    }

    /// The health report derived from a report whose alerts have the given
    /// targets: from the tray leak detection source; on a leak, one alert of
    /// the leak detection probe, with no target, classified as a leak and
    /// carrying the leak message, and no success; otherwise no alert and
    /// one success of the leak detection probe, with no target.
    pub fn derived_report(&self, targets: &Vec<Option<String>>) -> (r: DerivedReport)
        ensures
            r.source == ReportSource::TrayLeakDetection,
            leak_targets(target_views(targets@)).len() >= self.threshold() ==> (r.successes@.len() == 0
                && r.alerts@.len() == 1 && r.alerts@[0].probe_id == Probe::LeakDetection
                && r.alerts@[0].target is None && r.alerts@[0].classifications@ == seq![Classification::Leak]
                && exists|details: Seq<Seq<char>>| #![trigger leak_message(leak_targets(target_views(targets@)).len(), self.threshold() as nat, details)]
                    sorted_strict(details) && details.to_set() == leak_targets(target_views(targets@)).to_set()
                    && r.alerts@[0].message@ == leak_message(leak_targets(target_views(targets@)).len(), self.threshold() as nat, details)),
            leak_targets(target_views(targets@)).len() < self.threshold() ==> (r.alerts@.len() == 0
                && r.successes@.len() == 1 && r.successes@[0].probe_id == Probe::LeakDetection
                && r.successes@[0].target is None),
    {
        match self.process_alert_targets(targets) {
            LeakReport::Leak { message } => {
                let mut classifications: Vec<Classification> = Vec::new();
                classifications.push(Classification::Leak);
                let mut alerts: Vec<ProbeAlert> = Vec::new();
                alerts.push(ProbeAlert { probe_id: Probe::LeakDetection, target: None, message, classifications });
                DerivedReport { source: ReportSource::TrayLeakDetection, successes: Vec::new(), alerts }
            },
            LeakReport::NoLeak => {
                let mut successes: Vec<ProbeSuccess> = Vec::new();
                successes.push(ProbeSuccess { probe_id: Probe::LeakDetection, target: None });
                DerivedReport { source: ReportSource::TrayLeakDetection, successes, alerts: Vec::new() }
            },
        }
    }
}

} // verus!
