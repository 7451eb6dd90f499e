//! The integrity verification: which applied optimizations still hold, and
//! what each drift is reported as.
use crate::text::{
    decimal, digits, owned, push_hex_upper_padded, push_str, seq_contains, str_contains, zero_pad,
};
use vstd::prelude::*;

verus! {

/// The timer resolution as the probe judged it (the resolution is a
/// fraction of a millisecond, which the probe formats).
pub enum TimerReading {
    /// At most 0.55 ms.
    Within,
    /// Above the target; the resolution formatted with two decimals.
    Above(String),
    /// The resolution could not be read; the error text.
    Failed(String),
}

/// What the integrity verification reads from the system.
pub struct IntegrityProbe {
    pub timer: TimerReading,
    /// The name of the active power plan, or the error text.
    pub power_plan: Result<String, String>,
    /// The start type of DiagTrack, or the error text when it is not found.
    pub diagtrack_start_type: Result<u32, String>,
    /// MSI mode is active on the GPU.
    pub msi_on_gpu: bool,
    /// How many firewall rules of the tool exist, or the error text.
    pub firewall_rules: Result<usize, String>,
    /// Win32PrioritySeparation, or the error text.
    pub priority_separation: Result<u32, String>,
    /// MMCSS SystemResponsiveness, or the error text.
    pub system_responsiveness: Result<u32, String>,
    /// NetworkThrottlingIndex, or the error text.
    pub network_throttling: Result<u32, String>,
}

/// The outcome of the verification.
pub struct IntegrityReport {
    /// How many checks passed.
    pub ok_count: usize,
    /// Each drift: the check's name and what was found.
    pub issues: Vec<(String, String)>,
}

/// A drift: the check's name and its description.
pub type Issue = (Seq<char>, Seq<char>);

/// The drift of the timer check, if any.
pub open spec fn timer_issue(t: TimerReading) -> Option<Issue> {
    match t {
        TimerReading::Within => None,
        TimerReading::Above(ms) => Some(("Timer"@, "Resolution "@ + ms@ + "ms, expected 0.5ms"@)),
        TimerReading::Failed(e) => Some(("Timer"@, e@)),
    }
}

/// A plan counts as a performance plan when its name holds "High",
/// "Ultimate" or "Bitsum".
pub open spec fn performance_plan(plan: Seq<char>) -> bool {
    seq_contains(plan, "High"@) || seq_contains(plan, "Ultimate"@) || seq_contains(plan, "Bitsum"@)
}

/// Whether the plan named `plan` is a performance plan.
pub fn is_performance_plan(plan: &str) -> (r: bool)
    ensures
        r == performance_plan(plan@),
{
    str_contains(plan, "High") || str_contains(plan, "Ultimate") || str_contains(plan, "Bitsum")
}

/// The drift of the power plan check, if any.
pub open spec fn power_issue(r: Result<String, String>) -> Option<Issue> {
    match r {
        Ok(plan) => if performance_plan(plan@) {
            None
        } else {
            Some(("Power"@, "Active plan: "@ + plan@ + ", expected High/Ultimate"@))
        },
        Err(e) => Some(("Power"@, e@)),
    }
}

/// The drift of the DiagTrack check, if any: a missing service passes.
pub open spec fn diagtrack_issue(r: Result<u32, String>) -> Option<Issue> {
    match r {
        Ok(st) => if st == 4 {
            None
        } else {
            Some(("DiagTrack"@, "start_type="@ + digits(st as nat, 10, false) + ", expected 4 (Disabled)"@))
        },
        Err(_) => None,
    }
}

/// The drift of the MSI check, if any.
pub open spec fn msi_issue(on: bool) -> Option<Issue> {
    if on {
        None
    } else {
        Some(("MSI"@, "MSI Mode not active on GPU"@))
    }
}

/// The drift of the firewall check, if any.
pub open spec fn firewall_issue(r: Result<usize, String>) -> Option<Issue> {
    match r {
        Ok(n) => if n > 0 {
            None
        } else {
            Some(("Firewall"@, "No pieuvre rules active"@))
        },
        Err(e) => Some(("Firewall"@, e@)),
    }
}

/// The drift of the scheduler check, if any.
pub open spec fn scheduler_issue(r: Result<u32, String>) -> Option<Issue> {
    match r {
        Ok(v) => if v == 0x26 {
            None
        } else {
            Some((
                "Scheduler"@,
                "Win32PrioritySeparation=0x"@ + zero_pad(digits(v as nat, 16, true), 2) + ", expected 0x26"@,
            ))
        },
        Err(e) => Some(("Scheduler"@, e@)),
    }
}

/// The drift of the MMCSS check, if any.
pub open spec fn mmcss_issue(r: Result<u32, String>) -> Option<Issue> {
    match r {
        Ok(v) => if v == 10 {
            None
        } else {
            Some(("MMCSS"@, "SystemResponsiveness="@ + digits(v as nat, 10, false) + "%, expected 10%"@))
        },
        Err(_) => Some(("MMCSS"@, "SystemResponsiveness not configured"@)),
    }
}

/// The drift of the network throttling check, if any.
pub open spec fn throttling_issue(r: Result<u32, String>) -> Option<Issue> {
    match r {
        Ok(v) => if v == 0xFFFF_FFFF {
            None
        } else {
            Some((
                "NetworkThrottle"@,
                "NetworkThrottlingIndex=0x"@ + zero_pad(digits(v as nat, 16, true), 8) + ", expected OFF"@,
            ))
        },
        Err(_) => Some(("NetworkThrottle"@, "Not configured"@)),
    }
}

/// The outcome of every check, in the order they run.
pub open spec fn check_outcomes(p: IntegrityProbe) -> Seq<Option<Issue>> {
    seq![
        timer_issue(p.timer),
        power_issue(p.power_plan),
        diagtrack_issue(p.diagtrack_start_type),
        msi_issue(p.msi_on_gpu),
        firewall_issue(p.firewall_rules),
        scheduler_issue(p.priority_separation),
        mmcss_issue(p.system_responsiveness),
        throttling_issue(p.network_throttling),
    ]
}

/// The drifts among `outcomes`, in order.
pub open spec fn issues_of(outcomes: Seq<Option<Issue>>) -> Seq<Issue>
    decreases outcomes.len(),
{
    if outcomes.len() == 0 {
        Seq::empty()
    } else {
        issues_of(outcomes.drop_last()) + match outcomes.last() {
            Some(i) => seq![i],
            None => Seq::empty(),
        }
    }
}

/// How many of `outcomes` passed.
pub open spec fn passed(outcomes: Seq<Option<Issue>>) -> nat
    decreases outcomes.len(),
{
    if outcomes.len() == 0 {
        0
    } else {
        passed(outcomes.drop_last()) + if outcomes.last() is None {
            1nat
        } else {
            0nat
        }
    }
}

/// Appends one outcome to the report being built.
fn record(report: &mut IntegrityReport, outcome: Option<(String, String)>, done: Ghost<Seq<Option<Issue>>>)
    requires
        old(report).ok_count == passed(done@),
        old(report).issues@.map_values(|i: (String, String)| (i.0@, i.1@)) == issues_of(done@),
        done@.len() < 8,
    ensures
        final(report).ok_count == passed(done@.push(view_outcome(outcome))),
        final(report).issues@.map_values(|i: (String, String)| (i.0@, i.1@)) == issues_of(
            done@.push(view_outcome(outcome)),
        ),
{
    let ghost all = done@.push(view_outcome(outcome));
    assert(all.drop_last() =~= done@);
    assert(passed(done@) <= done@.len()) by {
        lemma_passed_bound(done@);
    }
    match outcome {
        Some(i) => {
            let ghost before = report.issues@;
            report.issues.push(i);
            assert(report.issues@.map_values(|i: (String, String)| (i.0@, i.1@)) =~= before.map_values(
                |i: (String, String)| (i.0@, i.1@),
            ) + seq![(i.0@, i.1@)]);
        },
        None => {
            report.ok_count = report.ok_count + 1;
            assert(report.issues@.map_values(|i: (String, String)| (i.0@, i.1@)) =~= issues_of(all));
        },
    }
}

/// At most every outcome passed.
proof fn lemma_passed_bound(outcomes: Seq<Option<Issue>>)
    ensures
        passed(outcomes) <= outcomes.len(),
    decreases outcomes.len(),
{
    if outcomes.len() > 0 {
        lemma_passed_bound(outcomes.drop_last());
    }
}

/// The view of an outcome.
pub open spec fn view_outcome(o: Option<(String, String)>) -> Option<Issue> {
    match o {
        Some(i) => Some((i.0@, i.1@)),
        None => None,
    }
}

/// `a` followed by `b`.
fn joined(a: &str, b: &str) -> (r: String)
    ensures
        r@ == a@ + b@,
{
    let mut r = owned(a);
    push_str(&mut r, b);
    r
}

/// The drift of the timer check, if any.
fn check_timer(t: &TimerReading) -> (r: Option<(String, String)>)
    ensures
        view_outcome(r) == timer_issue(*t),
{
    match t {
        TimerReading::Within => None,
        TimerReading::Above(ms) => {
            let mut d = joined("Resolution ", ms.as_str());
            push_str(&mut d, "ms, expected 0.5ms");
            Some((owned("Timer"), d))
        },
        TimerReading::Failed(e) => Some((owned("Timer"), owned(e.as_str()))),
    }
}

/// The drift of the power plan check, if any.
fn check_power(r: &Result<String, String>) -> (o: Option<(String, String)>)
    ensures
        view_outcome(o) == power_issue(*r),
{
    match r {
        Ok(plan) => {
            let p = plan.as_str();
            if is_performance_plan(p) {
                None
            } else {
                let mut d = joined("Active plan: ", p);
                push_str(&mut d, ", expected High/Ultimate");
                Some((owned("Power"), d))
            }
        },
        Err(e) => Some((owned("Power"), owned(e.as_str()))),
    }
}

/// The drift of the DiagTrack check, if any.
fn check_diagtrack(r: &Result<u32, String>) -> (o: Option<(String, String)>)
    ensures
        view_outcome(o) == diagtrack_issue(*r),
{
    match r {
        Ok(st) => if *st == 4 {
            None
        } else {
            let mut d = joined("start_type=", decimal(*st as u64).as_str());
            push_str(&mut d, ", expected 4 (Disabled)");
            Some((owned("DiagTrack"), d))
        },
        Err(_) => None,
    }
}

/// The drift of the firewall check, if any.
fn check_firewall(r: &Result<usize, String>) -> (o: Option<(String, String)>)
    ensures
        view_outcome(o) == firewall_issue(*r),
{
    match r {
        Ok(n) => if *n > 0 {
            None
        } else {
            Some((owned("Firewall"), owned("No pieuvre rules active")))
        },
        Err(e) => Some((owned("Firewall"), owned(e.as_str()))),
    }
}

/// The drift of the scheduler check, if any.
fn check_scheduler(r: &Result<u32, String>) -> (o: Option<(String, String)>)
    ensures
        view_outcome(o) == scheduler_issue(*r),
{
    match r {
        Ok(v) => if *v == 0x26 {
            None
        } else {
            let mut d = owned("Win32PrioritySeparation=0x");
            push_hex_upper_padded(&mut d, *v as u64, 2);
            push_str(&mut d, ", expected 0x26");
            Some((owned("Scheduler"), d))
        },
        Err(e) => Some((owned("Scheduler"), owned(e.as_str()))),
    }
}

/// The drift of the MMCSS check, if any.
fn check_mmcss(r: &Result<u32, String>) -> (o: Option<(String, String)>)
    ensures
        view_outcome(o) == mmcss_issue(*r),
{
    match r {
        Ok(v) => if *v == 10 {
            None
        } else {
            let mut d = joined("SystemResponsiveness=", decimal(*v as u64).as_str());
            push_str(&mut d, "%, expected 10%");
            Some((owned("MMCSS"), d))
        },
        Err(_) => Some((owned("MMCSS"), owned("SystemResponsiveness not configured"))),
    }
}

/// The drift of the network throttling check, if any.
fn check_throttling(r: &Result<u32, String>) -> (o: Option<(String, String)>)
    ensures
        view_outcome(o) == throttling_issue(*r),
{
    match r {
        Ok(v) => if *v == 0xFFFF_FFFF {
            None
        } else {
            let mut d = owned("NetworkThrottlingIndex=0x");
            push_hex_upper_padded(&mut d, *v as u64, 8);
            push_str(&mut d, ", expected OFF");
            Some((owned("NetworkThrottle"), d))
        },
        Err(_) => Some((owned("NetworkThrottle"), owned("Not configured"))),
    }
}

/// Runs every check on what the probe read: how many passed, and each drift
/// in the order of the checks.
pub fn evaluate_integrity(probe: &IntegrityProbe) -> (r: IntegrityReport)
    ensures
        r.ok_count == passed(check_outcomes(*probe)),
        r.issues@.map_values(|i: (String, String)| (i.0@, i.1@)) == issues_of(check_outcomes(*probe)),
{
    let ghost all = check_outcomes(*probe);
    let mut report = IntegrityReport { ok_count: 0, issues: Vec::new() };
    assert(report.issues@.map_values(|i: (String, String)| (i.0@, i.1@)) =~= issues_of(all.take(0)));
    record(&mut report, check_timer(&probe.timer), Ghost(all.take(0)));
    assert(all.take(0).push(all[0]) =~= all.take(1));
    record(&mut report, check_power(&probe.power_plan), Ghost(all.take(1)));
    assert(all.take(1).push(all[1]) =~= all.take(2));
    record(&mut report, check_diagtrack(&probe.diagtrack_start_type), Ghost(all.take(2)));
    assert(all.take(2).push(all[2]) =~= all.take(3));
    let msi = if probe.msi_on_gpu {
        None
    } else {
        Some((owned("MSI"), owned("MSI Mode not active on GPU")))
    };
    record(&mut report, msi, Ghost(all.take(3)));
    assert(all.take(3).push(all[3]) =~= all.take(4));
    record(&mut report, check_firewall(&probe.firewall_rules), Ghost(all.take(4)));
    assert(all.take(4).push(all[4]) =~= all.take(5));
    record(&mut report, check_scheduler(&probe.priority_separation), Ghost(all.take(5)));
    assert(all.take(5).push(all[5]) =~= all.take(6));
    record(&mut report, check_mmcss(&probe.system_responsiveness), Ghost(all.take(6)));
    assert(all.take(6).push(all[6]) =~= all.take(7));
    record(&mut report, check_throttling(&probe.network_throttling), Ghost(all.take(7)));
    assert(all.take(7).push(all[7]) =~= all);
    report
}

/// Every check is counted once: the checks that passed and the drifts
/// reported make up all the checks.
pub proof fn lemma_every_check_counted(p: IntegrityProbe)
    ensures
        passed(check_outcomes(p)) + issues_of(check_outcomes(p)).len() == 8,
{
    lemma_outcomes_partition(check_outcomes(p));
}

/// Each outcome either passed or gave one drift.
proof fn lemma_outcomes_partition(outcomes: Seq<Option<Issue>>)
    ensures
        passed(outcomes) + issues_of(outcomes).len() == outcomes.len(),
    decreases outcomes.len(),
{
    if outcomes.len() > 0 {
        lemma_outcomes_partition(outcomes.drop_last());
    }
}

} // verus!
