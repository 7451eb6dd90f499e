//! Drift of tuned settings away from their optimized values.
use vstd::prelude::*;

use crate::text::{decimal, digits, hex_prefixed, owned};

verus! {

/// Compliance report.
#[derive(Debug, Clone)]
pub struct ComplianceReport {
    pub is_compliant: bool,
    pub drifts: Vec<DriftRecord>,
}

/// A setting whose value drifted away from the expected one.
#[derive(Debug, Clone)]
pub struct DriftRecord {
    pub component: String,
    pub setting: String,
    pub expected: String,
    pub actual: String,
    pub severity: ComplianceSeverity,
}

#[derive(Debug, Clone, Copy, PartialEq, Eq, Structural)]
pub enum ComplianceSeverity {
    Low,
    Medium,
    High,
    Critical,
}

/// A drift record as plain text values.
pub struct DriftView {
    pub component: Seq<char>,
    pub setting: Seq<char>,
    pub expected: Seq<char>,
    pub actual: Seq<char>,
    pub severity: ComplianceSeverity,
}

impl View for DriftRecord {
    type V = DriftView;

    open spec fn view(&self) -> DriftView {
        DriftView {
            component: self.component@,
            setting: self.setting@,
            expected: self.expected@,
            actual: self.actual@,
            severity: self.severity,
        }
    }
}

/// The accepted `Win32PrioritySeparation` values: 0x26, 0x18 and 0x2.
pub open spec fn priority_separation_ok(v: u32) -> bool {
    v == 0x26 || v == 0x18 || v == 0x2
}

/// The drifts found for the values read (`None` where a value could not be
/// read): the priority separation first, then the system responsiveness,
/// which drifts above 10.
pub open spec fn expected_drifts(
    priority_separation: Option<u32>,
    system_responsiveness: Option<u32>,
) -> Seq<DriftView> {
    let first = match priority_separation {
        Some(v) => if !priority_separation_ok(v) {
            seq![
                DriftView {
                    component: "Kernel"@,
                    setting: "Win32PrioritySeparation"@,
                    expected: "0x26 or 0x18"@,
                    actual: seq!['0', 'x'] + digits(v as nat, 16, false),
                    severity: ComplianceSeverity::High,
                },
            ]
        } else {
            Seq::empty()
        },
        None => Seq::empty(),
    };
    let second = match system_responsiveness {
        Some(v) => if v > 10 {
            seq![
                DriftView {
                    component: "MMCSS"@,
                    setting: "SystemResponsiveness"@,
                    expected: "10"@,
                    actual: digits(v as nat, 10, false),
                    severity: ComplianceSeverity::Medium,
                },
            ]
        } else {
            Seq::empty()
        },
        None => Seq::empty(),
    };
    first + second
}

/// A `SystemResponsiveness` value drifts exactly when it exceeds 10, the
/// expected value written in the record: above 10 the report ends with the
/// MMCSS drift carrying the value in decimal, and at 10 or below the value
/// adds nothing to what the priority separation gives.
pub proof fn lemma_responsiveness_drifts_above_10(priority_separation: Option<u32>, v: u32)
    ensures
        v > 10 ==> ({
            let ds = expected_drifts(priority_separation, Some(v));
            &&& ds.len() == expected_drifts(priority_separation, None).len() + 1
            &&& ds.last() == (DriftView {
                component: "MMCSS"@,
                setting: "SystemResponsiveness"@,
                expected: "10"@,
                actual: digits(v as nat, 10, false),
                severity: ComplianceSeverity::Medium,
            })
        }),
        v <= 10 ==> expected_drifts(priority_separation, Some(v)) == expected_drifts(
            priority_separation,
            None,
        ),
{
    let first = expected_drifts(priority_separation, None);
    assert(first + Seq::<DriftView>::empty() =~= first);
}

/// A priority separation of 0x26, 0x18 or 0x2 never drifts; any other value
/// read drifts, reported first with the value in hexadecimal.
pub proof fn lemma_priority_separation_drifts_unless_accepted(v: u32, system_responsiveness: Option<u32>)
    ensures
        (v == 0x26 || v == 0x18 || v == 0x2) ==> expected_drifts(Some(v), system_responsiveness)
            == expected_drifts(None, system_responsiveness),
        !(v == 0x26 || v == 0x18 || v == 0x2) ==> expected_drifts(Some(v), system_responsiveness)[0]
            == (DriftView {
            component: "Kernel"@,
            setting: "Win32PrioritySeparation"@,
            expected: "0x26 or 0x18"@,
            actual: seq!['0', 'x'] + digits(v as nat, 16, false),
            severity: ComplianceSeverity::High,
        }),
{
    let second = expected_drifts(None, system_responsiveness);
    assert(Seq::<DriftView>::empty() + second =~= second);
}

/// Checks the tuned settings against their optimized values, from the
/// `Win32PrioritySeparation` and `SystemResponsiveness` values read from the
/// registry (`None` where a read failed; such a setting is skipped).
pub fn check_configuration_drift(
    priority_separation: Option<u32>,
    system_responsiveness: Option<u32>,
) -> (r: ComplianceReport)
    ensures
        r.drifts@.map_values(|d: DriftRecord| d@) == expected_drifts(
            priority_separation,
            system_responsiveness,
        ),
        r.is_compliant == (r.drifts@.len() == 0),
{
    let mut drifts: Vec<DriftRecord> = Vec::new();
    if let Some(val) = priority_separation {
        if val != 0x26 && val != 0x18 && val != 0x2 {
            drifts.push(
                DriftRecord {
                    component: owned("Kernel"),
                    setting: owned("Win32PrioritySeparation"),
                    expected: owned("0x26 or 0x18"),
                    actual: hex_prefixed(val as u64),
                    severity: ComplianceSeverity::High,
                },
            );
        }
    }
    let ghost first = drifts@.map_values(|d: DriftRecord| d@);
    if let Some(val) = system_responsiveness {
        if val > 10 {
            drifts.push(
                DriftRecord {
                    component: owned("MMCSS"),
                    setting: owned("SystemResponsiveness"),
                    expected: owned("10"),
                    actual: decimal(val as u64),
                    severity: ComplianceSeverity::Medium,
                },
            );
        }
    }
    assert(drifts@.map_values(|d: DriftRecord| d@) =~= expected_drifts(
        priority_separation,
        system_responsiveness,
    ));
    let is_compliant = drifts.len() == 0;
    ComplianceReport { is_compliant, drifts }
}

} // verus!
