//! Security posture audit: Defender, Firewall, UAC, Secure Boot, BitLocker.
use vstd::prelude::*;

use crate::audit::registry::{DefenderStatus, FirewallStatus, UacStatus};
use crate::text::{digits, owned, push_digits, push_str};

verus! {

/// Full system security audit.
#[derive(Debug, Clone)]
pub struct SecurityAudit {
    /// Windows Defender status.
    pub defender: DefenderStatus,
    /// Windows Firewall status.
    pub firewall: FirewallStatus,
    /// UAC status.
    pub uac: UacStatus,
    /// Secure Boot enabled.
    pub secure_boot_enabled: bool,
    /// Credential Guard enabled (VBS).
    pub credential_guard_enabled: bool,
    /// BitLocker enabled on the system drive.
    pub bitlocker_system_encrypted: bool,
    /// Global security score (0-100).
    pub security_score: u32,
    /// Recommendations.
    pub recommendations: Vec<SecurityRecommendation>,
}

/// Security recommendation.
#[derive(Debug, Clone)]
pub struct SecurityRecommendation {
    pub severity: Severity,
    pub category: String,
    pub title: String,
    pub description: String,
    pub remediation: String,
}

/// Severity level.
#[derive(Debug, Clone, Copy, PartialEq, Eq, Structural)]
pub enum Severity {
    Critical,
    High,
    Medium,
    Low,
    Info,
}

/// A recommendation as plain text values.
pub struct RecommendationView {
    pub severity: Severity,
    pub category: Seq<char>,
    pub title: Seq<char>,
    pub description: Seq<char>,
    pub remediation: Seq<char>,
}

impl View for SecurityRecommendation {
    type V = RecommendationView;

    open spec fn view(&self) -> RecommendationView {
        RecommendationView {
            severity: self.severity,
            category: self.category@,
            title: self.title@,
            description: self.description@,
            remediation: self.remediation@,
        }
    }
}

/// One weakness that the audit detects, in the order the audit checks them.
pub enum Finding {
    DefenderDisabled,
    RealtimeProtectionDisabled,
    TamperProtectionDisabled,
    /// Path exclusions are configured; the count of them.
    PathExclusions(usize),
    PublicFirewallDisabled,
    PrivateFirewallDisabled,
    UacDisabled,
    SecureDesktopDisabled,
    SecureBootDisabled,
    CredentialGuardDisabled,
    BitlockerDisabled,
}

/// `fs` followed by `f` when the check `failed`, `fs` otherwise.
pub open spec fn record(fs: Seq<Finding>, failed: bool, f: Finding) -> Seq<Finding> {
    if failed {
        fs.push(f)
    } else {
        fs
    }
}

/// The weaknesses of a system, in the order in which the audit reports them.
pub open spec fn findings(
    defender: DefenderStatus,
    firewall: FirewallStatus,
    uac: UacStatus,
    secure_boot: bool,
    credential_guard: bool,
    bitlocker: bool,
) -> Seq<Finding> {
    system_findings(
        defender_findings(defender),
        firewall,
        uac,
        secure_boot,
        credential_guard,
        bitlocker,
    )
}

/// The findings of the Defender checks.
pub open spec fn defender_findings(defender: DefenderStatus) -> Seq<Finding> {
    let n = defender.exclusion_paths@.len();
    let s1 = record(Seq::empty(), !defender.antispyware_enabled, Finding::DefenderDisabled);
    let s2 = record(s1, !defender.realtime_protection, Finding::RealtimeProtectionDisabled);
    let s3 = record(s2, !defender.tamper_protection, Finding::TamperProtectionDisabled);
    record(s3, n != 0, Finding::PathExclusions(n as usize))
}

/// The findings of the remaining checks, after the Defender findings `s4`.
pub open spec fn system_findings(
    s4: Seq<Finding>,
    firewall: FirewallStatus,
    uac: UacStatus,
    secure_boot: bool,
    credential_guard: bool,
    bitlocker: bool,
) -> Seq<Finding> {
    let s5 = record(s4, !firewall.public_enabled, Finding::PublicFirewallDisabled);
    let s6 = record(s5, !firewall.private_enabled, Finding::PrivateFirewallDisabled);
    let s7 = record(s6, !uac.enabled, Finding::UacDisabled);
    let s8 = record(s7, !uac.secure_desktop, Finding::SecureDesktopDisabled);
    let s9 = record(s8, !secure_boot, Finding::SecureBootDisabled);
    let s10 = record(s9, !credential_guard, Finding::CredentialGuardDisabled);
    record(s10, !bitlocker, Finding::BitlockerDisabled)
}

/// The points that a finding takes off the score.
pub open spec fn penalty(f: Finding) -> nat {
    match f {
        Finding::DefenderDisabled => 25,
        Finding::RealtimeProtectionDisabled => 20,
        Finding::TamperProtectionDisabled => 10,
        Finding::PathExclusions(n) => if n > 5 { 5 } else { 0 },
        Finding::PublicFirewallDisabled => 15,
        Finding::PrivateFirewallDisabled => 10,
        Finding::UacDisabled => 15,
        Finding::SecureDesktopDisabled => 5,
        Finding::SecureBootDisabled => 10,
        Finding::CredentialGuardDisabled => 0,
        Finding::BitlockerDisabled => 0,
    }
}

/// `a - b`, or 0 when `b` exceeds `a`.
pub open spec fn sat_sub(a: nat, b: nat) -> nat {
    if a >= b { (a - b) as nat } else { 0 }
}

/// The score after taking the penalties of `fs` off 100, one at a time,
/// never going below 0.
pub open spec fn score_after(fs: Seq<Finding>) -> nat
    decreases fs.len(),
{
    if fs.len() == 0 {
        100
    } else {
        sat_sub(score_after(fs.drop_last()), penalty(fs.last()))
    }
}

/// The sum of the penalties of `fs`.
pub open spec fn total_penalty(fs: Seq<Finding>) -> nat
    decreases fs.len(),
{
    if fs.len() == 0 {
        0
    } else {
        total_penalty(fs.drop_last()) + penalty(fs.last())
    }
}

/// The recommendation that the audit gives for a finding.
pub open spec fn recommendation_for(f: Finding) -> RecommendationView {
    match f {
        Finding::DefenderDisabled => RecommendationView {
            severity: Severity::Critical,
            category: "Defender"@,
            title: "Windows Defender disabled"@,
            description: "Antivirus/antispyware protection is disabled."@,
            remediation: "Enable Windows Defender in security settings."@,
        },
        Finding::RealtimeProtectionDisabled => RecommendationView {
            severity: Severity::Critical,
            category: "Defender"@,
            title: "Real-time protection disabled"@,
            description: "Threats are not detected in real-time."@,
            remediation: "Enable real-time protection in Windows Security."@,
        },
        Finding::TamperProtectionDisabled => RecommendationView {
            severity: Severity::High,
            category: "Defender"@,
            title: "Tamper Protection disabled"@,
            description: "Malware can disable Defender."@,
            remediation: "Enable Tamper Protection in Windows Security."@,
        },
        Finding::PathExclusions(n) => RecommendationView {
            severity: if n > 10 { Severity::Medium } else { Severity::Low },
            category: "Defender"@,
            title: digits(n as nat, 10, false) + " path exclusions configured"@,
            description: "Verify that these exclusions are legitimate."@,
            remediation: "Audit exclusions in Windows Security > Virus protection."@,
        },
        Finding::PublicFirewallDisabled => RecommendationView {
            severity: Severity::Critical,
            category: "Firewall"@,
            title: "Firewall disabled (Public profile)"@,
            description: "The system is exposed on public networks."@,
            remediation: "Enable firewall for Public profile."@,
        },
        Finding::PrivateFirewallDisabled => RecommendationView {
            severity: Severity::High,
            category: "Firewall"@,
            title: "Firewall disabled (Private profile)"@,
            description: "The system is exposed on private networks."@,
            remediation: "Enable firewall for Private profile."@,
        },
        Finding::UacDisabled => RecommendationView {
            severity: Severity::Critical,
            category: "UAC"@,
            title: "UAC disabled"@,
            description: "Applications can run with privileges without confirmation."@,
            remediation: "Enable UAC in User Account Control settings."@,
        },
        Finding::SecureDesktopDisabled => RecommendationView {
            severity: Severity::Medium,
            category: "UAC"@,
            title: "Secure Desktop disabled"@,
            description: "UAC prompts can be manipulated by malware."@,
            remediation: "Enable PromptOnSecureDesktop in local policies."@,
        },
        Finding::SecureBootDisabled => RecommendationView {
            severity: Severity::High,
            category: "Boot"@,
            title: "Secure Boot disabled"@,
            description: "The system is vulnerable to bootkits."@,
            remediation: "Enable Secure Boot in BIOS/UEFI."@,
        },
        Finding::CredentialGuardDisabled => RecommendationView {
            severity: Severity::Info,
            category: "VBS"@,
            title: "Credential Guard not enabled"@,
            description: "Advanced credential protection is not active."@,
            remediation: "Enable Credential Guard via Group Policy (Enterprise)."@,
        },
        Finding::BitlockerDisabled => RecommendationView {
            severity: Severity::Medium,
            category: "Encryption"@,
            title: "BitLocker not enabled"@,
            description: "System drive is not encrypted."@,
            remediation: "Enable BitLocker in security settings."@,
        },
    }
}

/// The recommendations given for a list of findings, in order.
pub open spec fn recommendations_for(fs: Seq<Finding>) -> Seq<RecommendationView> {
    fs.map_values(|f: Finding| recommendation_for(f))
}

/// The views of a list of recommendations.
pub open spec fn recommendation_views(rs: Seq<SecurityRecommendation>) -> Seq<RecommendationView> {
    rs.map_values(|r: SecurityRecommendation| r@)
}

/// When `failed`, appends the recommendation for `f` and takes its penalty
/// off the score; returns the findings reported so far.
fn check(
    recommendations: &mut Vec<SecurityRecommendation>,
    score: &mut u32,
    Ghost(fs): Ghost<Seq<Finding>>,
    failed: bool,
    f: Finding,
    severity: Severity,
    category: &str,
    title: String,
    description: &str,
    remediation: &str,
    points: u32,
) -> (out: Ghost<Seq<Finding>>)
    requires
        recommendation_views(old(recommendations)@) == recommendations_for(fs),
        *old(score) == score_after(fs),
        failed ==> recommendation_for(f) == (RecommendationView {
            severity,
            category: category@,
            title: title@,
            description: description@,
            remediation: remediation@,
        }),
        points == penalty(f),
    ensures
        out@ == record(fs, failed, f),
        recommendation_views(final(recommendations)@) == recommendations_for(out@),
        *final(score) == score_after(out@),
{
    if failed {
        *score = score.saturating_sub(points);
        let r = SecurityRecommendation {
            severity,
            category: owned(category),
            title,
            description: owned(description),
            remediation: owned(remediation),
        };
        assert(r@ == recommendation_for(f));
        recommendations.push(r);
        assert(recommendation_views(recommendations@) =~= recommendation_views(
            old(recommendations)@,
        ).push(recommendation_for(f)));
        assert(fs.push(f).drop_last() =~= fs);
        assert(recommendation_views(recommendations@) =~= recommendations_for(fs.push(f)));
        Ghost(fs.push(f))
    } else {
        Ghost(fs)
    }
}

/// The Defender checks: engine, real-time protection, tamper protection and
/// path exclusions.
fn defender_checks(
    recommendations: &mut Vec<SecurityRecommendation>,
    score: &mut u32,
    defender: &DefenderStatus,
) -> (out: Ghost<Seq<Finding>>)
    requires
        old(recommendations)@.len() == 0,
        *old(score) == 100,
    ensures
        out@ == defender_findings(*defender),
        recommendation_views(final(recommendations)@) == recommendations_for(out@),
        *final(score) == score_after(out@),
{
    let ghost fs = Seq::<Finding>::empty();
    assert(recommendation_views(recommendations@) =~= recommendations_for(fs));
    // Defender
    let Ghost(fs) = check(
        recommendations,
        score,
        Ghost(fs),
        !defender.antispyware_enabled,
        Finding::DefenderDisabled,
        Severity::Critical,
        "Defender",
        owned("Windows Defender disabled"),
        "Antivirus/antispyware protection is disabled.",
        "Enable Windows Defender in security settings.",
        25,
    );
    let Ghost(fs) = check(
        recommendations,
        score,
        Ghost(fs),
        !defender.realtime_protection,
        Finding::RealtimeProtectionDisabled,
        Severity::Critical,
        "Defender",
        owned("Real-time protection disabled"),
        "Threats are not detected in real-time.",
        "Enable real-time protection in Windows Security.",
        20,
    );
    let Ghost(fs) = check(
        recommendations,
        score,
        Ghost(fs),
        !defender.tamper_protection,
        Finding::TamperProtectionDisabled,
        Severity::High,
        "Defender",
        owned("Tamper Protection disabled"),
        "Malware can disable Defender.",
        "Enable Tamper Protection in Windows Security.",
        10,
    );
    let count = defender.exclusion_paths.len();
    let points: u32 = if count > 5 { 5 } else { 0 };
    let severity = if count > 10 { Severity::Medium } else { Severity::Low };
    let mut title = String::new();
    if count != 0 {
        push_digits(&mut title, count as u64, 10, false);
        push_str(&mut title, " path exclusions configured");
    }
    assert(count != 0 ==> title@ =~= digits(count as nat, 10, false)
        + " path exclusions configured"@);
    let Ghost(fs) = check(
        recommendations,
        score,
        Ghost(fs),
        count != 0,
        Finding::PathExclusions(count),
        severity,
        "Defender",
        title,
        "Verify that these exclusions are legitimate.",
        "Audit exclusions in Windows Security > Virus protection.",
        points,
    );

    Ghost(fs)
}

/// The firewall, UAC, Secure Boot, Credential Guard and BitLocker checks,
/// after the findings `fs0` of the Defender checks.
fn system_checks(
    recommendations: &mut Vec<SecurityRecommendation>,
    score: &mut u32,
    Ghost(fs0): Ghost<Seq<Finding>>,
    firewall: &FirewallStatus,
    uac: &UacStatus,
    secure_boot: bool,
    credential_guard: bool,
    bitlocker: bool,
) -> (out: Ghost<Seq<Finding>>)
    requires
        recommendation_views(old(recommendations)@) == recommendations_for(fs0),
        *old(score) == score_after(fs0),
    ensures
        out@ == system_findings(fs0, *firewall, *uac, secure_boot, credential_guard, bitlocker),
        recommendation_views(final(recommendations)@) == recommendations_for(out@),
        *final(score) == score_after(out@),
{
    let ghost fs = fs0;
    // Firewall
    let Ghost(fs) = check(
        recommendations,
        score,
        Ghost(fs),
        !firewall.public_enabled,
        Finding::PublicFirewallDisabled,
        Severity::Critical,
        "Firewall",
        owned("Firewall disabled (Public profile)"),
        "The system is exposed on public networks.",
        "Enable firewall for Public profile.",
        15,
    );
    let Ghost(fs) = check(
        recommendations,
        score,
        Ghost(fs),
        !firewall.private_enabled,
        Finding::PrivateFirewallDisabled,
        Severity::High,
        "Firewall",
        owned("Firewall disabled (Private profile)"),
        "The system is exposed on private networks.",
        "Enable firewall for Private profile.",
        10,
    );

    // UAC
    let Ghost(fs) = check(
        recommendations,
        score,
        Ghost(fs),
        !uac.enabled,
        Finding::UacDisabled,
        Severity::Critical,
        "UAC",
        owned("UAC disabled"),
        "Applications can run with privileges without confirmation.",
        "Enable UAC in User Account Control settings.",
        15,
    );
    let Ghost(fs) = check(
        recommendations,
        score,
        Ghost(fs),
        !uac.secure_desktop,
        Finding::SecureDesktopDisabled,
        Severity::Medium,
        "UAC",
        owned("Secure Desktop disabled"),
        "UAC prompts can be manipulated by malware.",
        "Enable PromptOnSecureDesktop in local policies.",
        5,
    );

    // Secure Boot
    let Ghost(fs) = check(
        recommendations,
        score,
        Ghost(fs),
        !secure_boot,
        Finding::SecureBootDisabled,
        Severity::High,
        "Boot",
        owned("Secure Boot disabled"),
        "The system is vulnerable to bootkits.",
        "Enable Secure Boot in BIOS/UEFI.",
        10,
    );

    // Credential Guard
    let Ghost(fs) = check(
        recommendations,
        score,
        Ghost(fs),
        !credential_guard,
        Finding::CredentialGuardDisabled,
        Severity::Info,
        "VBS",
        owned("Credential Guard not enabled"),
        "Advanced credential protection is not active.",
        "Enable Credential Guard via Group Policy (Enterprise).",
        0,
    );

    // BitLocker
    let Ghost(fs) = check(
        recommendations,
        score,
        Ghost(fs),
        !bitlocker,
        Finding::BitlockerDisabled,
        Severity::Medium,
        "Encryption",
        owned("BitLocker not enabled"),
        "System drive is not encrypted.",
        "Enable BitLocker in security settings.",
        0,
    );
    Ghost(fs)
}

/// Audits the security posture from the statuses read from the system:
/// each weakness found takes its penalty off a score that starts at 100
/// and adds one recommendation.
pub fn audit_security(
    defender: DefenderStatus,
    firewall: FirewallStatus,
    uac: UacStatus,
    secure_boot: bool,
    credential_guard: bool,
    bitlocker: bool,
) -> (r: SecurityAudit)
    ensures
        r.defender == defender,
        r.firewall == firewall,
        r.uac == uac,
        r.secure_boot_enabled == secure_boot,
        r.credential_guard_enabled == credential_guard,
        r.bitlocker_system_encrypted == bitlocker,
        r.security_score == score_after(
            findings(defender, firewall, uac, secure_boot, credential_guard, bitlocker),
        ),
        r.security_score <= 100,
        recommendation_views(r.recommendations@) == recommendations_for(
            findings(defender, firewall, uac, secure_boot, credential_guard, bitlocker),
        ),
{
    let mut recommendations: Vec<SecurityRecommendation> = Vec::new();
    let mut score: u32 = 100;
    let ghost fs = Seq::<Finding>::empty();
    assert(recommendation_views(recommendations@) =~= recommendations_for(fs));

    let Ghost(fs) = defender_checks(&mut recommendations, &mut score, &defender);
    let Ghost(fs) = system_checks(
        &mut recommendations,
        &mut score,
        Ghost(fs),
        &firewall,
        &uac,
        secure_boot,
        credential_guard,
        bitlocker,
    );
    assert(fs == findings(defender, firewall, uac, secure_boot, credential_guard, bitlocker));
    proof {
        lemma_score_at_most_100(fs);
    }
    let final_score = if score > 100 { 100 } else { score };
    SecurityAudit {
        defender,
        firewall,
        uac,
        secure_boot_enabled: secure_boot,
        credential_guard_enabled: credential_guard,
        bitlocker_system_encrypted: bitlocker,
        security_score: final_score,
        recommendations,
    }
}

/// The score never exceeds 100.
pub proof fn lemma_score_at_most_100(fs: Seq<Finding>)
    ensures
        score_after(fs) <= 100,
    decreases fs.len(),
{
    if fs.len() > 0 {
        lemma_score_at_most_100(fs.drop_last());
    }
}

/// Taking the penalties off one at a time, stopping at 0, gives the same
/// score as taking their sum off at once, stopping at 0.
pub proof fn lemma_score_is_capped_total(fs: Seq<Finding>)
    ensures
        score_after(fs) == sat_sub(100, total_penalty(fs)),
    decreases fs.len(),
{
    if fs.len() > 0 {
        lemma_score_is_capped_total(fs.drop_last());
    }
}

/// The findings of the checks after the Public firewall one, after the
/// findings `s5` reported so far.
spec fn later_findings(
    s5: Seq<Finding>,
    firewall: FirewallStatus,
    uac: UacStatus,
    secure_boot: bool,
    credential_guard: bool,
    bitlocker: bool,
) -> Seq<Finding> {
    let s6 = record(s5, !firewall.private_enabled, Finding::PrivateFirewallDisabled);
    let s7 = record(s6, !uac.enabled, Finding::UacDisabled);
    let s8 = record(s7, !uac.secure_desktop, Finding::SecureDesktopDisabled);
    let s9 = record(s8, !secure_boot, Finding::SecureBootDisabled);
    let s10 = record(s9, !credential_guard, Finding::CredentialGuardDisabled);
    record(s10, !bitlocker, Finding::BitlockerDisabled)
}

/// Recording after a prefix is recording after nothing, behind the prefix.
proof fn lemma_record_behind(p: Seq<Finding>, t: Seq<Finding>, failed: bool, f: Finding)
    ensures
        record(p + t, failed, f) == p + record(t, failed, f),
{
    if failed {
        assert((p + t).push(f) =~= p + t.push(f));
    }
}

/// The later checks add their findings behind whatever was reported before.
proof fn lemma_later_behind(
    p: Seq<Finding>,
    firewall: FirewallStatus,
    uac: UacStatus,
    secure_boot: bool,
    credential_guard: bool,
    bitlocker: bool,
)
    ensures
        later_findings(p, firewall, uac, secure_boot, credential_guard, bitlocker) == p
            + later_findings(Seq::empty(), firewall, uac, secure_boot, credential_guard, bitlocker),
{
    let e = Seq::<Finding>::empty();
    assert(p =~= p + e);
    let t6 = record(e, !firewall.private_enabled, Finding::PrivateFirewallDisabled);
    lemma_record_behind(p, e, !firewall.private_enabled, Finding::PrivateFirewallDisabled);
    let t7 = record(t6, !uac.enabled, Finding::UacDisabled);
    lemma_record_behind(p, t6, !uac.enabled, Finding::UacDisabled);
    let t8 = record(t7, !uac.secure_desktop, Finding::SecureDesktopDisabled);
    lemma_record_behind(p, t7, !uac.secure_desktop, Finding::SecureDesktopDisabled);
    let t9 = record(t8, !secure_boot, Finding::SecureBootDisabled);
    lemma_record_behind(p, t8, !secure_boot, Finding::SecureBootDisabled);
    let t10 = record(t9, !credential_guard, Finding::CredentialGuardDisabled);
    lemma_record_behind(p, t9, !credential_guard, Finding::CredentialGuardDisabled);
    lemma_record_behind(p, t10, !bitlocker, Finding::BitlockerDisabled);
}

/// The penalties of two lists add up.
proof fn lemma_total_concat(a: Seq<Finding>, b: Seq<Finding>)
    ensures
        total_penalty(a + b) == total_penalty(a) + total_penalty(b),
    decreases b.len(),
{
    if b.len() > 0 {
        lemma_total_concat(a, b.drop_last());
        assert((a + b).drop_last() =~= a + b.drop_last());
    }
}

/// No finding of `fs` is the Public firewall one.
spec fn without_public_firewall(fs: Seq<Finding>) -> bool {
    forall|i: int| 0 <= i < fs.len() ==> !(#[trigger] fs[i] is PublicFirewallDisabled)
}

/// Recording any finding but the Public firewall one keeps it out.
proof fn lemma_record_without_public(fs: Seq<Finding>, failed: bool, f: Finding)
    requires
        without_public_firewall(fs),
        !(f is PublicFirewallDisabled),
    ensures
        without_public_firewall(record(fs, failed, f)),
{
}

/// Neither the Defender checks nor the checks after the Public firewall one
/// report the Public firewall finding.
proof fn lemma_others_without_public(
    defender: DefenderStatus,
    firewall: FirewallStatus,
    uac: UacStatus,
    secure_boot: bool,
    credential_guard: bool,
    bitlocker: bool,
)
    ensures
        without_public_firewall(defender_findings(defender)),
        without_public_firewall(
            later_findings(Seq::empty(), firewall, uac, secure_boot, credential_guard, bitlocker),
        ),
{
    let e = Seq::<Finding>::empty();
    let n = defender.exclusion_paths@.len();
    lemma_record_without_public(e, !defender.antispyware_enabled, Finding::DefenderDisabled);
    let s1 = record(e, !defender.antispyware_enabled, Finding::DefenderDisabled);
    lemma_record_without_public(s1, !defender.realtime_protection, Finding::RealtimeProtectionDisabled);
    let s2 = record(s1, !defender.realtime_protection, Finding::RealtimeProtectionDisabled);
    lemma_record_without_public(s2, !defender.tamper_protection, Finding::TamperProtectionDisabled);
    let s3 = record(s2, !defender.tamper_protection, Finding::TamperProtectionDisabled);
    lemma_record_without_public(s3, n != 0, Finding::PathExclusions(n as usize));
    lemma_record_without_public(e, !firewall.private_enabled, Finding::PrivateFirewallDisabled);
    let t6 = record(e, !firewall.private_enabled, Finding::PrivateFirewallDisabled);
    lemma_record_without_public(t6, !uac.enabled, Finding::UacDisabled);
    let t7 = record(t6, !uac.enabled, Finding::UacDisabled);
    lemma_record_without_public(t7, !uac.secure_desktop, Finding::SecureDesktopDisabled);
    let t8 = record(t7, !uac.secure_desktop, Finding::SecureDesktopDisabled);
    lemma_record_without_public(t8, !secure_boot, Finding::SecureBootDisabled);
    let t9 = record(t8, !secure_boot, Finding::SecureBootDisabled);
    lemma_record_without_public(t9, !credential_guard, Finding::CredentialGuardDisabled);
    let t10 = record(t9, !credential_guard, Finding::CredentialGuardDisabled);
    lemma_record_without_public(t10, !bitlocker, Finding::BitlockerDisabled);
}

/// The Public-profile firewall finding, and with it the Critical
/// "Firewall disabled (Public profile)" recommendation, is reported exactly
/// when the Public profile is off, whatever the Domain and Private profiles
/// and the other statuses are.
pub proof fn lemma_public_firewall_reported_iff_off(
    defender: DefenderStatus,
    firewall: FirewallStatus,
    uac: UacStatus,
    secure_boot: bool,
    credential_guard: bool,
    bitlocker: bool,
)
    ensures
        findings(defender, firewall, uac, secure_boot, credential_guard, bitlocker).contains(
            Finding::PublicFirewallDisabled,
        ) <==> !firewall.public_enabled,
        !firewall.public_enabled ==> recommendations_for(
            findings(defender, firewall, uac, secure_boot, credential_guard, bitlocker),
        ).contains(
            RecommendationView {
                severity: Severity::Critical,
                category: "Firewall"@,
                title: "Firewall disabled (Public profile)"@,
                description: "The system is exposed on public networks."@,
                remediation: "Enable firewall for Public profile."@,
            },
        ),
{
    let b = defender_findings(defender);
    let s5 = record(b, !firewall.public_enabled, Finding::PublicFirewallDisabled);
    let t = later_findings(Seq::empty(), firewall, uac, secure_boot, credential_guard, bitlocker);
    let fs = findings(defender, firewall, uac, secure_boot, credential_guard, bitlocker);
    assert(fs == later_findings(s5, firewall, uac, secure_boot, credential_guard, bitlocker));
    lemma_later_behind(s5, firewall, uac, secure_boot, credential_guard, bitlocker);
    lemma_others_without_public(defender, firewall, uac, secure_boot, credential_guard, bitlocker);
    if firewall.public_enabled {
        assert(fs == b + t);
        if fs.contains(Finding::PublicFirewallDisabled) {
            let i = choose|i: int| 0 <= i < fs.len() && fs[i] == Finding::PublicFirewallDisabled;
            if i < b.len() {
                assert(fs[i] == b[i]);
            } else {
                assert(fs[i] == t[i - b.len()]);
            }
        }
    } else {
        assert(fs == b.push(Finding::PublicFirewallDisabled) + t);
        assert(fs[b.len() as int] == Finding::PublicFirewallDisabled);
        assert(recommendations_for(fs)[b.len() as int] == recommendation_for(Finding::PublicFirewallDisabled));
    }
}

/// Turning the Public firewall profile off, every other status unchanged,
/// adds exactly one recommendation and takes 15 more points off the score,
/// which never goes below 0.
pub proof fn lemma_public_firewall_off_costs_15(
    defender: DefenderStatus,
    firewall: FirewallStatus,
    uac: UacStatus,
    secure_boot: bool,
    credential_guard: bool,
    bitlocker: bool,
)
    requires
        firewall.public_enabled,
    ensures
        ({
            let off = FirewallStatus {
                domain_enabled: firewall.domain_enabled,
                private_enabled: firewall.private_enabled,
                public_enabled: false,
            };
            let before = findings(defender, firewall, uac, secure_boot, credential_guard, bitlocker);
            let after = findings(defender, off, uac, secure_boot, credential_guard, bitlocker);
            &&& score_after(after) == sat_sub(score_after(before), 15)
            &&& recommendations_for(after).len() == recommendations_for(before).len() + 1
        }),
{
    let off = FirewallStatus {
        domain_enabled: firewall.domain_enabled,
        private_enabled: firewall.private_enabled,
        public_enabled: false,
    };
    let b = defender_findings(defender);
    let t = later_findings(Seq::empty(), firewall, uac, secure_boot, credential_guard, bitlocker);
    let before = findings(defender, firewall, uac, secure_boot, credential_guard, bitlocker);
    let after = findings(defender, off, uac, secure_boot, credential_guard, bitlocker);
    assert(before == later_findings(b, firewall, uac, secure_boot, credential_guard, bitlocker));
    assert(after == later_findings(
        b.push(Finding::PublicFirewallDisabled),
        off,
        uac,
        secure_boot,
        credential_guard,
        bitlocker,
    ));
    lemma_later_behind(b, firewall, uac, secure_boot, credential_guard, bitlocker);
    lemma_later_behind(b.push(Finding::PublicFirewallDisabled), off, uac, secure_boot, credential_guard, bitlocker);
    assert(later_findings(Seq::empty(), off, uac, secure_boot, credential_guard, bitlocker) == t);
    lemma_total_concat(b, t);
    lemma_total_concat(b.push(Finding::PublicFirewallDisabled), t);
    assert(total_penalty(b.push(Finding::PublicFirewallDisabled)) == total_penalty(b) + 15) by {
        assert(b.push(Finding::PublicFirewallDisabled).drop_last() =~= b);
    }
    lemma_score_is_capped_total(before);
    lemma_score_is_capped_total(after);
}

/// `points` when a check `failed`, 0 otherwise.
pub open spec fn points_if(failed: bool, points: nat) -> nat {
    if failed {
        points
    } else {
        0
    }
}

/// Recording a finding adds its penalty when the check failed.
proof fn lemma_record_total(fs: Seq<Finding>, failed: bool, f: Finding)
    ensures
        total_penalty(record(fs, failed, f)) == total_penalty(fs) + points_if(failed, penalty(f)),
        record(fs, failed, f).len() == fs.len() + points_if(failed, 1),
{
    if failed {
        assert(fs.push(f).drop_last() =~= fs);
    }
}

/// The score is 100 less the points of each failed check, never below 0:
/// Defender off 25, real-time protection off 20, Tamper Protection off 10,
/// more than 5 path exclusions 5, Public firewall off 15, Private firewall
/// off 10, UAC off 15, Secure Desktop off 5 and Secure Boot off 10; Credential
/// Guard and BitLocker cost nothing. Each failed check, and each path
/// exclusion count other than 0, gives one recommendation.
#[verifier::rlimit(40)]
pub proof fn lemma_score_counts_failed_checks(
    defender: DefenderStatus,
    firewall: FirewallStatus,
    uac: UacStatus,
    secure_boot: bool,
    credential_guard: bool,
    bitlocker: bool,
)
    ensures
        score_after(findings(defender, firewall, uac, secure_boot, credential_guard, bitlocker))
            == sat_sub(
            100,
            points_if(!defender.antispyware_enabled, 25) + points_if(!defender.realtime_protection, 20)
                + points_if(!defender.tamper_protection, 10) + points_if(
                defender.exclusion_paths@.len() > 5,
                5,
            ) + points_if(!firewall.public_enabled, 15) + points_if(!firewall.private_enabled, 10)
                + points_if(!uac.enabled, 15) + points_if(!uac.secure_desktop, 5) + points_if(
                !secure_boot,
                10,
            ),
        ),
        recommendations_for(
            findings(defender, firewall, uac, secure_boot, credential_guard, bitlocker),
        ).len() == points_if(!defender.antispyware_enabled, 1) + points_if(
            !defender.realtime_protection,
            1,
        ) + points_if(!defender.tamper_protection, 1) + points_if(
            defender.exclusion_paths@.len() != 0,
            1,
        ) + points_if(!firewall.public_enabled, 1) + points_if(!firewall.private_enabled, 1)
            + points_if(!uac.enabled, 1) + points_if(!uac.secure_desktop, 1) + points_if(
            !secure_boot,
            1,
        ) + points_if(!credential_guard, 1) + points_if(!bitlocker, 1),
{
    let e = Seq::<Finding>::empty();
    let n = defender.exclusion_paths@.len();
    lemma_record_total(e, !defender.antispyware_enabled, Finding::DefenderDisabled);
    let s1 = record(e, !defender.antispyware_enabled, Finding::DefenderDisabled);
    lemma_record_total(s1, !defender.realtime_protection, Finding::RealtimeProtectionDisabled);
    let s2 = record(s1, !defender.realtime_protection, Finding::RealtimeProtectionDisabled);
    lemma_record_total(s2, !defender.tamper_protection, Finding::TamperProtectionDisabled);
    let s3 = record(s2, !defender.tamper_protection, Finding::TamperProtectionDisabled);
    lemma_record_total(s3, n != 0, Finding::PathExclusions(n as usize));
    let s4 = record(s3, n != 0, Finding::PathExclusions(n as usize));
    lemma_record_total(s4, !firewall.public_enabled, Finding::PublicFirewallDisabled);
    let s5 = record(s4, !firewall.public_enabled, Finding::PublicFirewallDisabled);
    lemma_record_total(s5, !firewall.private_enabled, Finding::PrivateFirewallDisabled);
    let s6 = record(s5, !firewall.private_enabled, Finding::PrivateFirewallDisabled);
    lemma_record_total(s6, !uac.enabled, Finding::UacDisabled);
    let s7 = record(s6, !uac.enabled, Finding::UacDisabled);
    lemma_record_total(s7, !uac.secure_desktop, Finding::SecureDesktopDisabled);
    let s8 = record(s7, !uac.secure_desktop, Finding::SecureDesktopDisabled);
    lemma_record_total(s8, !secure_boot, Finding::SecureBootDisabled);
    let s9 = record(s8, !secure_boot, Finding::SecureBootDisabled);
    lemma_record_total(s9, !credential_guard, Finding::CredentialGuardDisabled);
    let s10 = record(s9, !credential_guard, Finding::CredentialGuardDisabled);
    lemma_record_total(s10, !bitlocker, Finding::BitlockerDisabled);
    let fs = findings(defender, firewall, uac, secure_boot, credential_guard, bitlocker);
    assert(fs == record(s10, !bitlocker, Finding::BitlockerDisabled));
    assert(n <= usize::MAX) by {
        assert(defender.exclusion_paths@.len() == defender.exclusion_paths.len());
    }
    assert(points_if(n != 0, penalty(Finding::PathExclusions(n as usize))) == points_if(n > 5, 5));
    lemma_score_is_capped_total(fs);
}

/// BitLocker protects the system drive: the `BitlockerStatus` key exists
/// and its `BootStatus` value, read as 0 when it cannot be read, is not 0.
pub open spec fn bitlocker_enabled_spec(key_exists: bool, boot_status: Option<u32>) -> bool {
    key_exists && match boot_status {
        Some(v) => v != 0,
        None => false,
    }
}

/// Decides the BitLocker status from the presence of the
/// `SYSTEM\CurrentControlSet\Control\BitlockerStatus` key and the result
/// of reading its `BootStatus` value.
pub fn check_bitlocker_status(key_exists: bool, boot_status: Option<u32>) -> (r: bool)
    ensures
        r == bitlocker_enabled_spec(key_exists, boot_status),
{
    let status = match boot_status {
        Some(v) => v,
        None => 0,
    };
    key_exists && status != 0
}

/// The grade band of a score.
pub open spec fn grade_of(score: u32) -> Seq<char> {
    if 90 <= score && score <= 100 {
        "A - Excellent"@
    } else if 80 <= score && score <= 89 {
        "B - Good"@
    } else if 70 <= score && score <= 79 {
        "C - Acceptable"@
    } else if 60 <= score && score <= 69 {
        "D - Needs Improvement"@
    } else {
        "F - Critical"@
    }
}

/// Returns a text summary of the score.
pub fn score_to_grade(score: u32) -> (r: &'static str)
    ensures
        r@ == grade_of(score),
{
    if 90 <= score && score <= 100 {
        "A - Excellent"
    } else if 80 <= score && score <= 89 {
        "B - Good"
    } else if 70 <= score && score <= 79 {
        "C - Acceptable"
    } else if 60 <= score && score <= 69 {
        "D - Needs Improvement"
    } else {
        "F - Critical"
    }
}

/// The number of recommendations of `rs` whose severity satisfies `p`.
pub open spec fn count_where(rs: Seq<SecurityRecommendation>, p: spec_fn(Severity) -> bool) -> nat
    decreases rs.len(),
{
    if rs.len() == 0 {
        0
    } else {
        count_where(rs.drop_last(), p) + if p(rs.last().severity) { 1nat } else { 0nat }
    }
}

/// `Low` and `Info` are counted together.
pub open spec fn is_low_or_info(s: Severity) -> bool {
    s == Severity::Low || s == Severity::Info
}

/// Counts recommendations by severity: (critical, high, medium, low or info).
pub fn count_by_severity(recommendations: &[SecurityRecommendation]) -> (r: (
    usize,
    usize,
    usize,
    usize,
))
    ensures
        r.0 == count_where(recommendations@, |s: Severity| s == Severity::Critical),
        r.1 == count_where(recommendations@, |s: Severity| s == Severity::High),
        r.2 == count_where(recommendations@, |s: Severity| s == Severity::Medium),
        r.3 == count_where(recommendations@, |s: Severity| is_low_or_info(s)),
{
    let mut critical: usize = 0;
    let mut high: usize = 0;
    let mut medium: usize = 0;
    let mut low: usize = 0;
    let mut i: usize = 0;
    while i < recommendations.len()
        invariant
            i <= recommendations.len(),
            critical == count_where(
                recommendations@.take(i as int),
                |s: Severity| s == Severity::Critical,
            ),
            high == count_where(recommendations@.take(i as int), |s: Severity| s == Severity::High),
            medium == count_where(
                recommendations@.take(i as int),
                |s: Severity| s == Severity::Medium,
            ),
            low == count_where(recommendations@.take(i as int), |s: Severity| is_low_or_info(s)),
            critical <= i,
            high <= i,
            medium <= i,
            low <= i,
        decreases recommendations.len() - i,
    {
        assert(recommendations@.take(i + 1).drop_last() =~= recommendations@.take(i as int));
        let s = recommendations[i].severity;
        if s == Severity::Critical {
            critical = critical + 1;
        }
        if s == Severity::High {
            high = high + 1;
        }
        if s == Severity::Medium {
            medium = medium + 1;
        }
        if s == Severity::Low || s == Severity::Info {
            low = low + 1;
        }
        i = i + 1;
    }
    assert(recommendations@.take(recommendations.len() as int) =~= recommendations@);
    (critical, high, medium, low)
}

/// Every recommendation falls in exactly one of the four counts.
pub proof fn lemma_severity_counts_cover_all(rs: Seq<SecurityRecommendation>)
    ensures
        count_where(rs, |s: Severity| s == Severity::Critical) + count_where(
            rs,
            |s: Severity| s == Severity::High,
        ) + count_where(rs, |s: Severity| s == Severity::Medium) + count_where(
            rs,
            |s: Severity| is_low_or_info(s),
        ) == rs.len(),
    decreases rs.len(),
{
    if rs.len() > 0 {
        lemma_severity_counts_cover_all(rs.drop_last());
    }
}

} // verus!
