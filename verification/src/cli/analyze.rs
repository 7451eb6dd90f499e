//! The analysis: recommendations for a target profile from what the audit
//! found.
use crate::text::same_text;
use vstd::prelude::*;

verus! {

/// What the recommendations depend on.
#[derive(Debug, Clone, Copy)]
pub struct AnalysisFacts {
    /// The DiagTrack service is enabled.
    pub diagtrack_enabled: bool,
    /// The telemetry level (0 for security only).
    pub data_collection_level: u32,
    /// The advertising identifier is enabled.
    pub advertising_id_enabled: bool,
    /// The processor has performance and efficiency cores.
    pub is_hybrid: bool,
    /// The machine runs on a battery.
    pub is_laptop: bool,
    /// The timer resolution is already at most 0.55 ms.
    pub timer_optimized: bool,
    /// The active power plan is already a performance plan.
    pub power_optimized: bool,
}

/// A recommendation: its tag and its text.
pub type Advice = (&'static str, &'static str);

/// `s` followed by `a` when `cond` holds.
pub open spec fn also(s: Seq<Advice>, cond: bool, a: Advice) -> Seq<Advice> {
    if cond {
        s.push(a)
    } else {
        s
    }
}

/// The recommendations of the gaming profile.
pub open spec fn gaming_advice(f: AnalysisFacts) -> Seq<Advice> {
    let s1 = also(Seq::empty(), f.diagtrack_enabled, ("PERF", "Desactiver DiagTrack (service telemetrie)"));
    let s2 = also(s1, f.is_hybrid, ("PERF", "Optimiser scheduler pour CPU hybrid (P-Core priority)"));
    let s3 = also(
        s2,
        !f.timer_optimized,
        if f.is_laptop {
            ("WARN", "Timer 0.5ms - Attention: +25% conso batterie sur laptop")
        } else {
            ("PERF", "Timer Resolution -> 0.5ms")
        },
    );
    let s4 = also(
        s3,
        !f.power_optimized,
        if f.is_laptop {
            ("WARN", "Power Plan - High Performance recommande (pas Ultimate)")
        } else {
            ("PERF", "Power Plan -> Ultimate Performance")
        },
    );
    s4.push(("PERF", "Activer MSI-Mode sur GPU"))
}

/// The recommendations of the privacy profile.
pub open spec fn privacy_advice(f: AnalysisFacts) -> Seq<Advice> {
    let s1 = also(Seq::empty(), f.diagtrack_enabled, ("PRIVACY", "Désactiver DiagTrack"));
    let s2 = also(s1, f.data_collection_level > 0, ("PRIVACY", "Réduire niveau télémétrie → Security only"));
    let s3 = also(s2, f.advertising_id_enabled, ("PRIVACY", "Désactiver Advertising ID"));
    s3.push(("PRIVACY", "Bloquer domaines télémétrie (firewall)")).push(
        ("PRIVACY", "Désactiver services: WerSvc, lfsvc, MapsBroker"),
    )
}

/// The recommendations of the workstation profile.
pub open spec fn workstation_advice(f: AnalysisFacts) -> Seq<Advice> {
    also(Seq::empty(), f.diagtrack_enabled, ("BALANCED", "Désactiver DiagTrack")).push(
        ("BALANCED", "Power Plan → High Performance"),
    ).push(("BALANCED", "Conserver WSearch pour productivité"))
}

/// The recommendations for `profile`: those of the gaming, privacy or
/// workstation profile, or a notice that the profile is unknown.
pub open spec fn advice_for(profile: Seq<char>, f: AnalysisFacts) -> Seq<Advice> {
    if profile == "gaming"@ {
        gaming_advice(f)
    } else if profile == "privacy"@ {
        privacy_advice(f)
    } else if profile == "workstation"@ {
        workstation_advice(f)
    } else {
        seq![("INFO", "Profil non reconnu, utilisez: gaming, privacy, workstation")]
    }
}

/// Adds `a` to `out` when `cond` holds.
fn push_if(out: &mut Vec<Advice>, cond: bool, a: Advice)
    ensures
        final(out)@ == also(old(out)@, cond, a),
{
    if cond {
        out.push(a);
    }
}

/// The recommendations for `profile` given what the audit found.
pub fn profile_recommendations(profile: &str, f: &AnalysisFacts) -> (r: Vec<Advice>)
    ensures
        r@ == advice_for(profile@, *f),
{
    let mut out: Vec<Advice> = Vec::new();
    if same_text(profile, "gaming") {
        push_if(&mut out, f.diagtrack_enabled, ("PERF", "Desactiver DiagTrack (service telemetrie)"));
        push_if(&mut out, f.is_hybrid, ("PERF", "Optimiser scheduler pour CPU hybrid (P-Core priority)"));
        let timer = if f.is_laptop {
            ("WARN", "Timer 0.5ms - Attention: +25% conso batterie sur laptop")
        } else {
            ("PERF", "Timer Resolution -> 0.5ms")
        };
        push_if(&mut out, !f.timer_optimized, timer);
        let power = if f.is_laptop {
            ("WARN", "Power Plan - High Performance recommande (pas Ultimate)")
        } else {
            ("PERF", "Power Plan -> Ultimate Performance")
        };
        push_if(&mut out, !f.power_optimized, power);
        out.push(("PERF", "Activer MSI-Mode sur GPU"));
    } else if same_text(profile, "privacy") {
        push_if(&mut out, f.diagtrack_enabled, ("PRIVACY", "Désactiver DiagTrack"));
        push_if(&mut out, f.data_collection_level > 0, ("PRIVACY", "Réduire niveau télémétrie → Security only"));
        push_if(&mut out, f.advertising_id_enabled, ("PRIVACY", "Désactiver Advertising ID"));
        out.push(("PRIVACY", "Bloquer domaines télémétrie (firewall)"));
        out.push(("PRIVACY", "Désactiver services: WerSvc, lfsvc, MapsBroker"));
    } else if same_text(profile, "workstation") {
        push_if(&mut out, f.diagtrack_enabled, ("BALANCED", "Désactiver DiagTrack"));
        out.push(("BALANCED", "Power Plan → High Performance"));
        out.push(("BALANCED", "Conserver WSearch pour productivité"));
    } else {
        out.push(("INFO", "Profil non reconnu, utilisez: gaming, privacy, workstation"));
    }
    assert(out@ =~= advice_for(profile@, *f));
    out
}

/// The name of a telemetry level.
pub fn collection_level_name(level: u32) -> (r: &'static str)
    ensures
        r@ == (if level == 0 {
            "Security only"@
        } else if level == 1 {
            "Basic"@
        } else if level == 2 {
            "Enhanced"@
        } else {
            "Full"@
        }),
{
    match level {
        0 => "Security only",
        1 => "Basic",
        2 => "Enhanced",
        _ => "Full",
    }
}

} // verus!
