//! Options of the analysis category: scans.
use crate::interactive::types::{OptItem, RiskLevel};
use vstd::prelude::*;

verus! {

/// The options of this group, in display order.
pub open spec fn entries() -> Seq<OptItem> {
    seq![
        OptItem {
            id: "scan_yara",
            label: "Analyse de signatures YARA-X",
            description: "Analyse approfondie des menaces via signatures YARA-X (Tech Preview).",
            default: false,
            risk: RiskLevel::Low,
        },
        OptItem {
            id: "scan_browser",
            label: "Analyse forensique des navigateurs",
            description: "Analyse l'historique et les extensions des navigateurs pour détecter des menaces.",
            default: false,
            risk: RiskLevel::Low,
        },
        OptItem {
            id: "scan_registry",
            label: "Analyse de persistance du registre",
            description: "Vérifie les clés de registre malveillantes et les éléments de démarrage (ASEP).",
            default: false,
            risk: RiskLevel::Medium,
        },
    ]
}

/// The options of this group, in display order.
pub fn get_options() -> (r: Vec<OptItem>)
    ensures
        r@ == entries(),
{
    let r = vec![
        OptItem {
            id: "scan_yara",
            label: "Analyse de signatures YARA-X",
            description: "Analyse approfondie des menaces via signatures YARA-X (Tech Preview).",
            default: false,
            risk: RiskLevel::Low,
        },
        OptItem {
            id: "scan_browser",
            label: "Analyse forensique des navigateurs",
            description: "Analyse l'historique et les extensions des navigateurs pour détecter des menaces.",
            default: false,
            risk: RiskLevel::Low,
        },
        OptItem {
            id: "scan_registry",
            label: "Analyse de persistance du registre",
            description: "Vérifie les clés de registre malveillantes et les éléments de démarrage (ASEP).",
            default: false,
            risk: RiskLevel::Medium,
        },
    ];
    assert(r@ =~= entries());
    r
}

} // verus!
