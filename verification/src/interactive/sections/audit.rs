//! Options of the analysis category: audits.
use crate::interactive::types::{OptItem, RiskLevel};
use vstd::prelude::*;

verus! {

/// The options of this group, in display order.
pub open spec fn entries() -> Seq<OptItem> {
    seq![
        OptItem {
            id: "audit_hardware",
            label: "Inventaire matériel",
            description: "Analyse détaillée du CPU, du GPU et du stockage.",
            default: true,
            risk: RiskLevel::Low,
        },
        OptItem {
            id: "audit_security",
            label: "Audit des politiques de sécurité",
            description: "Vérifie l'état de Windows Defender et du pare-feu.",
            default: true,
            risk: RiskLevel::Low,
        },
        OptItem {
            id: "audit_services",
            label: "Audit des services et pilotes",
            description: "Identifie les services non standard ou suspects.",
            default: true,
            risk: RiskLevel::Medium,
        },
    ]
}

/// The options of this group, in display order.
pub fn get_options() -> (r: Vec<OptItem>)
    ensures
        r@ == entries(),
{
    let r = vec![
        OptItem {
            id: "audit_hardware",
            label: "Inventaire matériel",
            description: "Analyse détaillée du CPU, du GPU et du stockage.",
            default: true,
            risk: RiskLevel::Low,
        },
        OptItem {
            id: "audit_security",
            label: "Audit des politiques de sécurité",
            description: "Vérifie l'état de Windows Defender et du pare-feu.",
            default: true,
            risk: RiskLevel::Low,
        },
        OptItem {
            id: "audit_services",
            label: "Audit des services et pilotes",
            description: "Identifie les services non standard ou suspects.",
            default: true,
            risk: RiskLevel::Medium,
        },
    ];
    assert(r@ =~= entries());
    r
}

} // verus!
