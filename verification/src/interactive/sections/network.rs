//! Options of the network category.
use crate::interactive::types::{OptItem, RiskLevel};
use vstd::prelude::*;

verus! {

/// The options of this group, in display order.
pub open spec fn entries() -> Seq<OptItem> {
    seq![
        OptItem {
            id: "net_doh",
            label: "Activer le DNS-over-HTTPS",
            description: "Configure le DoH Cloudflare pour des requêtes DNS chiffrées et privées.",
            default: true,
            risk: RiskLevel::Safe,
        },
        OptItem {
            id: "net_firewall",
            label: "Appliquer le durcissement du pare-feu",
            description: "Bloque les plages IP de télémétrie et de suivi connues dans le pare-feu Windows.",
            default: true,
            risk: RiskLevel::Safe,
        },
        OptItem {
            id: "net_hosts",
            label: "Appliquer la liste de blocage Hosts",
            description: "Ajoute les domaines de télémétrie au fichier hosts du système.",
            default: true,
            risk: RiskLevel::Safe,
        },
        OptItem {
            id: "net_ipv6",
            label: "Désactiver l'IPv6",
            description: "Désactive l'IPv6 si non nécessaire, ce qui peut résoudre certains problèmes de connexion.",
            default: false,
            risk: RiskLevel::Low,
        },
    ]
}

/// The options of this group, in display order.
pub fn get_options() -> (r: Vec<OptItem>)
    ensures
        r@ == entries(),
{
    let r = vec![
        OptItem {
            id: "net_doh",
            label: "Activer le DNS-over-HTTPS",
            description: "Configure le DoH Cloudflare pour des requêtes DNS chiffrées et privées.",
            default: true,
            risk: RiskLevel::Safe,
        },
        OptItem {
            id: "net_firewall",
            label: "Appliquer le durcissement du pare-feu",
            description: "Bloque les plages IP de télémétrie et de suivi connues dans le pare-feu Windows.",
            default: true,
            risk: RiskLevel::Safe,
        },
        OptItem {
            id: "net_hosts",
            label: "Appliquer la liste de blocage Hosts",
            description: "Ajoute les domaines de télémétrie au fichier hosts du système.",
            default: true,
            risk: RiskLevel::Safe,
        },
        OptItem {
            id: "net_ipv6",
            label: "Désactiver l'IPv6",
            description: "Désactive l'IPv6 si non nécessaire, ce qui peut résoudre certains problèmes de connexion.",
            default: false,
            risk: RiskLevel::Low,
        },
    ];
    assert(r@ =~= entries());
    r
}

} // verus!
