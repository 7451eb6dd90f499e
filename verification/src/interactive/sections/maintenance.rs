//! Options of the system category: maintenance.
use crate::interactive::types::{OptItem, RiskLevel};
use vstd::prelude::*;

verus! {

/// The options of this group, in display order.
pub open spec fn entries() -> Seq<OptItem> {
    seq![
        OptItem {
            id: "maint_cleanup_full",
            label: "Purge complète du système",
            description: "Nettoyage approfondi des fichiers temporaires, WinSxS et de tous les caches de navigateurs.",
            default: false,
            risk: RiskLevel::Safe,
        },
        OptItem {
            id: "maint_updates_pause",
            label: "Suspendre Windows Update",
            description: "Suspend les mises à jour Windows pendant 35 jours pour éviter les redémarrages forcés.",
            default: false,
            risk: RiskLevel::Safe,
        },
        OptItem {
            id: "maint_tasks",
            label: "Désactiver les tâches de télémétrie",
            description: "Désactive les tâches planifiées qui collectent et envoient des données à Microsoft.",
            default: true,
            risk: RiskLevel::Safe,
        },
        OptItem {
            id: "maint_hibernation",
            label: "Désactiver l'hibernation",
            description: "Désactive l'hibernation et supprime hiberfil.sys pour économiser de l'espace disque.",
            default: false,
            risk: RiskLevel::Safe,
        },
    ]
}

/// The options of this group, in display order.
pub fn get_options() -> (r: Vec<OptItem>)
    ensures
        r@ == entries(),
{
    let r = vec![
        OptItem {
            id: "maint_cleanup_full",
            label: "Purge complète du système",
            description: "Nettoyage approfondi des fichiers temporaires, WinSxS et de tous les caches de navigateurs.",
            default: false,
            risk: RiskLevel::Safe,
        },
        OptItem {
            id: "maint_updates_pause",
            label: "Suspendre Windows Update",
            description: "Suspend les mises à jour Windows pendant 35 jours pour éviter les redémarrages forcés.",
            default: false,
            risk: RiskLevel::Safe,
        },
        OptItem {
            id: "maint_tasks",
            label: "Désactiver les tâches de télémétrie",
            description: "Désactive les tâches planifiées qui collectent et envoient des données à Microsoft.",
            default: true,
            risk: RiskLevel::Safe,
        },
        OptItem {
            id: "maint_hibernation",
            label: "Désactiver l'hibernation",
            description: "Désactive l'hibernation et supprime hiberfil.sys pour économiser de l'espace disque.",
            default: false,
            risk: RiskLevel::Safe,
        },
    ];
    assert(r@ =~= entries());
    r
}

} // verus!
