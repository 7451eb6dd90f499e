//! Options of the synchronisation category.
use crate::interactive::types::{OptItem, RiskLevel};
use vstd::prelude::*;

verus! {

/// The options of this group, in display order.
pub open spec fn entries() -> Seq<OptItem> {
    seq![
        OptItem {
            id: "sync_persist",
            label: "Alignement de la persistance",
            description: "Assure la persistance des optimisations après le redémarrage.",
            default: true,
            risk: RiskLevel::Low,
        },
    ]
}

/// The options of this group, in display order.
pub fn get_options() -> (r: Vec<OptItem>)
    ensures
        r@ == entries(),
{
    let r = vec![
        OptItem {
            id: "sync_persist",
            label: "Alignement de la persistance",
            description: "Assure la persistance des optimisations après le redémarrage.",
            default: true,
            risk: RiskLevel::Low,
        },
    ];
    assert(r@ =~= entries());
    r
}

} // verus!
