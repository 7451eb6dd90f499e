//! The options of the modular interface, grouped by category.
pub mod audit;
pub mod bloatware;
pub mod maintenance;
pub mod network;
pub mod oo_privacy;
pub mod performance;
pub mod privacy;
pub mod scan;
pub mod security;
pub mod services;
pub mod sync;
pub mod system;
pub mod telemetry;

use crate::interactive::i18n::{
    CAT_ANALYSIS, CAT_CONFIDENTIALITY, CAT_NETWORK, CAT_PERFORMANCE, CAT_SECURITY, CAT_SERVICES,
    CAT_SYNC, CAT_SYSTEM,
};
use crate::interactive::executor::default_commands;
use crate::interactive::identifiers::lemma_interface_ids_unique_and_registered;
use crate::interactive::types::OptItem;
use vstd::prelude::*;

verus! {

/// The categories of the interface, each with its options, in display order.
pub open spec fn categories() -> Seq<(&'static str, Seq<OptItem>)> {
    seq![
        (CAT_ANALYSIS, scan::entries() + audit::entries()),
        (CAT_CONFIDENTIALITY, telemetry::entries() + privacy::entries() + oo_privacy::entries()),
        (CAT_SYSTEM, system::entries() + maintenance::entries() + bloatware::entries()),
        (CAT_SERVICES, services::entries()),
        (CAT_PERFORMANCE, performance::entries()),
        (CAT_NETWORK, network::entries()),
        (CAT_SECURITY, security::entries()),
        (CAT_SYNC, sync::entries()),
    ]
}

/// The view of a list of categories: names with the options as sequences.
pub open spec fn category_views(v: Seq<(&'static str, Vec<OptItem>)>) -> Seq<(&'static str, Seq<OptItem>)> {
    v.map_values(|c: (&'static str, Vec<OptItem>)| (c.0, c.1@))
}

/// All categories with their options. No two options, in the same category
/// or in different ones, share an identifier, and every identifier has a
/// command in the registry that `CommandRegistry::new` builds.
pub fn get_all_sections() -> (r: Vec<(&'static str, Vec<OptItem>)>)
    ensures
        category_views(r@) == categories(),
        forall|c1: int, i: int, c2: int, j: int|
            0 <= c1 < r@.len() && 0 <= c2 < r@.len() && 0 <= i < r@[c1].1@.len() && 0 <= j
                < r@[c2].1@.len() && (c1 != c2 || i != j) ==> #[trigger] r@[c1].1@[i].id@
                != #[trigger] r@[c2].1@[j].id@,
        forall|c: int, i: int|
            0 <= c < r@.len() && 0 <= i < r@[c].1@.len() ==> default_commands().dom().contains(
                #[trigger] r@[c].1@[i].id@,
            ),
{
    let mut analysis = scan::get_options();
    let mut audit_opts = audit::get_options();
    analysis.append(&mut audit_opts);
    let mut confidentiality = telemetry::get_options();
    let mut privacy_opts = privacy::get_options();
    let mut oo_opts = oo_privacy::get_options();
    confidentiality.append(&mut privacy_opts);
    confidentiality.append(&mut oo_opts);
    let mut system_opts = system::get_options();
    let mut maintenance_opts = maintenance::get_options();
    let mut bloat_opts = bloatware::get_options();
    system_opts.append(&mut maintenance_opts);
    system_opts.append(&mut bloat_opts);
    let r = vec![
        (CAT_ANALYSIS, analysis),
        (CAT_CONFIDENTIALITY, confidentiality),
        (CAT_SYSTEM, system_opts),
        (CAT_SERVICES, services::get_options()),
        (CAT_PERFORMANCE, performance::get_options()),
        (CAT_NETWORK, network::get_options()),
        (CAT_SECURITY, security::get_options()),
        (CAT_SYNC, sync::get_options()),
    ];
    assert(category_views(r@) =~= categories());
    proof {
        lemma_interface_ids_unique_and_registered();
        assert forall|c: int| 0 <= c < r@.len() implies #[trigger] r@[c].1@ == categories()[c].1 by {
            assert(category_views(r@)[c] == (r@[c].0, r@[c].1@));
        }
    }
    r
}

} // verus!
