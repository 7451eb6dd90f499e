//! Every option that the modular interface offers, every option that
//! `tweak apply-all` applies, and every option that applying a selection
//! runs has a command in a new registry.
use crate::cli::tweaks::{default_ids, recommended};
use crate::interactive::executor::default_commands;
use crate::interactive::sections::{
    audit, bloatware, categories, maintenance, network, oo_privacy, performance, privacy, scan,
    security, services, sync, system, telemetry,
};
use crate::interactive::selection::selected;
use crate::interactive::tui::{chosen, chosen_in, initial, step, Action, TuiView};
use crate::interactive::types::OptItem;
use vstd::prelude::*;

verus! {

/// Every option of `items` has a command in a new registry.
pub open spec fn all_registered(items: Seq<OptItem>) -> bool {
    forall|j: int| 0 <= j < items.len() ==> default_commands().dom().contains(#[trigger] items[j].id@)
}

/// The options of two lists that are each registered are registered together.
proof fn lemma_concat_registered(a: Seq<OptItem>, b: Seq<OptItem>)
    requires
        all_registered(a),
        all_registered(b),
    ensures
        all_registered(a + b),
{
    assert forall|j: int| 0 <= j < (a + b).len() implies default_commands().dom().contains(
        #[trigger] (a + b)[j].id@,
    ) by {
        if j < a.len() {
            assert((a + b)[j] == a[j]);
        } else {
            assert((a + b)[j] == b[j - a.len()]);
        }
    }
}

/// The audit options are registered.
proof fn lemma_audit_registered()
    ensures
        all_registered(audit::entries()),
{
    let e = audit::entries();
    assert forall|j: int| 0 <= j < e.len() implies default_commands().dom().contains(#[trigger] e[j].id@) by {
        if j == 0 {} else if j == 1 {} else {}
    }
}

/// The bloatware options are registered.
proof fn lemma_bloatware_registered()
    ensures
        all_registered(bloatware::entries()),
{
    let e = bloatware::entries();
    assert forall|j: int| 0 <= j < e.len() implies default_commands().dom().contains(#[trigger] e[j].id@) by {
        if j == 0 {} else if j == 1 {} else if j == 2 {} else if j == 3 {} else {}
    }
}

/// The maintenance options are registered.
proof fn lemma_maintenance_registered()
    ensures
        all_registered(maintenance::entries()),
{
    let e = maintenance::entries();
    assert forall|j: int| 0 <= j < e.len() implies default_commands().dom().contains(#[trigger] e[j].id@) by {
        if j == 0 {} else if j == 1 {} else if j == 2 {} else {}
    }
}

/// The network options are registered.
proof fn lemma_network_registered()
    ensures
        all_registered(network::entries()),
{
    let e = network::entries();
    assert forall|j: int| 0 <= j < e.len() implies default_commands().dom().contains(#[trigger] e[j].id@) by {
        if j == 0 {} else if j == 1 {} else if j == 2 {} else {}
    }
}

/// The oo privacy options are registered.
proof fn lemma_oo_privacy_registered()
    ensures
        all_registered(oo_privacy::entries()),
{
    let e = oo_privacy::entries();
    assert forall|j: int| 0 <= j < e.len() implies default_commands().dom().contains(#[trigger] e[j].id@) by {
        if j == 0 {} else if j == 1 {} else if j == 2 {} else if j == 3 {} else if j == 4 {} else if j == 5 {} else if j == 6 {} else if j == 7 {} else if j == 8 {} else {}
    }
}

/// The performance options are registered.
proof fn lemma_performance_registered()
    ensures
        all_registered(performance::entries()),
{
    let e = performance::entries();
    assert forall|j: int| 0 <= j < e.len() implies default_commands().dom().contains(#[trigger] e[j].id@) by {
        if j == 0 {} else if j == 1 {} else if j == 2 {} else if j == 3 {} else if j == 4 {} else if j == 5 {} else if j == 6 {} else {}
    }
}

/// The privacy options are registered.
proof fn lemma_privacy_registered()
    ensures
        all_registered(privacy::entries()),
{
    let e = privacy::entries();
    assert forall|j: int| 0 <= j < e.len() implies default_commands().dom().contains(#[trigger] e[j].id@) by {
        if j == 0 {} else if j == 1 {} else if j == 2 {} else if j == 3 {} else if j == 4 {} else if j == 5 {} else {}
    }
}

/// The scan options are registered.
proof fn lemma_scan_registered()
    ensures
        all_registered(scan::entries()),
{
    let e = scan::entries();
    assert forall|j: int| 0 <= j < e.len() implies default_commands().dom().contains(#[trigger] e[j].id@) by {
        if j == 0 {} else if j == 1 {} else {}
    }
}

/// The security options are registered.
proof fn lemma_security_registered()
    ensures
        all_registered(security::entries()),
{
    let e = security::entries();
    assert forall|j: int| 0 <= j < e.len() implies default_commands().dom().contains(#[trigger] e[j].id@) by {
        if j == 0 {} else if j == 1 {} else if j == 2 {} else if j == 3 {} else if j == 4 {} else {}
    }
}

/// The services options are registered.
proof fn lemma_services_registered()
    ensures
        all_registered(services::entries()),
{
    let e = services::entries();
    assert forall|j: int| 0 <= j < e.len() implies default_commands().dom().contains(#[trigger] e[j].id@) by {
        if j == 0 {} else if j == 1 {} else if j == 2 {} else if j == 3 {} else {}
    }
}

/// The sync options are registered.
proof fn lemma_sync_registered()
    ensures
        all_registered(sync::entries()),
{
    let e = sync::entries();
    assert forall|j: int| 0 <= j < e.len() implies default_commands().dom().contains(#[trigger] e[j].id@) by {
        {}
    }
}

/// The system options are registered.
proof fn lemma_system_registered()
    ensures
        all_registered(system::entries()),
{
    let e = system::entries();
    assert forall|j: int| 0 <= j < e.len() implies default_commands().dom().contains(#[trigger] e[j].id@) by {
        if j == 0 {} else if j == 1 {} else if j == 2 {} else if j == 3 {} else if j == 4 {} else {}
    }
}

/// The telemetry options are registered.
proof fn lemma_telemetry_registered()
    ensures
        all_registered(telemetry::entries()),
{
    let e = telemetry::entries();
    assert forall|j: int| 0 <= j < e.len() implies default_commands().dom().contains(#[trigger] e[j].id@) by {
        if j == 0 {} else if j == 1 {} else if j == 2 {} else if j == 3 {} else if j == 4 {} else if j == 5 {} else {}
    }
}

/// Every option that the modular interface offers (`get_all_sections`), in
/// every category, has a command in the registry that `CommandRegistry::new`
/// builds, so applying a selection never meets an unknown identifier.
pub proof fn lemma_every_option_has_a_command()
    ensures
        forall|c: int| 0 <= c < categories().len() ==> all_registered(#[trigger] categories()[c].1),
{
    lemma_scan_registered();
    lemma_audit_registered();
    lemma_concat_registered(scan::entries(), audit::entries());
    lemma_telemetry_registered();
    lemma_privacy_registered();
    lemma_oo_privacy_registered();
    lemma_concat_registered(telemetry::entries(), privacy::entries());
    lemma_concat_registered(telemetry::entries() + privacy::entries(), oo_privacy::entries());
    lemma_system_registered();
    lemma_maintenance_registered();
    lemma_bloatware_registered();
    lemma_concat_registered(system::entries(), maintenance::entries());
    lemma_concat_registered(system::entries() + maintenance::entries(), bloatware::entries());
    lemma_services_registered();
    lemma_performance_registered();
    lemma_network_registered();
    lemma_security_registered();
    lemma_sync_registered();
    assert forall|c: int| 0 <= c < categories().len() implies all_registered(#[trigger] categories()[c].1) by {
        if c == 0 {} else if c == 1 {} else if c == 2 {} else if c == 3 {} else if c == 4 {} else if c == 5 {} else if c == 6 {} else {}
    }
}

/// Every identifier of `ids` has a command in a new registry.
pub open spec fn ids_registered(ids: Seq<&'static str>) -> bool {
    forall|k: int| 0 <= k < ids.len() ==> default_commands().dom().contains(#[trigger] ids[k]@)
}

/// The default options of registered options are registered.
proof fn lemma_default_ids_registered(items: Seq<OptItem>)
    requires
        all_registered(items),
    ensures
        ids_registered(default_ids(items)),
    decreases items.len(),
{
    if items.len() > 0 {
        assert(all_registered(items.drop_last())) by {
            assert forall|j: int| 0 <= j < items.drop_last().len() implies default_commands().dom().contains(
                #[trigger] items.drop_last()[j].id@,
            ) by {
                assert(items.drop_last()[j] == items[j]);
            }
        }
        lemma_default_ids_registered(items.drop_last());
        let rest = default_ids(items.drop_last());
        let tail = if items.last().default {
            seq![items.last().id]
        } else {
            Seq::empty()
        };
        assert(default_commands().dom().contains(items[items.len() - 1].id@));
        assert forall|k: int| 0 <= k < (rest + tail).len() implies default_commands().dom().contains(
            #[trigger] (rest + tail)[k]@,
        ) by {
            if k < rest.len() {
                assert((rest + tail)[k] == rest[k]);
            } else {
                assert((rest + tail)[k] == tail[k - rest.len()]);
            }
        }
    }
}

/// The recommended options of registered categories are registered.
proof fn lemma_recommended_registered(cats: Seq<(&'static str, Seq<OptItem>)>)
    requires
        forall|c: int| 0 <= c < cats.len() ==> all_registered(#[trigger] cats[c].1),
    ensures
        ids_registered(recommended(cats)),
    decreases cats.len(),
{
    if cats.len() > 0 {
        let init = cats.drop_last();
        assert forall|c: int| 0 <= c < init.len() implies all_registered(#[trigger] init[c].1) by {
            assert(init[c] == cats[c]);
        }
        lemma_recommended_registered(init);
        assert(all_registered(cats[cats.len() - 1].1));
        lemma_default_ids_registered(cats.last().1);
        let a = recommended(init);
        let b = default_ids(cats.last().1);
        assert forall|k: int| 0 <= k < (a + b).len() implies default_commands().dom().contains(
            #[trigger] (a + b)[k]@,
        ) by {
            if k < a.len() {
                assert((a + b)[k] == a[k]);
            } else {
                assert((a + b)[k] == b[k - a.len()]);
            }
        }
    }
}

/// Every option that `tweak apply-all` applies has a command in a new
/// registry.
pub proof fn lemma_recommended_options_have_commands()
    ensures
        ids_registered(recommended(categories())),
{
    lemma_every_option_has_a_command();
    lemma_recommended_registered(categories());
}

/// Every chosen pair of `picks` names a registered option.
pub open spec fn picks_registered(picks: Seq<(&'static str, &'static str)>) -> bool {
    forall|k: int| 0 <= k < picks.len() ==> default_commands().dom().contains(#[trigger] picks[k].0@)
}

/// The selected options of registered options are registered.
proof fn lemma_chosen_registered(items: Seq<OptItem>, m: Map<Seq<char>, bool>)
    requires
        all_registered(items),
    ensures
        picks_registered(chosen(items, m)),
    decreases items.len(),
{
    if items.len() > 0 {
        assert(all_registered(items.drop_last())) by {
            assert forall|j: int| 0 <= j < items.drop_last().len() implies default_commands().dom().contains(
                #[trigger] items.drop_last()[j].id@,
            ) by {
                assert(items.drop_last()[j] == items[j]);
            }
        }
        lemma_chosen_registered(items.drop_last(), m);
        assert(default_commands().dom().contains(items[items.len() - 1].id@));
        let a = chosen(items.drop_last(), m);
        let b = if selected(m, items.last().id@) {
            seq![(items.last().id, items.last().label)]
        } else {
            Seq::empty()
        };
        assert forall|k: int| 0 <= k < (a + b).len() implies default_commands().dom().contains(
            #[trigger] (a + b)[k].0@,
        ) by {
            if k < a.len() {
                assert((a + b)[k] == a[k]);
            } else {
                assert((a + b)[k] == b[k - a.len()]);
            }
        }
    }
}

/// The selected options of registered tabs are registered.
proof fn lemma_chosen_in_registered(tabs: Seq<Seq<OptItem>>, m: Map<Seq<char>, bool>)
    requires
        forall|t: int| 0 <= t < tabs.len() ==> all_registered(#[trigger] tabs[t]),
    ensures
        picks_registered(chosen_in(tabs, m)),
    decreases tabs.len(),
{
    if tabs.len() > 0 {
        let init = tabs.drop_last();
        assert forall|t: int| 0 <= t < init.len() implies all_registered(#[trigger] init[t]) by {
            assert(init[t] == tabs[t]);
        }
        lemma_chosen_in_registered(init, m);
        assert(all_registered(tabs[tabs.len() - 1]));
        lemma_chosen_registered(tabs.last(), m);
        let a = chosen_in(init, m);
        let b = chosen(tabs.last(), m);
        assert forall|k: int| 0 <= k < (a + b).len() implies default_commands().dom().contains(
            #[trigger] (a + b)[k].0@,
        ) by {
            if k < a.len() {
                assert((a + b)[k] == a[k]);
            } else {
                assert((a + b)[k] == b[k - a.len()]);
            }
        }
    }
}

/// No action changes the tabs or their options.
pub proof fn lemma_step_keeps_tabs(s: TuiView, a: Action)
    ensures
        step(s, a).tabs == s.tabs,
        step(s, a).tab_options == s.tab_options,
{
}

/// In an interface whose tabs are those it starts with, every option that
/// applying the selection runs has a command in a new registry, whatever the
/// flags are.
pub proof fn lemma_applied_options_have_commands(s: TuiView, is_admin: bool)
    requires
        s.tab_options == initial(is_admin).tab_options,
    ensures
        picks_registered(chosen_in(s.tab_options, s.options_state)),
{
    lemma_every_option_has_a_command();
    let tabs = s.tab_options;
    assert forall|t: int| 0 <= t < tabs.len() implies all_registered(#[trigger] tabs[t]) by {
        assert(tabs[t] == categories()[t].1);
    }
    lemma_chosen_in_registered(tabs, s.options_state);
}

} // verus!
