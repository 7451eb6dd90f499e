//! The identifiers of the options: no two options of the interface, nor two
//! options of the catalogue, share one, and every option of the interface has
//! a command in a new registry.
use crate::interactive::catalog::{
    appx_options, audit_options, cleanup_options, cpu_options, dns_options, dpc_options,
    network_advanced_options, performance_options, privacy_options, scheduler_options,
    security_options, settings_options, telemetry_options, OptItem,
};
use crate::interactive::coverage::{all_registered, lemma_every_option_has_a_command};
use crate::interactive::executor::default_commands;
use crate::interactive::sections::categories;
use vstd::map::*;
use vstd::prelude::*;

verus! {

/// Where each identifier of the interface stands: its category and its index there.
spec fn interface_places() -> Map<Seq<char>, (int, int)> {
    map![
        "scan_yara"@ => (0int, 0int),
        "scan_browser"@ => (0int, 1int),
        "scan_registry"@ => (0int, 2int),
        "audit_hardware"@ => (0int, 3int),
        "audit_security"@ => (0int, 4int),
        "audit_services"@ => (0int, 5int),
        "diagtrack"@ => (1int, 0int),
        "dmwappush"@ => (1int, 1int),
        "wersvc"@ => (1int, 2int),
        "firewall"@ => (1int, 3int),
        "sched_tasks"@ => (1int, 4int),
        "hosts"@ => (1int, 5int),
        "onedrive"@ => (1int, 6int),
        "telemetry_level"@ => (1int, 7int),
        "advertising_id"@ => (1int, 8int),
        "location"@ => (1int, 9int),
        "activity_history"@ => (1int, 10int),
        "cortana"@ => (1int, 11int),
        "recall"@ => (1int, 12int),
        "context_menu"@ => (1int, 13int),
        "oo_telemetry"@ => (1int, 14int),
        "oo_advertising"@ => (1int, 15int),
        "oo_copilot"@ => (1int, 16int),
        "oo_recall"@ => (1int, 17int),
        "oo_widgets"@ => (1int, 18int),
        "oo_search_highlights"@ => (1int, 19int),
        "oo_wudo"@ => (1int, 20int),
        "oo_wifi_sense"@ => (1int, 21int),
        "oo_app_permissions"@ => (1int, 22int),
        "oo_bg_apps"@ => (1int, 23int),
        "cleanup_temp"@ => (2int, 0int),
        "cleanup_winsxs"@ => (2int, 1int),
        "explorer_optimize"@ => (2int, 2int),
        "hardening_unlock"@ => (2int, 3int),
        "windows_update"@ => (2int, 4int),
        "cleanup_edge"@ => (2int, 5int),
        "maint_cleanup_full"@ => (2int, 6int),
        "maint_updates_pause"@ => (2int, 7int),
        "maint_tasks"@ => (2int, 8int),
        "maint_hibernation"@ => (2int, 9int),
        "bloat_copilot"@ => (2int, 10int),
        "bloat_onedrive"@ => (2int, 11int),
        "bloat_edge"@ => (2int, 12int),
        "bloat_standard"@ => (2int, 13int),
        "bloat_cortana"@ => (2int, 14int),
        "svc_telemetry"@ => (3int, 0int),
        "svc_sysmain"@ => (3int, 1int),
        "svc_search"@ => (3int, 2int),
        "svc_update"@ => (3int, 3int),
        "svc_print"@ => (3int, 4int),
        "timer"@ => (4int, 0int),
        "power_ultimate"@ => (4int, 1int),
        "cpu_throttle"@ => (4int, 2int),
        "msi"@ => (4int, 3int),
        "hags"@ => (4int, 4int),
        "nagle"@ => (4int, 5int),
        "interrupts"@ => (4int, 6int),
        "memory"@ => (4int, 7int),
        "net_doh"@ => (5int, 0int),
        "net_firewall"@ => (5int, 1int),
        "net_hosts"@ => (5int, 2int),
        "net_ipv6"@ => (5int, 3int),
        "hvci"@ => (6int, 0int),
        "vbs"@ => (6int, 1int),
        "spectre"@ => (6int, 2int),
        "uac_level"@ => (6int, 3int),
        "hardening_lock"@ => (6int, 4int),
        "hardening_ppl"@ => (6int, 5int),
        "sync_persist"@ => (7int, 0int),
    ]
}

/// The length of each identifier of the interface, and enough of its characters to tell it from the others.
proof fn lemma_interface_id_text()
    ensures
        "scan_yara"@.len() == 9,
        "scan_yara"@[1] == 'c',
        "scan_browser"@.len() == 12,
        "scan_browser"@[5] == 'b',
        "scan_browser"@[8] == 'w',
        "scan_registry"@.len() == 13,
        "scan_registry"@[8] == 'i',
        "audit_hardware"@.len() == 14,
        "audit_hardware"@[8] == 'r',
        "audit_hardware"@[6] == 'h',
        "audit_security"@.len() == 14,
        "audit_security"@[8] == 'c',
        "audit_security"@[6] == 's',
        "audit_services"@.len() == 14,
        "audit_services"@[8] == 'r',
        "audit_services"@[6] == 's',
        "diagtrack"@.len() == 9,
        "diagtrack"@[1] == 'i',
        "dmwappush"@.len() == 9,
        "dmwappush"@[1] == 'm',
        "wersvc"@.len() == 6,
        "wersvc"@[0] == 'w',
        "firewall"@.len() == 8,
        "firewall"@[0] == 'f',
        "sched_tasks"@.len() == 11,
        "sched_tasks"@[1] == 'c',
        "hosts"@.len() == 5,
        "hosts"@[0] == 'h',
        "onedrive"@.len() == 8,
        "onedrive"@[0] == 'o',
        "telemetry_level"@.len() == 15,
        "advertising_id"@.len() == 14,
        "advertising_id"@[8] == 'i',
        "advertising_id"@[6] == 'i',
        "location"@.len() == 8,
        "location"@[0] == 'l',
        "activity_history"@.len() == 16,
        "activity_history"@[0] == 'a',
        "cortana"@.len() == 7,
        "cortana"@[0] == 'c',
        "recall"@.len() == 6,
        "recall"@[0] == 'r',
        "context_menu"@.len() == 12,
        "context_menu"@[5] == 'x',
        "context_menu"@[8] == 'm',
        "oo_telemetry"@.len() == 12,
        "oo_telemetry"@[5] == 'l',
        "oo_telemetry"@[8] == 'e',
        "oo_advertising"@.len() == 14,
        "oo_advertising"@[8] == 't',
        "oo_advertising"@[6] == 'e',
        "oo_copilot"@.len() == 10,
        "oo_copilot"@[4] == 'o',
        "oo_recall"@.len() == 9,
        "oo_recall"@[1] == 'o',
        "oo_widgets"@.len() == 10,
        "oo_widgets"@[4] == 'i',
        "oo_search_highlights"@.len() == 20,
        "oo_wudo"@.len() == 7,
        "oo_wudo"@[0] == 'o',
        "oo_wifi_sense"@.len() == 13,
        "oo_wifi_sense"@[8] == 's',
        "oo_app_permissions"@.len() == 18,
        "oo_app_permissions"@[0] == 'o',
        "oo_bg_apps"@.len() == 10,
        "oo_bg_apps"@[4] == 'g',
        "cleanup_temp"@.len() == 12,
        "cleanup_temp"@[5] == 'u',
        "cleanup_temp"@[8] == 't',
        "cleanup_winsxs"@.len() == 14,
        "cleanup_winsxs"@[8] == 'w',
        "cleanup_winsxs"@[6] == 'p',
        "explorer_optimize"@.len() == 17,
        "explorer_optimize"@[0] == 'e',
        "hardening_unlock"@.len() == 16,
        "hardening_unlock"@[0] == 'h',
        "windows_update"@.len() == 14,
        "windows_update"@[8] == 'u',
        "windows_update"@[6] == 's',
        "cleanup_edge"@.len() == 12,
        "cleanup_edge"@[5] == 'u',
        "cleanup_edge"@[8] == 'e',
        "maint_cleanup_full"@.len() == 18,
        "maint_cleanup_full"@[0] == 'm',
        "maint_updates_pause"@.len() == 19,
        "maint_tasks"@.len() == 11,
        "maint_tasks"@[1] == 'a',
        "maint_hibernation"@.len() == 17,
        "maint_hibernation"@[0] == 'm',
        "bloat_copilot"@.len() == 13,
        "bloat_copilot"@[8] == 'p',
        "bloat_onedrive"@.len() == 14,
        "bloat_onedrive"@[8] == 'e',
        "bloat_onedrive"@[6] == 'o',
        "bloat_edge"@.len() == 10,
        "bloat_edge"@[4] == 't',
        "bloat_standard"@.len() == 14,
        "bloat_standard"@[8] == 'a',
        "bloat_standard"@[6] == 's',
        "bloat_cortana"@.len() == 13,
        "bloat_cortana"@[8] == 'r',
        "svc_telemetry"@.len() == 13,
        "svc_telemetry"@[8] == 'm',
        "svc_sysmain"@.len() == 11,
        "svc_sysmain"@[1] == 'v',
        "svc_search"@.len() == 10,
        "svc_search"@[4] == 's',
        "svc_update"@.len() == 10,
        "svc_update"@[4] == 'u',
        "svc_print"@.len() == 9,
        "svc_print"@[1] == 'v',
        "timer"@.len() == 5,
        "timer"@[0] == 't',
        "power_ultimate"@.len() == 14,
        "power_ultimate"@[8] == 't',
        "power_ultimate"@[6] == 'u',
        "cpu_throttle"@.len() == 12,
        "cpu_throttle"@[5] == 'h',
        "cpu_throttle"@[8] == 't',
        "msi"@.len() == 3,
        "msi"@[0] == 'm',
        "hags"@.len() == 4,
        "hags"@[1] == 'a',
        "nagle"@.len() == 5,
        "nagle"@[0] == 'n',
        "interrupts"@.len() == 10,
        "interrupts"@[4] == 'r',
        "memory"@.len() == 6,
        "memory"@[0] == 'm',
        "net_doh"@.len() == 7,
        "net_doh"@[0] == 'n',
        "net_firewall"@.len() == 12,
        "net_firewall"@[5] == 'i',
        "net_firewall"@[8] == 'w',
        "net_hosts"@.len() == 9,
        "net_hosts"@[1] == 'e',
        "net_ipv6"@.len() == 8,
        "net_ipv6"@[0] == 'n',
        "hvci"@.len() == 4,
        "hvci"@[1] == 'v',
        "vbs"@.len() == 3,
        "vbs"@[0] == 'v',
        "spectre"@.len() == 7,
        "spectre"@[0] == 's',
        "uac_level"@.len() == 9,
        "uac_level"@[1] == 'a',
        "hardening_lock"@.len() == 14,
        "hardening_lock"@[8] == 'g',
        "hardening_lock"@[6] == 'i',
        "hardening_ppl"@.len() == 13,
        "hardening_ppl"@[8] == 'g',
        "sync_persist"@.len() == 12,
        "sync_persist"@[5] == 'p',
        "sync_persist"@[8] == 's',
{
    reveal_strlit("scan_yara");
    reveal_strlit("scan_browser");
    reveal_strlit("scan_registry");
    reveal_strlit("audit_hardware");
    reveal_strlit("audit_security");
    reveal_strlit("audit_services");
    reveal_strlit("diagtrack");
    reveal_strlit("dmwappush");
    reveal_strlit("wersvc");
    reveal_strlit("firewall");
    reveal_strlit("sched_tasks");
    reveal_strlit("hosts");
    reveal_strlit("onedrive");
    reveal_strlit("telemetry_level");
    reveal_strlit("advertising_id");
    reveal_strlit("location");
    reveal_strlit("activity_history");
    reveal_strlit("cortana");
    reveal_strlit("recall");
    reveal_strlit("context_menu");
    reveal_strlit("oo_telemetry");
    reveal_strlit("oo_advertising");
    reveal_strlit("oo_copilot");
    reveal_strlit("oo_recall");
    reveal_strlit("oo_widgets");
    reveal_strlit("oo_search_highlights");
    reveal_strlit("oo_wudo");
    reveal_strlit("oo_wifi_sense");
    reveal_strlit("oo_app_permissions");
    reveal_strlit("oo_bg_apps");
    reveal_strlit("cleanup_temp");
    reveal_strlit("cleanup_winsxs");
    reveal_strlit("explorer_optimize");
    reveal_strlit("hardening_unlock");
    reveal_strlit("windows_update");
    reveal_strlit("cleanup_edge");
    reveal_strlit("maint_cleanup_full");
    reveal_strlit("maint_updates_pause");
    reveal_strlit("maint_tasks");
    reveal_strlit("maint_hibernation");
    reveal_strlit("bloat_copilot");
    reveal_strlit("bloat_onedrive");
    reveal_strlit("bloat_edge");
    reveal_strlit("bloat_standard");
    reveal_strlit("bloat_cortana");
    reveal_strlit("svc_telemetry");
    reveal_strlit("svc_sysmain");
    reveal_strlit("svc_search");
    reveal_strlit("svc_update");
    reveal_strlit("svc_print");
    reveal_strlit("timer");
    reveal_strlit("power_ultimate");
    reveal_strlit("cpu_throttle");
    reveal_strlit("msi");
    reveal_strlit("hags");
    reveal_strlit("nagle");
    reveal_strlit("interrupts");
    reveal_strlit("memory");
    reveal_strlit("net_doh");
    reveal_strlit("net_firewall");
    reveal_strlit("net_hosts");
    reveal_strlit("net_ipv6");
    reveal_strlit("hvci");
    reveal_strlit("vbs");
    reveal_strlit("spectre");
    reveal_strlit("uac_level");
    reveal_strlit("hardening_lock");
    reveal_strlit("hardening_ppl");
    reveal_strlit("sync_persist");
}

/// The options of category 0 stand where `interface_places` puts them.
#[verifier::rlimit(50)]
proof fn lemma_interface_places_0()
    ensures
        forall|i: int|
            0 <= i < categories()[0].1.len() ==> interface_places().dom().contains(
                #[trigger] categories()[0].1[i].id@,
            ) && interface_places()[categories()[0].1[i].id@] == (0int, i),
{
    lemma_interface_id_text();
    assert forall|i: int| 0 <= i < categories()[0].1.len() implies interface_places().dom().contains(
        #[trigger] categories()[0].1[i].id@,
    ) && interface_places()[categories()[0].1[i].id@] == (0int, i) by {
        if i == 0 {} else if i == 1 {} else if i == 2 {} else if i == 3 {} else if i == 4 {} else {}
    }
}

/// The options of category 1 stand where `interface_places` puts them.
#[verifier::rlimit(50)]
proof fn lemma_interface_places_1()
    ensures
        forall|i: int|
            0 <= i < categories()[1].1.len() ==> interface_places().dom().contains(
                #[trigger] categories()[1].1[i].id@,
            ) && interface_places()[categories()[1].1[i].id@] == (1int, i),
{
    lemma_interface_id_text();
    assert forall|i: int| 0 <= i < categories()[1].1.len() implies interface_places().dom().contains(
        #[trigger] categories()[1].1[i].id@,
    ) && interface_places()[categories()[1].1[i].id@] == (1int, i) by {
        if i == 0 {} else if i == 1 {} else if i == 2 {} else if i == 3 {} else if i == 4 {} else if i == 5 {} else if i == 6 {} else if i == 7 {} else if i == 8 {} else if i == 9 {} else if i == 10 {} else if i == 11 {} else if i == 12 {} else if i == 13 {} else if i == 14 {} else if i == 15 {} else if i == 16 {} else if i == 17 {} else if i == 18 {} else if i == 19 {} else if i == 20 {} else if i == 21 {} else if i == 22 {} else {}
    }
}

/// The options of category 2 stand where `interface_places` puts them.
#[verifier::rlimit(50)]
proof fn lemma_interface_places_2()
    ensures
        forall|i: int|
            0 <= i < categories()[2].1.len() ==> interface_places().dom().contains(
                #[trigger] categories()[2].1[i].id@,
            ) && interface_places()[categories()[2].1[i].id@] == (2int, i),
{
    lemma_interface_id_text();
    assert forall|i: int| 0 <= i < categories()[2].1.len() implies interface_places().dom().contains(
        #[trigger] categories()[2].1[i].id@,
    ) && interface_places()[categories()[2].1[i].id@] == (2int, i) by {
        if i == 0 {} else if i == 1 {} else if i == 2 {} else if i == 3 {} else if i == 4 {} else if i == 5 {} else if i == 6 {} else if i == 7 {} else if i == 8 {} else if i == 9 {} else if i == 10 {} else if i == 11 {} else if i == 12 {} else if i == 13 {} else {}
    }
}

/// The options of category 3 stand where `interface_places` puts them.
#[verifier::rlimit(50)]
proof fn lemma_interface_places_3()
    ensures
        forall|i: int|
            0 <= i < categories()[3].1.len() ==> interface_places().dom().contains(
                #[trigger] categories()[3].1[i].id@,
            ) && interface_places()[categories()[3].1[i].id@] == (3int, i),
{
    lemma_interface_id_text();
    assert forall|i: int| 0 <= i < categories()[3].1.len() implies interface_places().dom().contains(
        #[trigger] categories()[3].1[i].id@,
    ) && interface_places()[categories()[3].1[i].id@] == (3int, i) by {
        if i == 0 {} else if i == 1 {} else if i == 2 {} else if i == 3 {} else {}
    }
}

/// The options of category 4 stand where `interface_places` puts them.
#[verifier::rlimit(50)]
proof fn lemma_interface_places_4()
    ensures
        forall|i: int|
            0 <= i < categories()[4].1.len() ==> interface_places().dom().contains(
                #[trigger] categories()[4].1[i].id@,
            ) && interface_places()[categories()[4].1[i].id@] == (4int, i),
{
    lemma_interface_id_text();
    assert forall|i: int| 0 <= i < categories()[4].1.len() implies interface_places().dom().contains(
        #[trigger] categories()[4].1[i].id@,
    ) && interface_places()[categories()[4].1[i].id@] == (4int, i) by {
        if i == 0 {} else if i == 1 {} else if i == 2 {} else if i == 3 {} else if i == 4 {} else if i == 5 {} else if i == 6 {} else {}
    }
}

/// The options of category 5 stand where `interface_places` puts them.
#[verifier::rlimit(50)]
proof fn lemma_interface_places_5()
    ensures
        forall|i: int|
            0 <= i < categories()[5].1.len() ==> interface_places().dom().contains(
                #[trigger] categories()[5].1[i].id@,
            ) && interface_places()[categories()[5].1[i].id@] == (5int, i),
{
    lemma_interface_id_text();
    assert forall|i: int| 0 <= i < categories()[5].1.len() implies interface_places().dom().contains(
        #[trigger] categories()[5].1[i].id@,
    ) && interface_places()[categories()[5].1[i].id@] == (5int, i) by {
        if i == 0 {} else if i == 1 {} else if i == 2 {} else {}
    }
}

/// The options of category 6 stand where `interface_places` puts them.
#[verifier::rlimit(50)]
proof fn lemma_interface_places_6()
    ensures
        forall|i: int|
            0 <= i < categories()[6].1.len() ==> interface_places().dom().contains(
                #[trigger] categories()[6].1[i].id@,
            ) && interface_places()[categories()[6].1[i].id@] == (6int, i),
{
    lemma_interface_id_text();
    assert forall|i: int| 0 <= i < categories()[6].1.len() implies interface_places().dom().contains(
        #[trigger] categories()[6].1[i].id@,
    ) && interface_places()[categories()[6].1[i].id@] == (6int, i) by {
        if i == 0 {} else if i == 1 {} else if i == 2 {} else if i == 3 {} else if i == 4 {} else {}
    }
}

/// The options of category 7 stand where `interface_places` puts them.
#[verifier::rlimit(50)]
proof fn lemma_interface_places_7()
    ensures
        forall|i: int|
            0 <= i < categories()[7].1.len() ==> interface_places().dom().contains(
                #[trigger] categories()[7].1[i].id@,
            ) && interface_places()[categories()[7].1[i].id@] == (7int, i),
{
    lemma_interface_id_text();
    assert forall|i: int| 0 <= i < categories()[7].1.len() implies interface_places().dom().contains(
        #[trigger] categories()[7].1[i].id@,
    ) && interface_places()[categories()[7].1[i].id@] == (7int, i) by {
        {}
    }
}

/// The option at index `i` of category `c` stands where `interface_places`
/// puts it.
proof fn lemma_interface_places()
    ensures
        forall|c: int, i: int|
            0 <= c < categories().len() && 0 <= i < categories()[c].1.len()
                ==> interface_places().dom().contains(#[trigger] categories()[c].1[i].id@)
                && interface_places()[categories()[c].1[i].id@] == (c, i),
{
    lemma_interface_places_0();
    lemma_interface_places_1();
    lemma_interface_places_2();
    lemma_interface_places_3();
    lemma_interface_places_4();
    lemma_interface_places_5();
    lemma_interface_places_6();
    lemma_interface_places_7();
    assert forall|c: int, i: int|
        0 <= c < categories().len() && 0 <= i < categories()[c].1.len() implies interface_places().dom().contains(
            #[trigger] categories()[c].1[i].id@,
        ) && interface_places()[categories()[c].1[i].id@] == (c, i) by {
        if c == 0 {} else if c == 1 {} else if c == 2 {} else if c == 3 {} else if c == 4 {} else if c == 5 {} else if c == 6 {} else {}
    }
}

/// The options that `get_all_sections` lists have pairwise distinct
/// identifiers, across all categories, and every one of them has a command in
/// the registry that `CommandRegistry::new` builds.
pub proof fn lemma_interface_ids_unique_and_registered()
    ensures
        forall|c1: int, i: int, c2: int, j: int|
            0 <= c1 < categories().len() && 0 <= c2 < categories().len() && 0 <= i
                < categories()[c1].1.len() && 0 <= j < categories()[c2].1.len() && (c1 != c2 || i
                != j) ==> #[trigger] categories()[c1].1[i].id@ != #[trigger] categories()[c2].1[j].id@,
        forall|c: int, i: int|
            0 <= c < categories().len() && 0 <= i < categories()[c].1.len()
                ==> default_commands().dom().contains(#[trigger] categories()[c].1[i].id@),
{
    lemma_interface_places();
    lemma_every_option_has_a_command();
    assert forall|c: int, i: int|
        0 <= c < categories().len() && 0 <= i < categories()[c].1.len() implies default_commands().dom().contains(
            #[trigger] categories()[c].1[i].id@,
        ) by {
        assert(all_registered(categories()[c].1));
    }
}

/// The sections of the catalogue, as the guided interface shows them on a
/// laptop (`is_laptop`) or a desktop.
pub open spec fn catalogue(is_laptop: bool) -> Seq<Seq<OptItem>> {
    seq![
        telemetry_options(),
        privacy_options(),
        performance_options(is_laptop),
        scheduler_options(),
        appx_options(),
        cpu_options(is_laptop),
        dpc_options(),
        security_options(),
        network_advanced_options(),
        dns_options(),
        audit_options(),
        settings_options(),
        cleanup_options(),
    ]
}

/// Where each identifier of the laptop catalogue stands: its section and its index there.
spec fn laptop_places() -> Map<Seq<char>, (int, int)> {
    map![
        "diagtrack"@ => (0int, 0int),
        "dmwappush"@ => (0int, 1int),
        "wersvc"@ => (0int, 2int),
        "wercplsupport"@ => (0int, 3int),
        "pcasvc"@ => (0int, 4int),
        "wdisystem"@ => (0int, 5int),
        "wdiservice"@ => (0int, 6int),
        "lfsvc"@ => (0int, 7int),
        "mapsbroker"@ => (0int, 8int),
        "firewall"@ => (0int, 9int),
        "sched_tasks"@ => (0int, 10int),
        "hosts"@ => (0int, 11int),
        "onedrive"@ => (0int, 12int),
        "telemetry_level"@ => (1int, 0int),
        "advertising_id"@ => (1int, 1int),
        "location"@ => (1int, 2int),
        "activity_history"@ => (1int, 3int),
        "cortana"@ => (1int, 4int),
        "context_menu"@ => (1int, 5int),
        "widgets"@ => (1int, 6int),
        "pause_updates"@ => (1int, 7int),
        "driver_updates"@ => (1int, 8int),
        "recall"@ => (1int, 9int),
        "group_policy_telem"@ => (1int, 10int),
        "timer"@ => (2int, 0int),
        "power_ultimate"@ => (2int, 1int),
        "power_high"@ => (2int, 2int),
        "cpu_throttle"@ => (2int, 3int),
        "usb_suspend"@ => (2int, 4int),
        "msi"@ => (2int, 5int),
        "sysmain"@ => (2int, 6int),
        "wsearch"@ => (2int, 7int),
        "edge_disable"@ => (2int, 8int),
        "explorer_tweaks"@ => (2int, 9int),
        "game_bar"@ => (2int, 10int),
        "fullscreen_opt"@ => (2int, 11int),
        "hags"@ => (2int, 12int),
        "nagle"@ => (2int, 13int),
        "power_throttle"@ => (2int, 14int),
        "enable_game_mode"@ => (2int, 15int),
        "prerendered_frames"@ => (2int, 16int),
        "vrr_opt"@ => (2int, 17int),
        "shader_cache"@ => (2int, 18int),
        "priority_sep"@ => (3int, 0int),
        "mmcss"@ => (3int, 1int),
        "games_priority"@ => (3int, 2int),
        "global_timer"@ => (3int, 3int),
        "startup_delay"@ => (3int, 4int),
        "shutdown_timeout"@ => (3int, 5int),
        "bing_apps"@ => (4int, 0int),
        "ms_productivity"@ => (4int, 1int),
        "ms_media"@ => (4int, 2int),
        "ms_communication"@ => (4int, 3int),
        "ms_legacy"@ => (4int, 4int),
        "ms_tools"@ => (4int, 5int),
        "third_party"@ => (4int, 6int),
        "copilot"@ => (4int, 7int),
        "cortana_app"@ => (4int, 8int),
        "xbox"@ => (4int, 9int),
        "core_parking"@ => (5int, 0int),
        "memory_compression"@ => (5int, 1int),
        "superfetch_registry"@ => (5int, 2int),
        "static_pagefile"@ => (5int, 3int),
        "paging_executive"@ => (6int, 0int),
        "dynamic_tick"@ => (6int, 1int),
        "tsc_sync"@ => (6int, 2int),
        "hpet"@ => (6int, 3int),
        "interrupt_affinity"@ => (6int, 4int),
        "hvci"@ => (7int, 0int),
        "vbs"@ => (7int, 1int),
        "spectre"@ => (7int, 2int),
        "defender_realtime"@ => (7int, 3int),
        "uac_level"@ => (7int, 4int),
        "firewall_status"@ => (7int, 5int),
        "smartscreen"@ => (7int, 6int),
        "interrupt_moderation"@ => (8int, 0int),
        "lso"@ => (8int, 1int),
        "eee"@ => (8int, 2int),
        "rss"@ => (8int, 3int),
        "rsc"@ => (8int, 4int),
        "doh_cloudflare"@ => (9int, 0int),
        "doh_google"@ => (9int, 1int),
        "doh_quad9"@ => (9int, 2int),
        "dns_flush"@ => (9int, 3int),
        "audit_hardware"@ => (10int, 0int),
        "audit_security"@ => (10int, 1int),
        "audit_services"@ => (10int, 2int),
        "audit_network"@ => (10int, 3int),
        "audit_software"@ => (10int, 4int),
        "ui_theme_minimal"@ => (11int, 0int),
        "ui_theme_classic"@ => (11int, 1int),
        "ui_animations"@ => (11int, 2int),
        "sys_auto_elevate"@ => (11int, 3int),
        "sys_log_level"@ => (11int, 4int),
        "cleanup_temp"@ => (12int, 0int),
        "cleanup_winsxs"@ => (12int, 1int),
        "cleanup_edge"@ => (12int, 2int),
    ]
}

/// The length of each identifier of the laptop catalogue, and enough of its characters to tell it from the others.
proof fn lemma_laptop_id_text()
    ensures
        "diagtrack"@.len() == 9,
        "diagtrack"@[2] == 'a',
        "dmwappush"@.len() == 9,
        "dmwappush"@[2] == 'w',
        "wersvc"@.len() == 6,
        "wersvc"@[0] == 'w',
        "wercplsupport"@.len() == 13,
        "wercplsupport"@[1] == 'e',
        "pcasvc"@.len() == 6,
        "pcasvc"@[0] == 'p',
        "wdisystem"@.len() == 9,
        "wdisystem"@[2] == 'i',
        "wdiservice"@.len() == 10,
        "wdiservice"@[0] == 'w',
        "lfsvc"@.len() == 5,
        "lfsvc"@[0] == 'l',
        "mapsbroker"@.len() == 10,
        "mapsbroker"@[0] == 'm',
        "firewall"@.len() == 8,
        "firewall"@[4] == 'w',
        "sched_tasks"@.len() == 11,
        "sched_tasks"@[1] == 'c',
        "hosts"@.len() == 5,
        "hosts"@[0] == 'h',
        "onedrive"@.len() == 8,
        "onedrive"@[4] == 'r',
        "telemetry_level"@.len() == 15,
        "telemetry_level"@[0] == 't',
        "advertising_id"@.len() == 14,
        "advertising_id"@[10] == 'g',
        "advertising_id"@[6] == 'i',
        "location"@.len() == 8,
        "location"@[4] == 't',
        "activity_history"@.len() == 16,
        "activity_history"@[14] == 'r',
        "cortana"@.len() == 7,
        "cortana"@[3] == 't',
        "context_menu"@.len() == 12,
        "context_menu"@[2] == 'n',
        "context_menu"@[8] == 'm',
        "widgets"@.len() == 7,
        "widgets"@[3] == 'g',
        "pause_updates"@.len() == 13,
        "pause_updates"@[1] == 'a',
        "driver_updates"@.len() == 14,
        "driver_updates"@[10] == 'a',
        "driver_updates"@[6] == '_',
        "recall"@.len() == 6,
        "recall"@[0] == 'r',
        "group_policy_telem"@.len() == 18,
        "group_policy_telem"@[0] == 'g',
        "timer"@.len() == 5,
        "timer"@[0] == 't',
        "power_ultimate"@.len() == 14,
        "power_ultimate"@[10] == 'm',
        "power_ultimate"@[6] == 'u',
        "power_high"@.len() == 10,
        "power_high"@[0] == 'p',
        "cpu_throttle"@.len() == 12,
        "cpu_throttle"@[2] == 'u',
        "cpu_throttle"@[8] == 't',
        "usb_suspend"@.len() == 11,
        "usb_suspend"@[1] == 's',
        "msi"@.len() == 3,
        "msi"@[0] == 'm',
        "msi"@[2] == 'i',
        "sysmain"@.len() == 7,
        "sysmain"@[3] == 'm',
        "wsearch"@.len() == 7,
        "wsearch"@[3] == 'a',
        "edge_disable"@.len() == 12,
        "edge_disable"@[2] == 'g',
        "edge_disable"@[8] == 'a',
        "explorer_tweaks"@.len() == 15,
        "explorer_tweaks"@[0] == 'e',
        "game_bar"@.len() == 8,
        "game_bar"@[4] == '_',
        "fullscreen_opt"@.len() == 14,
        "fullscreen_opt"@[10] == '_',
        "fullscreen_opt"@[6] == 'r',
        "hags"@.len() == 4,
        "hags"@[1] == 'a',
        "nagle"@.len() == 5,
        "nagle"@[0] == 'n',
        "power_throttle"@.len() == 14,
        "power_throttle"@[10] == 't',
        "power_throttle"@[6] == 't',
        "enable_game_mode"@.len() == 16,
        "enable_game_mode"@[14] == 'd',
        "prerendered_frames"@.len() == 18,
        "prerendered_frames"@[0] == 'p',
        "vrr_opt"@.len() == 7,
        "vrr_opt"@[3] == '_',
        "shader_cache"@.len() == 12,
        "shader_cache"@[2] == 'a',
        "shader_cache"@[8] == 'a',
        "priority_sep"@.len() == 12,
        "priority_sep"@[2] == 'i',
        "priority_sep"@[8] == '_',
        "mmcss"@.len() == 5,
        "mmcss"@[0] == 'm',
        "games_priority"@.len() == 14,
        "games_priority"@[10] == 'r',
        "games_priority"@[6] == 'p',
        "global_timer"@.len() == 12,
        "global_timer"@[2] == 'o',
        "global_timer"@[8] == 'i',
        "startup_delay"@.len() == 13,
        "startup_delay"@[1] == 't',
        "shutdown_timeout"@.len() == 16,
        "shutdown_timeout"@[14] == 'u',
        "bing_apps"@.len() == 9,
        "bing_apps"@[2] == 'n',
        "ms_productivity"@.len() == 15,
        "ms_productivity"@[0] == 'm',
        "ms_media"@.len() == 8,
        "ms_media"@[4] == 'e',
        "ms_communication"@.len() == 16,
        "ms_communication"@[14] == 'o',
        "ms_legacy"@.len() == 9,
        "ms_legacy"@[2] == '_',
        "ms_tools"@.len() == 8,
        "ms_tools"@[4] == 'o',
        "third_party"@.len() == 11,
        "third_party"@[1] == 'h',
        "copilot"@.len() == 7,
        "copilot"@[3] == 'i',
        "cortana_app"@.len() == 11,
        "cortana_app"@[1] == 'o',
        "xbox"@.len() == 4,
        "xbox"@[1] == 'b',
        "core_parking"@.len() == 12,
        "core_parking"@[2] == 'r',
        "core_parking"@[8] == 'k',
        "memory_compression"@.len() == 18,
        "memory_compression"@[0] == 'm',
        "superfetch_registry"@.len() == 19,
        "static_pagefile"@.len() == 15,
        "static_pagefile"@[0] == 's',
        "paging_executive"@.len() == 16,
        "paging_executive"@[14] == 'v',
        "dynamic_tick"@.len() == 12,
        "dynamic_tick"@[2] == 'n',
        "dynamic_tick"@[8] == 't',
        "tsc_sync"@.len() == 8,
        "tsc_sync"@[4] == 's',
        "hpet"@.len() == 4,
        "hpet"@[1] == 'p',
        "interrupt_affinity"@.len() == 18,
        "interrupt_affinity"@[0] == 'i',
        "hvci"@.len() == 4,
        "hvci"@[1] == 'v',
        "vbs"@.len() == 3,
        "vbs"@[0] == 'v',
        "vbs"@[2] == 's',
        "spectre"@.len() == 7,
        "spectre"@[3] == 'c',
        "defender_realtime"@.len() == 17,
        "uac_level"@.len() == 9,
        "uac_level"@[2] == 'c',
        "firewall_status"@.len() == 15,
        "firewall_status"@[0] == 'f',
        "smartscreen"@.len() == 11,
        "smartscreen"@[1] == 'm',
        "interrupt_moderation"@.len() == 20,
        "lso"@.len() == 3,
        "lso"@[0] == 'l',
        "lso"@[2] == 'o',
        "eee"@.len() == 3,
        "eee"@[0] == 'e',
        "eee"@[2] == 'e',
        "rss"@.len() == 3,
        "rss"@[0] == 'r',
        "rss"@[2] == 's',
        "rsc"@.len() == 3,
        "rsc"@[0] == 'r',
        "rsc"@[2] == 'c',
        "doh_cloudflare"@.len() == 14,
        "doh_cloudflare"@[10] == 'l',
        "doh_cloudflare"@[6] == 'o',
        "doh_google"@.len() == 10,
        "doh_google"@[0] == 'd',
        "doh_quad9"@.len() == 9,
        "doh_quad9"@[2] == 'h',
        "dns_flush"@.len() == 9,
        "dns_flush"@[2] == 's',
        "audit_hardware"@.len() == 14,
        "audit_hardware"@[10] == 'w',
        "audit_hardware"@[6] == 'h',
        "audit_security"@.len() == 14,
        "audit_security"@[10] == 'r',
        "audit_security"@[6] == 's',
        "audit_services"@.len() == 14,
        "audit_services"@[10] == 'i',
        "audit_services"@[6] == 's',
        "audit_network"@.len() == 13,
        "audit_network"@[1] == 'u',
        "audit_software"@.len() == 14,
        "audit_software"@[10] == 'w',
        "audit_software"@[6] == 's',
        "ui_theme_minimal"@.len() == 16,
        "ui_theme_minimal"@[14] == 'a',
        "ui_theme_classic"@.len() == 16,
        "ui_theme_classic"@[14] == 'i',
        "ui_animations"@.len() == 13,
        "ui_animations"@[1] == 'i',
        "sys_auto_elevate"@.len() == 16,
        "sys_auto_elevate"@[14] == 't',
        "sys_log_level"@.len() == 13,
        "sys_log_level"@[1] == 'y',
        "cleanup_temp"@.len() == 12,
        "cleanup_temp"@[2] == 'e',
        "cleanup_temp"@[8] == 't',
        "cleanup_winsxs"@.len() == 14,
        "cleanup_winsxs"@[10] == 'n',
        "cleanup_winsxs"@[6] == 'p',
        "cleanup_edge"@.len() == 12,
        "cleanup_edge"@[2] == 'e',
        "cleanup_edge"@[8] == 'e',
{
    reveal_strlit("diagtrack");
    reveal_strlit("dmwappush");
    reveal_strlit("wersvc");
    reveal_strlit("wercplsupport");
    reveal_strlit("pcasvc");
    reveal_strlit("wdisystem");
    reveal_strlit("wdiservice");
    reveal_strlit("lfsvc");
    reveal_strlit("mapsbroker");
    reveal_strlit("firewall");
    reveal_strlit("sched_tasks");
    reveal_strlit("hosts");
    reveal_strlit("onedrive");
    reveal_strlit("telemetry_level");
    reveal_strlit("advertising_id");
    reveal_strlit("location");
    reveal_strlit("activity_history");
    reveal_strlit("cortana");
    reveal_strlit("context_menu");
    reveal_strlit("widgets");
    reveal_strlit("pause_updates");
    reveal_strlit("driver_updates");
    reveal_strlit("recall");
    reveal_strlit("group_policy_telem");
    reveal_strlit("timer");
    reveal_strlit("power_ultimate");
    reveal_strlit("power_high");
    reveal_strlit("cpu_throttle");
    reveal_strlit("usb_suspend");
    reveal_strlit("msi");
    reveal_strlit("sysmain");
    reveal_strlit("wsearch");
    reveal_strlit("edge_disable");
    reveal_strlit("explorer_tweaks");
    reveal_strlit("game_bar");
    reveal_strlit("fullscreen_opt");
    reveal_strlit("hags");
    reveal_strlit("nagle");
    reveal_strlit("power_throttle");
    reveal_strlit("enable_game_mode");
    reveal_strlit("prerendered_frames");
    reveal_strlit("vrr_opt");
    reveal_strlit("shader_cache");
    reveal_strlit("priority_sep");
    reveal_strlit("mmcss");
    reveal_strlit("games_priority");
    reveal_strlit("global_timer");
    reveal_strlit("startup_delay");
    reveal_strlit("shutdown_timeout");
    reveal_strlit("bing_apps");
    reveal_strlit("ms_productivity");
    reveal_strlit("ms_media");
    reveal_strlit("ms_communication");
    reveal_strlit("ms_legacy");
    reveal_strlit("ms_tools");
    reveal_strlit("third_party");
    reveal_strlit("copilot");
    reveal_strlit("cortana_app");
    reveal_strlit("xbox");
    reveal_strlit("core_parking");
    reveal_strlit("memory_compression");
    reveal_strlit("superfetch_registry");
    reveal_strlit("static_pagefile");
    reveal_strlit("paging_executive");
    reveal_strlit("dynamic_tick");
    reveal_strlit("tsc_sync");
    reveal_strlit("hpet");
    reveal_strlit("interrupt_affinity");
    reveal_strlit("hvci");
    reveal_strlit("vbs");
    reveal_strlit("spectre");
    reveal_strlit("defender_realtime");
    reveal_strlit("uac_level");
    reveal_strlit("firewall_status");
    reveal_strlit("smartscreen");
    reveal_strlit("interrupt_moderation");
    reveal_strlit("lso");
    reveal_strlit("eee");
    reveal_strlit("rss");
    reveal_strlit("rsc");
    reveal_strlit("doh_cloudflare");
    reveal_strlit("doh_google");
    reveal_strlit("doh_quad9");
    reveal_strlit("dns_flush");
    reveal_strlit("audit_hardware");
    reveal_strlit("audit_security");
    reveal_strlit("audit_services");
    reveal_strlit("audit_network");
    reveal_strlit("audit_software");
    reveal_strlit("ui_theme_minimal");
    reveal_strlit("ui_theme_classic");
    reveal_strlit("ui_animations");
    reveal_strlit("sys_auto_elevate");
    reveal_strlit("sys_log_level");
    reveal_strlit("cleanup_temp");
    reveal_strlit("cleanup_winsxs");
    reveal_strlit("cleanup_edge");
}

/// The options of section 0 of the laptop catalogue stand where `laptop_places` puts them.
#[verifier::rlimit(50)]
proof fn lemma_laptop_places_0()
    ensures
        forall|i: int|
            0 <= i < catalogue(true)[0].len() ==> laptop_places().dom().contains(
                #[trigger] catalogue(true)[0][i].id@,
            ) && laptop_places()[catalogue(true)[0][i].id@] == (0int, i),
{
    lemma_laptop_id_text();
    assert forall|i: int| 0 <= i < catalogue(true)[0].len() implies laptop_places().dom().contains(
        #[trigger] catalogue(true)[0][i].id@,
    ) && laptop_places()[catalogue(true)[0][i].id@] == (0int, i) by {
        if i == 0 {} else if i == 1 {} else if i == 2 {} else if i == 3 {} else if i == 4 {} else if i == 5 {} else if i == 6 {} else if i == 7 {} else if i == 8 {} else if i == 9 {} else if i == 10 {} else if i == 11 {} else {}
    }
}

/// The options of section 1 of the laptop catalogue stand where `laptop_places` puts them.
#[verifier::rlimit(50)]
proof fn lemma_laptop_places_1()
    ensures
        forall|i: int|
            0 <= i < catalogue(true)[1].len() ==> laptop_places().dom().contains(
                #[trigger] catalogue(true)[1][i].id@,
            ) && laptop_places()[catalogue(true)[1][i].id@] == (1int, i),
{
    lemma_laptop_id_text();
    assert forall|i: int| 0 <= i < catalogue(true)[1].len() implies laptop_places().dom().contains(
        #[trigger] catalogue(true)[1][i].id@,
    ) && laptop_places()[catalogue(true)[1][i].id@] == (1int, i) by {
        if i == 0 {} else if i == 1 {} else if i == 2 {} else if i == 3 {} else if i == 4 {} else if i == 5 {} else if i == 6 {} else if i == 7 {} else if i == 8 {} else if i == 9 {} else {}
    }
}

/// The options of section 2 of the laptop catalogue stand where `laptop_places` puts them.
#[verifier::rlimit(50)]
proof fn lemma_laptop_places_2()
    ensures
        forall|i: int|
            0 <= i < catalogue(true)[2].len() ==> laptop_places().dom().contains(
                #[trigger] catalogue(true)[2][i].id@,
            ) && laptop_places()[catalogue(true)[2][i].id@] == (2int, i),
{
    lemma_laptop_id_text();
    assert forall|i: int| 0 <= i < catalogue(true)[2].len() implies laptop_places().dom().contains(
        #[trigger] catalogue(true)[2][i].id@,
    ) && laptop_places()[catalogue(true)[2][i].id@] == (2int, i) by {
        if i == 0 {} else if i == 1 {} else if i == 2 {} else if i == 3 {} else if i == 4 {} else if i == 5 {} else if i == 6 {} else if i == 7 {} else if i == 8 {} else if i == 9 {} else if i == 10 {} else if i == 11 {} else if i == 12 {} else if i == 13 {} else if i == 14 {} else if i == 15 {} else if i == 16 {} else if i == 17 {} else {}
    }
}

/// The options of section 3 of the laptop catalogue stand where `laptop_places` puts them.
#[verifier::rlimit(50)]
proof fn lemma_laptop_places_3()
    ensures
        forall|i: int|
            0 <= i < catalogue(true)[3].len() ==> laptop_places().dom().contains(
                #[trigger] catalogue(true)[3][i].id@,
            ) && laptop_places()[catalogue(true)[3][i].id@] == (3int, i),
{
    lemma_laptop_id_text();
    assert forall|i: int| 0 <= i < catalogue(true)[3].len() implies laptop_places().dom().contains(
        #[trigger] catalogue(true)[3][i].id@,
    ) && laptop_places()[catalogue(true)[3][i].id@] == (3int, i) by {
        if i == 0 {} else if i == 1 {} else if i == 2 {} else if i == 3 {} else if i == 4 {} else {}
    }
}

/// The options of section 4 of the laptop catalogue stand where `laptop_places` puts them.
#[verifier::rlimit(50)]
proof fn lemma_laptop_places_4()
    ensures
        forall|i: int|
            0 <= i < catalogue(true)[4].len() ==> laptop_places().dom().contains(
                #[trigger] catalogue(true)[4][i].id@,
            ) && laptop_places()[catalogue(true)[4][i].id@] == (4int, i),
{
    lemma_laptop_id_text();
    assert forall|i: int| 0 <= i < catalogue(true)[4].len() implies laptop_places().dom().contains(
        #[trigger] catalogue(true)[4][i].id@,
    ) && laptop_places()[catalogue(true)[4][i].id@] == (4int, i) by {
        if i == 0 {} else if i == 1 {} else if i == 2 {} else if i == 3 {} else if i == 4 {} else if i == 5 {} else if i == 6 {} else if i == 7 {} else if i == 8 {} else {}
    }
}

/// The options of section 5 of the laptop catalogue stand where `laptop_places` puts them.
#[verifier::rlimit(50)]
proof fn lemma_laptop_places_5()
    ensures
        forall|i: int|
            0 <= i < catalogue(true)[5].len() ==> laptop_places().dom().contains(
                #[trigger] catalogue(true)[5][i].id@,
            ) && laptop_places()[catalogue(true)[5][i].id@] == (5int, i),
{
    lemma_laptop_id_text();
    assert forall|i: int| 0 <= i < catalogue(true)[5].len() implies laptop_places().dom().contains(
        #[trigger] catalogue(true)[5][i].id@,
    ) && laptop_places()[catalogue(true)[5][i].id@] == (5int, i) by {
        if i == 0 {} else if i == 1 {} else if i == 2 {} else {}
    }
}

/// The options of section 6 of the laptop catalogue stand where `laptop_places` puts them.
#[verifier::rlimit(50)]
proof fn lemma_laptop_places_6()
    ensures
        forall|i: int|
            0 <= i < catalogue(true)[6].len() ==> laptop_places().dom().contains(
                #[trigger] catalogue(true)[6][i].id@,
            ) && laptop_places()[catalogue(true)[6][i].id@] == (6int, i),
{
    lemma_laptop_id_text();
    assert forall|i: int| 0 <= i < catalogue(true)[6].len() implies laptop_places().dom().contains(
        #[trigger] catalogue(true)[6][i].id@,
    ) && laptop_places()[catalogue(true)[6][i].id@] == (6int, i) by {
        if i == 0 {} else if i == 1 {} else if i == 2 {} else if i == 3 {} else {}
    }
}

/// The options of section 7 of the laptop catalogue stand where `laptop_places` puts them.
#[verifier::rlimit(50)]
proof fn lemma_laptop_places_7()
    ensures
        forall|i: int|
            0 <= i < catalogue(true)[7].len() ==> laptop_places().dom().contains(
                #[trigger] catalogue(true)[7][i].id@,
            ) && laptop_places()[catalogue(true)[7][i].id@] == (7int, i),
{
    lemma_laptop_id_text();
    assert forall|i: int| 0 <= i < catalogue(true)[7].len() implies laptop_places().dom().contains(
        #[trigger] catalogue(true)[7][i].id@,
    ) && laptop_places()[catalogue(true)[7][i].id@] == (7int, i) by {
        if i == 0 {} else if i == 1 {} else if i == 2 {} else if i == 3 {} else if i == 4 {} else if i == 5 {} else {}
    }
}

/// The options of section 8 of the laptop catalogue stand where `laptop_places` puts them.
#[verifier::rlimit(50)]
proof fn lemma_laptop_places_8()
    ensures
        forall|i: int|
            0 <= i < catalogue(true)[8].len() ==> laptop_places().dom().contains(
                #[trigger] catalogue(true)[8][i].id@,
            ) && laptop_places()[catalogue(true)[8][i].id@] == (8int, i),
{
    lemma_laptop_id_text();
    assert forall|i: int| 0 <= i < catalogue(true)[8].len() implies laptop_places().dom().contains(
        #[trigger] catalogue(true)[8][i].id@,
    ) && laptop_places()[catalogue(true)[8][i].id@] == (8int, i) by {
        if i == 0 {} else if i == 1 {} else if i == 2 {} else if i == 3 {} else {}
    }
}

/// The options of section 9 of the laptop catalogue stand where `laptop_places` puts them.
#[verifier::rlimit(50)]
proof fn lemma_laptop_places_9()
    ensures
        forall|i: int|
            0 <= i < catalogue(true)[9].len() ==> laptop_places().dom().contains(
                #[trigger] catalogue(true)[9][i].id@,
            ) && laptop_places()[catalogue(true)[9][i].id@] == (9int, i),
{
    lemma_laptop_id_text();
    assert forall|i: int| 0 <= i < catalogue(true)[9].len() implies laptop_places().dom().contains(
        #[trigger] catalogue(true)[9][i].id@,
    ) && laptop_places()[catalogue(true)[9][i].id@] == (9int, i) by {
        if i == 0 {} else if i == 1 {} else if i == 2 {} else {}
    }
}

/// The options of section 10 of the laptop catalogue stand where `laptop_places` puts them.
#[verifier::rlimit(50)]
proof fn lemma_laptop_places_10()
    ensures
        forall|i: int|
            0 <= i < catalogue(true)[10].len() ==> laptop_places().dom().contains(
                #[trigger] catalogue(true)[10][i].id@,
            ) && laptop_places()[catalogue(true)[10][i].id@] == (10int, i),
{
    lemma_laptop_id_text();
    assert forall|i: int| 0 <= i < catalogue(true)[10].len() implies laptop_places().dom().contains(
        #[trigger] catalogue(true)[10][i].id@,
    ) && laptop_places()[catalogue(true)[10][i].id@] == (10int, i) by {
        if i == 0 {} else if i == 1 {} else if i == 2 {} else if i == 3 {} else {}
    }
}

/// The options of section 11 of the laptop catalogue stand where `laptop_places` puts them.
#[verifier::rlimit(50)]
proof fn lemma_laptop_places_11()
    ensures
        forall|i: int|
            0 <= i < catalogue(true)[11].len() ==> laptop_places().dom().contains(
                #[trigger] catalogue(true)[11][i].id@,
            ) && laptop_places()[catalogue(true)[11][i].id@] == (11int, i),
{
    lemma_laptop_id_text();
    assert forall|i: int| 0 <= i < catalogue(true)[11].len() implies laptop_places().dom().contains(
        #[trigger] catalogue(true)[11][i].id@,
    ) && laptop_places()[catalogue(true)[11][i].id@] == (11int, i) by {
        if i == 0 {} else if i == 1 {} else if i == 2 {} else if i == 3 {} else {}
    }
}

/// The options of section 12 of the laptop catalogue stand where `laptop_places` puts them.
#[verifier::rlimit(50)]
proof fn lemma_laptop_places_12()
    ensures
        forall|i: int|
            0 <= i < catalogue(true)[12].len() ==> laptop_places().dom().contains(
                #[trigger] catalogue(true)[12][i].id@,
            ) && laptop_places()[catalogue(true)[12][i].id@] == (12int, i),
{
    lemma_laptop_id_text();
    assert forall|i: int| 0 <= i < catalogue(true)[12].len() implies laptop_places().dom().contains(
        #[trigger] catalogue(true)[12][i].id@,
    ) && laptop_places()[catalogue(true)[12][i].id@] == (12int, i) by {
        if i == 0 {} else if i == 1 {} else {}
    }
}

/// Each option of the laptop catalogue stands where `laptop_places` puts it.
proof fn lemma_laptop_places()
    ensures
        forall|s: int, i: int|
            0 <= s < catalogue(true).len() && 0 <= i < catalogue(true)[s].len()
                ==> laptop_places().dom().contains(#[trigger] catalogue(true)[s][i].id@)
                && laptop_places()[catalogue(true)[s][i].id@] == (s, i),
{
    lemma_laptop_places_0();
    lemma_laptop_places_1();
    lemma_laptop_places_2();
    lemma_laptop_places_3();
    lemma_laptop_places_4();
    lemma_laptop_places_5();
    lemma_laptop_places_6();
    lemma_laptop_places_7();
    lemma_laptop_places_8();
    lemma_laptop_places_9();
    lemma_laptop_places_10();
    lemma_laptop_places_11();
    lemma_laptop_places_12();
    assert forall|s: int, i: int|
        0 <= s < catalogue(true).len() && 0 <= i < catalogue(true)[s].len() implies laptop_places().dom().contains(
            #[trigger] catalogue(true)[s][i].id@,
        ) && laptop_places()[catalogue(true)[s][i].id@] == (s, i) by {
        if s == 0 {} else if s == 1 {} else if s == 2 {} else if s == 3 {} else if s == 4 {} else if s == 5 {} else if s == 6 {} else if s == 7 {} else if s == 8 {} else if s == 9 {} else if s == 10 {} else if s == 11 {} else {}
    }
}

/// Where each identifier of the desktop catalogue stands: its section and its index there.
spec fn desktop_places() -> Map<Seq<char>, (int, int)> {
    map![
        "diagtrack"@ => (0int, 0int),
        "dmwappush"@ => (0int, 1int),
        "wersvc"@ => (0int, 2int),
        "wercplsupport"@ => (0int, 3int),
        "pcasvc"@ => (0int, 4int),
        "wdisystem"@ => (0int, 5int),
        "wdiservice"@ => (0int, 6int),
        "lfsvc"@ => (0int, 7int),
        "mapsbroker"@ => (0int, 8int),
        "firewall"@ => (0int, 9int),
        "sched_tasks"@ => (0int, 10int),
        "hosts"@ => (0int, 11int),
        "onedrive"@ => (0int, 12int),
        "telemetry_level"@ => (1int, 0int),
        "advertising_id"@ => (1int, 1int),
        "location"@ => (1int, 2int),
        "activity_history"@ => (1int, 3int),
        "cortana"@ => (1int, 4int),
        "context_menu"@ => (1int, 5int),
        "widgets"@ => (1int, 6int),
        "pause_updates"@ => (1int, 7int),
        "driver_updates"@ => (1int, 8int),
        "recall"@ => (1int, 9int),
        "group_policy_telem"@ => (1int, 10int),
        "timer"@ => (2int, 0int),
        "power_ultimate"@ => (2int, 1int),
        "cpu_throttle"@ => (2int, 2int),
        "usb_suspend"@ => (2int, 3int),
        "msi"@ => (2int, 4int),
        "sysmain"@ => (2int, 5int),
        "wsearch"@ => (2int, 6int),
        "edge_disable"@ => (2int, 7int),
        "explorer_tweaks"@ => (2int, 8int),
        "game_bar"@ => (2int, 9int),
        "fullscreen_opt"@ => (2int, 10int),
        "hags"@ => (2int, 11int),
        "nagle"@ => (2int, 12int),
        "power_throttle"@ => (2int, 13int),
        "enable_game_mode"@ => (2int, 14int),
        "prerendered_frames"@ => (2int, 15int),
        "vrr_opt"@ => (2int, 16int),
        "shader_cache"@ => (2int, 17int),
        "priority_sep"@ => (3int, 0int),
        "mmcss"@ => (3int, 1int),
        "games_priority"@ => (3int, 2int),
        "global_timer"@ => (3int, 3int),
        "startup_delay"@ => (3int, 4int),
        "shutdown_timeout"@ => (3int, 5int),
        "bing_apps"@ => (4int, 0int),
        "ms_productivity"@ => (4int, 1int),
        "ms_media"@ => (4int, 2int),
        "ms_communication"@ => (4int, 3int),
        "ms_legacy"@ => (4int, 4int),
        "ms_tools"@ => (4int, 5int),
        "third_party"@ => (4int, 6int),
        "copilot"@ => (4int, 7int),
        "cortana_app"@ => (4int, 8int),
        "xbox"@ => (4int, 9int),
        "core_parking"@ => (5int, 0int),
        "memory_compression"@ => (5int, 1int),
        "superfetch_registry"@ => (5int, 2int),
        "static_pagefile"@ => (5int, 3int),
        "paging_executive"@ => (6int, 0int),
        "dynamic_tick"@ => (6int, 1int),
        "tsc_sync"@ => (6int, 2int),
        "hpet"@ => (6int, 3int),
        "interrupt_affinity"@ => (6int, 4int),
        "hvci"@ => (7int, 0int),
        "vbs"@ => (7int, 1int),
        "spectre"@ => (7int, 2int),
        "defender_realtime"@ => (7int, 3int),
        "uac_level"@ => (7int, 4int),
        "firewall_status"@ => (7int, 5int),
        "smartscreen"@ => (7int, 6int),
        "interrupt_moderation"@ => (8int, 0int),
        "lso"@ => (8int, 1int),
        "eee"@ => (8int, 2int),
        "rss"@ => (8int, 3int),
        "rsc"@ => (8int, 4int),
        "doh_cloudflare"@ => (9int, 0int),
        "doh_google"@ => (9int, 1int),
        "doh_quad9"@ => (9int, 2int),
        "dns_flush"@ => (9int, 3int),
        "audit_hardware"@ => (10int, 0int),
        "audit_security"@ => (10int, 1int),
        "audit_services"@ => (10int, 2int),
        "audit_network"@ => (10int, 3int),
        "audit_software"@ => (10int, 4int),
        "ui_theme_minimal"@ => (11int, 0int),
        "ui_theme_classic"@ => (11int, 1int),
        "ui_animations"@ => (11int, 2int),
        "sys_auto_elevate"@ => (11int, 3int),
        "sys_log_level"@ => (11int, 4int),
        "cleanup_temp"@ => (12int, 0int),
        "cleanup_winsxs"@ => (12int, 1int),
        "cleanup_edge"@ => (12int, 2int),
    ]
}

/// The length of each identifier of the desktop catalogue, and enough of its characters to tell it from the others.
proof fn lemma_desktop_id_text()
    ensures
        "diagtrack"@.len() == 9,
        "diagtrack"@[2] == 'a',
        "dmwappush"@.len() == 9,
        "dmwappush"@[2] == 'w',
        "wersvc"@.len() == 6,
        "wersvc"@[0] == 'w',
        "wercplsupport"@.len() == 13,
        "wercplsupport"@[1] == 'e',
        "pcasvc"@.len() == 6,
        "pcasvc"@[0] == 'p',
        "wdisystem"@.len() == 9,
        "wdisystem"@[2] == 'i',
        "wdiservice"@.len() == 10,
        "wdiservice"@[0] == 'w',
        "lfsvc"@.len() == 5,
        "lfsvc"@[0] == 'l',
        "mapsbroker"@.len() == 10,
        "mapsbroker"@[0] == 'm',
        "firewall"@.len() == 8,
        "firewall"@[4] == 'w',
        "sched_tasks"@.len() == 11,
        "sched_tasks"@[1] == 'c',
        "hosts"@.len() == 5,
        "hosts"@[0] == 'h',
        "onedrive"@.len() == 8,
        "onedrive"@[4] == 'r',
        "telemetry_level"@.len() == 15,
        "telemetry_level"@[0] == 't',
        "advertising_id"@.len() == 14,
        "advertising_id"@[10] == 'g',
        "advertising_id"@[6] == 'i',
        "location"@.len() == 8,
        "location"@[4] == 't',
        "activity_history"@.len() == 16,
        "activity_history"@[14] == 'r',
        "cortana"@.len() == 7,
        "cortana"@[3] == 't',
        "context_menu"@.len() == 12,
        "context_menu"@[2] == 'n',
        "context_menu"@[8] == 'm',
        "widgets"@.len() == 7,
        "widgets"@[3] == 'g',
        "pause_updates"@.len() == 13,
        "pause_updates"@[1] == 'a',
        "driver_updates"@.len() == 14,
        "driver_updates"@[10] == 'a',
        "driver_updates"@[6] == '_',
        "recall"@.len() == 6,
        "recall"@[0] == 'r',
        "group_policy_telem"@.len() == 18,
        "group_policy_telem"@[0] == 'g',
        "timer"@.len() == 5,
        "timer"@[0] == 't',
        "power_ultimate"@.len() == 14,
        "power_ultimate"@[10] == 'm',
        "power_ultimate"@[6] == 'u',
        "cpu_throttle"@.len() == 12,
        "cpu_throttle"@[2] == 'u',
        "cpu_throttle"@[8] == 't',
        "usb_suspend"@.len() == 11,
        "usb_suspend"@[1] == 's',
        "msi"@.len() == 3,
        "msi"@[0] == 'm',
        "msi"@[2] == 'i',
        "sysmain"@.len() == 7,
        "sysmain"@[3] == 'm',
        "wsearch"@.len() == 7,
        "wsearch"@[3] == 'a',
        "edge_disable"@.len() == 12,
        "edge_disable"@[2] == 'g',
        "edge_disable"@[8] == 'a',
        "explorer_tweaks"@.len() == 15,
        "explorer_tweaks"@[0] == 'e',
        "game_bar"@.len() == 8,
        "game_bar"@[4] == '_',
        "fullscreen_opt"@.len() == 14,
        "fullscreen_opt"@[10] == '_',
        "fullscreen_opt"@[6] == 'r',
        "hags"@.len() == 4,
        "hags"@[1] == 'a',
        "nagle"@.len() == 5,
        "nagle"@[0] == 'n',
        "power_throttle"@.len() == 14,
        "power_throttle"@[10] == 't',
        "power_throttle"@[6] == 't',
        "enable_game_mode"@.len() == 16,
        "enable_game_mode"@[14] == 'd',
        "prerendered_frames"@.len() == 18,
        "prerendered_frames"@[0] == 'p',
        "vrr_opt"@.len() == 7,
        "vrr_opt"@[3] == '_',
        "shader_cache"@.len() == 12,
        "shader_cache"@[2] == 'a',
        "shader_cache"@[8] == 'a',
        "priority_sep"@.len() == 12,
        "priority_sep"@[2] == 'i',
        "priority_sep"@[8] == '_',
        "mmcss"@.len() == 5,
        "mmcss"@[0] == 'm',
        "games_priority"@.len() == 14,
        "games_priority"@[10] == 'r',
        "games_priority"@[6] == 'p',
        "global_timer"@.len() == 12,
        "global_timer"@[2] == 'o',
        "global_timer"@[8] == 'i',
        "startup_delay"@.len() == 13,
        "startup_delay"@[1] == 't',
        "shutdown_timeout"@.len() == 16,
        "shutdown_timeout"@[14] == 'u',
        "bing_apps"@.len() == 9,
        "bing_apps"@[2] == 'n',
        "ms_productivity"@.len() == 15,
        "ms_productivity"@[0] == 'm',
        "ms_media"@.len() == 8,
        "ms_media"@[4] == 'e',
        "ms_communication"@.len() == 16,
        "ms_communication"@[14] == 'o',
        "ms_legacy"@.len() == 9,
        "ms_legacy"@[2] == '_',
        "ms_tools"@.len() == 8,
        "ms_tools"@[4] == 'o',
        "third_party"@.len() == 11,
        "third_party"@[1] == 'h',
        "copilot"@.len() == 7,
        "copilot"@[3] == 'i',
        "cortana_app"@.len() == 11,
        "cortana_app"@[1] == 'o',
        "xbox"@.len() == 4,
        "xbox"@[1] == 'b',
        "core_parking"@.len() == 12,
        "core_parking"@[2] == 'r',
        "core_parking"@[8] == 'k',
        "memory_compression"@.len() == 18,
        "memory_compression"@[0] == 'm',
        "superfetch_registry"@.len() == 19,
        "static_pagefile"@.len() == 15,
        "static_pagefile"@[0] == 's',
        "paging_executive"@.len() == 16,
        "paging_executive"@[14] == 'v',
        "dynamic_tick"@.len() == 12,
        "dynamic_tick"@[2] == 'n',
        "dynamic_tick"@[8] == 't',
        "tsc_sync"@.len() == 8,
        "tsc_sync"@[4] == 's',
        "hpet"@.len() == 4,
        "hpet"@[1] == 'p',
        "interrupt_affinity"@.len() == 18,
        "interrupt_affinity"@[0] == 'i',
        "hvci"@.len() == 4,
        "hvci"@[1] == 'v',
        "vbs"@.len() == 3,
        "vbs"@[0] == 'v',
        "vbs"@[2] == 's',
        "spectre"@.len() == 7,
        "spectre"@[3] == 'c',
        "defender_realtime"@.len() == 17,
        "uac_level"@.len() == 9,
        "uac_level"@[2] == 'c',
        "firewall_status"@.len() == 15,
        "firewall_status"@[0] == 'f',
        "smartscreen"@.len() == 11,
        "smartscreen"@[1] == 'm',
        "interrupt_moderation"@.len() == 20,
        "lso"@.len() == 3,
        "lso"@[0] == 'l',
        "lso"@[2] == 'o',
        "eee"@.len() == 3,
        "eee"@[0] == 'e',
        "eee"@[2] == 'e',
        "rss"@.len() == 3,
        "rss"@[0] == 'r',
        "rss"@[2] == 's',
        "rsc"@.len() == 3,
        "rsc"@[0] == 'r',
        "rsc"@[2] == 'c',
        "doh_cloudflare"@.len() == 14,
        "doh_cloudflare"@[10] == 'l',
        "doh_cloudflare"@[6] == 'o',
        "doh_google"@.len() == 10,
        "doh_google"@[0] == 'd',
        "doh_quad9"@.len() == 9,
        "doh_quad9"@[2] == 'h',
        "dns_flush"@.len() == 9,
        "dns_flush"@[2] == 's',
        "audit_hardware"@.len() == 14,
        "audit_hardware"@[10] == 'w',
        "audit_hardware"@[6] == 'h',
        "audit_security"@.len() == 14,
        "audit_security"@[10] == 'r',
        "audit_security"@[6] == 's',
        "audit_services"@.len() == 14,
        "audit_services"@[10] == 'i',
        "audit_services"@[6] == 's',
        "audit_network"@.len() == 13,
        "audit_network"@[1] == 'u',
        "audit_software"@.len() == 14,
        "audit_software"@[10] == 'w',
        "audit_software"@[6] == 's',
        "ui_theme_minimal"@.len() == 16,
        "ui_theme_minimal"@[14] == 'a',
        "ui_theme_classic"@.len() == 16,
        "ui_theme_classic"@[14] == 'i',
        "ui_animations"@.len() == 13,
        "ui_animations"@[1] == 'i',
        "sys_auto_elevate"@.len() == 16,
        "sys_auto_elevate"@[14] == 't',
        "sys_log_level"@.len() == 13,
        "sys_log_level"@[1] == 'y',
        "cleanup_temp"@.len() == 12,
        "cleanup_temp"@[2] == 'e',
        "cleanup_temp"@[8] == 't',
        "cleanup_winsxs"@.len() == 14,
        "cleanup_winsxs"@[10] == 'n',
        "cleanup_winsxs"@[6] == 'p',
        "cleanup_edge"@.len() == 12,
        "cleanup_edge"@[2] == 'e',
        "cleanup_edge"@[8] == 'e',
{
    reveal_strlit("diagtrack");
    reveal_strlit("dmwappush");
    reveal_strlit("wersvc");
    reveal_strlit("wercplsupport");
    reveal_strlit("pcasvc");
    reveal_strlit("wdisystem");
    reveal_strlit("wdiservice");
    reveal_strlit("lfsvc");
    reveal_strlit("mapsbroker");
    reveal_strlit("firewall");
    reveal_strlit("sched_tasks");
    reveal_strlit("hosts");
    reveal_strlit("onedrive");
    reveal_strlit("telemetry_level");
    reveal_strlit("advertising_id");
    reveal_strlit("location");
    reveal_strlit("activity_history");
    reveal_strlit("cortana");
    reveal_strlit("context_menu");
    reveal_strlit("widgets");
    reveal_strlit("pause_updates");
    reveal_strlit("driver_updates");
    reveal_strlit("recall");
    reveal_strlit("group_policy_telem");
    reveal_strlit("timer");
    reveal_strlit("power_ultimate");
    reveal_strlit("cpu_throttle");
    reveal_strlit("usb_suspend");
    reveal_strlit("msi");
    reveal_strlit("sysmain");
    reveal_strlit("wsearch");
    reveal_strlit("edge_disable");
    reveal_strlit("explorer_tweaks");
    reveal_strlit("game_bar");
    reveal_strlit("fullscreen_opt");
    reveal_strlit("hags");
    reveal_strlit("nagle");
    reveal_strlit("power_throttle");
    reveal_strlit("enable_game_mode");
    reveal_strlit("prerendered_frames");
    reveal_strlit("vrr_opt");
    reveal_strlit("shader_cache");
    reveal_strlit("priority_sep");
    reveal_strlit("mmcss");
    reveal_strlit("games_priority");
    reveal_strlit("global_timer");
    reveal_strlit("startup_delay");
    reveal_strlit("shutdown_timeout");
    reveal_strlit("bing_apps");
    reveal_strlit("ms_productivity");
    reveal_strlit("ms_media");
    reveal_strlit("ms_communication");
    reveal_strlit("ms_legacy");
    reveal_strlit("ms_tools");
    reveal_strlit("third_party");
    reveal_strlit("copilot");
    reveal_strlit("cortana_app");
    reveal_strlit("xbox");
    reveal_strlit("core_parking");
    reveal_strlit("memory_compression");
    reveal_strlit("superfetch_registry");
    reveal_strlit("static_pagefile");
    reveal_strlit("paging_executive");
    reveal_strlit("dynamic_tick");
    reveal_strlit("tsc_sync");
    reveal_strlit("hpet");
    reveal_strlit("interrupt_affinity");
    reveal_strlit("hvci");
    reveal_strlit("vbs");
    reveal_strlit("spectre");
    reveal_strlit("defender_realtime");
    reveal_strlit("uac_level");
    reveal_strlit("firewall_status");
    reveal_strlit("smartscreen");
    reveal_strlit("interrupt_moderation");
    reveal_strlit("lso");
    reveal_strlit("eee");
    reveal_strlit("rss");
    reveal_strlit("rsc");
    reveal_strlit("doh_cloudflare");
    reveal_strlit("doh_google");
    reveal_strlit("doh_quad9");
    reveal_strlit("dns_flush");
    reveal_strlit("audit_hardware");
    reveal_strlit("audit_security");
    reveal_strlit("audit_services");
    reveal_strlit("audit_network");
    reveal_strlit("audit_software");
    reveal_strlit("ui_theme_minimal");
    reveal_strlit("ui_theme_classic");
    reveal_strlit("ui_animations");
    reveal_strlit("sys_auto_elevate");
    reveal_strlit("sys_log_level");
    reveal_strlit("cleanup_temp");
    reveal_strlit("cleanup_winsxs");
    reveal_strlit("cleanup_edge");
}

/// The options of section 0 of the desktop catalogue stand where `desktop_places` puts them.
#[verifier::rlimit(50)]
proof fn lemma_desktop_places_0()
    ensures
        forall|i: int|
            0 <= i < catalogue(false)[0].len() ==> desktop_places().dom().contains(
                #[trigger] catalogue(false)[0][i].id@,
            ) && desktop_places()[catalogue(false)[0][i].id@] == (0int, i),
{
    lemma_desktop_id_text();
    assert forall|i: int| 0 <= i < catalogue(false)[0].len() implies desktop_places().dom().contains(
        #[trigger] catalogue(false)[0][i].id@,
    ) && desktop_places()[catalogue(false)[0][i].id@] == (0int, i) by {
        if i == 0 {} else if i == 1 {} else if i == 2 {} else if i == 3 {} else if i == 4 {} else if i == 5 {} else if i == 6 {} else if i == 7 {} else if i == 8 {} else if i == 9 {} else if i == 10 {} else if i == 11 {} else {}
    }
}

/// The options of section 1 of the desktop catalogue stand where `desktop_places` puts them.
#[verifier::rlimit(50)]
proof fn lemma_desktop_places_1()
    ensures
        forall|i: int|
            0 <= i < catalogue(false)[1].len() ==> desktop_places().dom().contains(
                #[trigger] catalogue(false)[1][i].id@,
            ) && desktop_places()[catalogue(false)[1][i].id@] == (1int, i),
{
    lemma_desktop_id_text();
    assert forall|i: int| 0 <= i < catalogue(false)[1].len() implies desktop_places().dom().contains(
        #[trigger] catalogue(false)[1][i].id@,
    ) && desktop_places()[catalogue(false)[1][i].id@] == (1int, i) by {
        if i == 0 {} else if i == 1 {} else if i == 2 {} else if i == 3 {} else if i == 4 {} else if i == 5 {} else if i == 6 {} else if i == 7 {} else if i == 8 {} else if i == 9 {} else {}
    }
}

/// The options of section 2 of the desktop catalogue stand where `desktop_places` puts them.
#[verifier::rlimit(50)]
proof fn lemma_desktop_places_2()
    ensures
        forall|i: int|
            0 <= i < catalogue(false)[2].len() ==> desktop_places().dom().contains(
                #[trigger] catalogue(false)[2][i].id@,
            ) && desktop_places()[catalogue(false)[2][i].id@] == (2int, i),
{
    lemma_desktop_id_text();
    assert forall|i: int| 0 <= i < catalogue(false)[2].len() implies desktop_places().dom().contains(
        #[trigger] catalogue(false)[2][i].id@,
    ) && desktop_places()[catalogue(false)[2][i].id@] == (2int, i) by {
        if i == 0 {} else if i == 1 {} else if i == 2 {} else if i == 3 {} else if i == 4 {} else if i == 5 {} else if i == 6 {} else if i == 7 {} else if i == 8 {} else if i == 9 {} else if i == 10 {} else if i == 11 {} else if i == 12 {} else if i == 13 {} else if i == 14 {} else if i == 15 {} else if i == 16 {} else {}
    }
}

/// The options of section 3 of the desktop catalogue stand where `desktop_places` puts them.
#[verifier::rlimit(50)]
proof fn lemma_desktop_places_3()
    ensures
        forall|i: int|
            0 <= i < catalogue(false)[3].len() ==> desktop_places().dom().contains(
                #[trigger] catalogue(false)[3][i].id@,
            ) && desktop_places()[catalogue(false)[3][i].id@] == (3int, i),
{
    lemma_desktop_id_text();
    assert forall|i: int| 0 <= i < catalogue(false)[3].len() implies desktop_places().dom().contains(
        #[trigger] catalogue(false)[3][i].id@,
    ) && desktop_places()[catalogue(false)[3][i].id@] == (3int, i) by {
        if i == 0 {} else if i == 1 {} else if i == 2 {} else if i == 3 {} else if i == 4 {} else {}
    }
}

/// The options of section 4 of the desktop catalogue stand where `desktop_places` puts them.
#[verifier::rlimit(50)]
proof fn lemma_desktop_places_4()
    ensures
        forall|i: int|
            0 <= i < catalogue(false)[4].len() ==> desktop_places().dom().contains(
                #[trigger] catalogue(false)[4][i].id@,
            ) && desktop_places()[catalogue(false)[4][i].id@] == (4int, i),
{
    lemma_desktop_id_text();
    assert forall|i: int| 0 <= i < catalogue(false)[4].len() implies desktop_places().dom().contains(
        #[trigger] catalogue(false)[4][i].id@,
    ) && desktop_places()[catalogue(false)[4][i].id@] == (4int, i) by {
        if i == 0 {} else if i == 1 {} else if i == 2 {} else if i == 3 {} else if i == 4 {} else if i == 5 {} else if i == 6 {} else if i == 7 {} else if i == 8 {} else {}
    }
}

/// The options of section 5 of the desktop catalogue stand where `desktop_places` puts them.
#[verifier::rlimit(50)]
proof fn lemma_desktop_places_5()
    ensures
        forall|i: int|
            0 <= i < catalogue(false)[5].len() ==> desktop_places().dom().contains(
                #[trigger] catalogue(false)[5][i].id@,
            ) && desktop_places()[catalogue(false)[5][i].id@] == (5int, i),
{
    lemma_desktop_id_text();
    assert forall|i: int| 0 <= i < catalogue(false)[5].len() implies desktop_places().dom().contains(
        #[trigger] catalogue(false)[5][i].id@,
    ) && desktop_places()[catalogue(false)[5][i].id@] == (5int, i) by {
        if i == 0 {} else if i == 1 {} else if i == 2 {} else {}
    }
}

/// The options of section 6 of the desktop catalogue stand where `desktop_places` puts them.
#[verifier::rlimit(50)]
proof fn lemma_desktop_places_6()
    ensures
        forall|i: int|
            0 <= i < catalogue(false)[6].len() ==> desktop_places().dom().contains(
                #[trigger] catalogue(false)[6][i].id@,
            ) && desktop_places()[catalogue(false)[6][i].id@] == (6int, i),
{
    lemma_desktop_id_text();
    assert forall|i: int| 0 <= i < catalogue(false)[6].len() implies desktop_places().dom().contains(
        #[trigger] catalogue(false)[6][i].id@,
    ) && desktop_places()[catalogue(false)[6][i].id@] == (6int, i) by {
        if i == 0 {} else if i == 1 {} else if i == 2 {} else if i == 3 {} else {}
    }
}

/// The options of section 7 of the desktop catalogue stand where `desktop_places` puts them.
#[verifier::rlimit(50)]
proof fn lemma_desktop_places_7()
    ensures
        forall|i: int|
            0 <= i < catalogue(false)[7].len() ==> desktop_places().dom().contains(
                #[trigger] catalogue(false)[7][i].id@,
            ) && desktop_places()[catalogue(false)[7][i].id@] == (7int, i),
{
    lemma_desktop_id_text();
    assert forall|i: int| 0 <= i < catalogue(false)[7].len() implies desktop_places().dom().contains(
        #[trigger] catalogue(false)[7][i].id@,
    ) && desktop_places()[catalogue(false)[7][i].id@] == (7int, i) by {
        if i == 0 {} else if i == 1 {} else if i == 2 {} else if i == 3 {} else if i == 4 {} else if i == 5 {} else {}
    }
}

/// The options of section 8 of the desktop catalogue stand where `desktop_places` puts them.
#[verifier::rlimit(50)]
proof fn lemma_desktop_places_8()
    ensures
        forall|i: int|
            0 <= i < catalogue(false)[8].len() ==> desktop_places().dom().contains(
                #[trigger] catalogue(false)[8][i].id@,
            ) && desktop_places()[catalogue(false)[8][i].id@] == (8int, i),
{
    lemma_desktop_id_text();
    assert forall|i: int| 0 <= i < catalogue(false)[8].len() implies desktop_places().dom().contains(
        #[trigger] catalogue(false)[8][i].id@,
    ) && desktop_places()[catalogue(false)[8][i].id@] == (8int, i) by {
        if i == 0 {} else if i == 1 {} else if i == 2 {} else if i == 3 {} else {}
    }
}

/// The options of section 9 of the desktop catalogue stand where `desktop_places` puts them.
#[verifier::rlimit(50)]
proof fn lemma_desktop_places_9()
    ensures
        forall|i: int|
            0 <= i < catalogue(false)[9].len() ==> desktop_places().dom().contains(
                #[trigger] catalogue(false)[9][i].id@,
            ) && desktop_places()[catalogue(false)[9][i].id@] == (9int, i),
{
    lemma_desktop_id_text();
    assert forall|i: int| 0 <= i < catalogue(false)[9].len() implies desktop_places().dom().contains(
        #[trigger] catalogue(false)[9][i].id@,
    ) && desktop_places()[catalogue(false)[9][i].id@] == (9int, i) by {
        if i == 0 {} else if i == 1 {} else if i == 2 {} else {}
    }
}

/// The options of section 10 of the desktop catalogue stand where `desktop_places` puts them.
#[verifier::rlimit(50)]
proof fn lemma_desktop_places_10()
    ensures
        forall|i: int|
            0 <= i < catalogue(false)[10].len() ==> desktop_places().dom().contains(
                #[trigger] catalogue(false)[10][i].id@,
            ) && desktop_places()[catalogue(false)[10][i].id@] == (10int, i),
{
    lemma_desktop_id_text();
    assert forall|i: int| 0 <= i < catalogue(false)[10].len() implies desktop_places().dom().contains(
        #[trigger] catalogue(false)[10][i].id@,
    ) && desktop_places()[catalogue(false)[10][i].id@] == (10int, i) by {
        if i == 0 {} else if i == 1 {} else if i == 2 {} else if i == 3 {} else {}
    }
}

/// The options of section 11 of the desktop catalogue stand where `desktop_places` puts them.
#[verifier::rlimit(50)]
proof fn lemma_desktop_places_11()
    ensures
        forall|i: int|
            0 <= i < catalogue(false)[11].len() ==> desktop_places().dom().contains(
                #[trigger] catalogue(false)[11][i].id@,
            ) && desktop_places()[catalogue(false)[11][i].id@] == (11int, i),
{
    lemma_desktop_id_text();
    assert forall|i: int| 0 <= i < catalogue(false)[11].len() implies desktop_places().dom().contains(
        #[trigger] catalogue(false)[11][i].id@,
    ) && desktop_places()[catalogue(false)[11][i].id@] == (11int, i) by {
        if i == 0 {} else if i == 1 {} else if i == 2 {} else if i == 3 {} else {}
    }
}

/// The options of section 12 of the desktop catalogue stand where `desktop_places` puts them.
#[verifier::rlimit(50)]
proof fn lemma_desktop_places_12()
    ensures
        forall|i: int|
            0 <= i < catalogue(false)[12].len() ==> desktop_places().dom().contains(
                #[trigger] catalogue(false)[12][i].id@,
            ) && desktop_places()[catalogue(false)[12][i].id@] == (12int, i),
{
    lemma_desktop_id_text();
    assert forall|i: int| 0 <= i < catalogue(false)[12].len() implies desktop_places().dom().contains(
        #[trigger] catalogue(false)[12][i].id@,
    ) && desktop_places()[catalogue(false)[12][i].id@] == (12int, i) by {
        if i == 0 {} else if i == 1 {} else {}
    }
}

/// Each option of the desktop catalogue stands where `desktop_places` puts it.
proof fn lemma_desktop_places()
    ensures
        forall|s: int, i: int|
            0 <= s < catalogue(false).len() && 0 <= i < catalogue(false)[s].len()
                ==> desktop_places().dom().contains(#[trigger] catalogue(false)[s][i].id@)
                && desktop_places()[catalogue(false)[s][i].id@] == (s, i),
{
    lemma_desktop_places_0();
    lemma_desktop_places_1();
    lemma_desktop_places_2();
    lemma_desktop_places_3();
    lemma_desktop_places_4();
    lemma_desktop_places_5();
    lemma_desktop_places_6();
    lemma_desktop_places_7();
    lemma_desktop_places_8();
    lemma_desktop_places_9();
    lemma_desktop_places_10();
    lemma_desktop_places_11();
    lemma_desktop_places_12();
    assert forall|s: int, i: int|
        0 <= s < catalogue(false).len() && 0 <= i < catalogue(false)[s].len() implies desktop_places().dom().contains(
            #[trigger] catalogue(false)[s][i].id@,
        ) && desktop_places()[catalogue(false)[s][i].id@] == (s, i) by {
        if s == 0 {} else if s == 1 {} else if s == 2 {} else if s == 3 {} else if s == 4 {} else if s == 5 {} else if s == 6 {} else if s == 7 {} else if s == 8 {} else if s == 9 {} else if s == 10 {} else if s == 11 {} else {}
    }
}

/// No two options of the catalogue share an identifier, across all its
/// sections, on a laptop as on a desktop.
pub proof fn lemma_catalogue_ids_unique(is_laptop: bool)
    ensures
        forall|s1: int, i: int, s2: int, j: int|
            0 <= s1 < catalogue(is_laptop).len() && 0 <= s2 < catalogue(is_laptop).len() && 0 <= i
                < catalogue(is_laptop)[s1].len() && 0 <= j < catalogue(is_laptop)[s2].len() && (s1
                != s2 || i != j) ==> #[trigger] catalogue(is_laptop)[s1][i].id@
                != #[trigger] catalogue(is_laptop)[s2][j].id@,
{
    if is_laptop {
        lemma_laptop_places();
    } else {
        lemma_desktop_places();
    }
}

} // verus!
