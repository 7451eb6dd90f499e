use pieuvre::cli::analyze::{collection_level_name, profile_recommendations, AnalysisFacts};
use pieuvre::cli::verify::is_performance_plan;
use pieuvre::cli::status::{latency_band, rank_by_dpc, top_offenders, LatencyBand};
use pieuvre::cli::tweaks::{recommended_ids, tweak_list_line};
use pieuvre::cli::verbosity::verbosity_filter;
use pieuvre::cli::verify::{evaluate_integrity, IntegrityProbe, TimerReading};
use pieuvre::cli::wizard::{
    outcome_line, performance_options, selected_labels, telemetry_services, wizard_step, WizardAction,
    WizardSection,
};
use pieuvre::audit::etw::parser::LatencyStats;
use pieuvre::interactive::catalog::{
    appx_section, cpu_section, dpc_section, network_advanced_section, performance_section,
    privacy_section, scheduler_section, security_section, telemetry_section, OptItem, RiskLevel,
};
use pieuvre::interactive::executor::{registry_path, CommandRegistry, PowerPlan, SyncOperation, Tweak};
use pieuvre::interactive::sections::get_all_sections;
use pieuvre::interactive::tui::{mode_label, risk_label, Action, AppState};
use pieuvre::interactive::types::{ExecutionResult, RiskLevel as TweakRisk};
use pieuvre::interactive::ui::{AppState as Dashboard, DashboardEffect, DashboardKey, LogLevel, ViewMode};

#[test]
fn test_collect_selection_returns_empty_on_no_opts() {
    let opts: Vec<OptItem> = vec![];
    assert!(opts.is_empty());
}

#[test]
fn test_sections_exported() {
    let _item = OptItem::safe("test", "Test");
    assert_eq!(_item.id, "test");
}

#[test]
fn test_telemetry_section_not_empty() {
    let section = telemetry_section();
    assert!(!section.is_empty());
}

#[test]
fn test_all_sections_have_unique_ids() {
    let mut all_ids = Vec::new();
    all_ids.extend(telemetry_section().iter().map(|o| o.id));
    all_ids.extend(privacy_section().iter().map(|o| o.id));
    all_ids.extend(performance_section(false).iter().map(|o| o.id));
    all_ids.extend(scheduler_section().iter().map(|o| o.id));
    all_ids.extend(appx_section().iter().map(|o| o.id));
    all_ids.extend(cpu_section(false).iter().map(|o| o.id));
    all_ids.extend(dpc_section().iter().map(|o| o.id));
    all_ids.extend(security_section().iter().map(|o| o.id));
    all_ids.extend(network_advanced_section().iter().map(|o| o.id));
    let unique_count = {
        let mut sorted = all_ids.clone();
        sorted.sort();
        sorted.dedup();
        sorted.len()
    };
    assert_eq!(all_ids.len(), unique_count, "Duplicate IDs found in sections");
}

#[test]
fn test_cli_module_compiles() {}

#[test]
fn test_cli_has_all_commands() {
    let commands = ["audit", "status", "rollback", "verify", "interactive"];
    for cmd in commands {
        assert!(!cmd.is_empty(), "Command {} should exist", cmd);
    }
}

#[test]
fn test_interactive_module_exists() {}

#[test]
fn test_command_registry_registration() {
    let registry = CommandRegistry::new();
    let critical_commands = ["diagtrack", "telemetry_level", "timer", "power_ultimate", "scan_yara"];
    for id in critical_commands {
        assert!(registry.lookup(id).is_some(), "{} should be registered", id);
    }
}

#[test]
fn test_verbose_levels() {
    let levels = [(0u8, "warn"), (1u8, "info"), (2u8, "debug"), (3u8, "trace")];
    for (level, expected) in levels {
        let filter = verbosity_filter(level);
        assert_eq!(filter, expected);
    }
    assert_eq!(verbosity_filter(9), "trace");
}

#[test]
fn test_output_json_extension() {
    let output_path = "report.json";
    assert!(output_path.ends_with(".json"));
}

#[test]
fn test_output_none_valid() {
    let output: Option<String> = None;
    assert!(output.is_none());
}

#[test]
fn short_constructors_fill_the_metadata() {
    let o = OptItem::conditional("x", "X", true);
    assert!(o.default && o.risk == RiskLevel::Conditional);
    assert_eq!(o.description, "No description available.");
    assert!(!OptItem::warning("w", "W").default);
    assert!(OptItem::perf("p", "P").risk == RiskLevel::Performance);
    assert!(OptItem::critical("c", "C").risk == RiskLevel::Critical);
    assert!(!OptItem::safe_off("s", "S").default);
}

#[test]
fn laptop_sections_flag_battery_options() {
    let desktop = performance_section(false);
    let laptop = performance_section(true);
    assert_eq!(desktop[0].id, "timer");
    assert!(desktop[0].default && desktop[0].risk == RiskLevel::Safe);
    assert!(!laptop[0].default && laptop[0].risk == RiskLevel::Warning);
    assert_eq!(laptop.len(), desktop.len() + 1);
    assert!(laptop.iter().any(|o| o.id == "power_high"));
    assert!(!desktop.iter().any(|o| o.id == "power_high"));
    assert_eq!(cpu_section(true)[0].risk, RiskLevel::Warning);
}

#[test]
fn categories_of_the_modular_interface() {
    let sections = get_all_sections();
    assert_eq!(sections.len(), 8);
    assert_eq!(sections[0].0, " Analyse & Diagnostic ");
    assert_eq!(sections[0].1.len(), 6);
    assert_eq!(sections[0].1[0].id, "scan_yara");
    assert_eq!(sections[7].1[0].id, "sync_persist");
    assert!(sections.iter().all(|(_, items)| !items.is_empty()));
}

#[test]
fn option_ids_are_unique_in_the_interface_and_the_laptop_catalogue() {
    let mut ids: Vec<&str> = Vec::new();
    for (_, items) in get_all_sections() {
        ids.extend(items.iter().map(|o| o.id));
    }
    let mut sorted = ids.clone();
    sorted.sort();
    sorted.dedup();
    assert_eq!(sorted.len(), ids.len());
    let mut laptop: Vec<&str> = Vec::new();
    laptop.extend(performance_section(true).iter().map(|o| o.id));
    laptop.extend(cpu_section(true).iter().map(|o| o.id));
    laptop.extend(telemetry_section().iter().map(|o| o.id));
    let mut sorted = laptop.clone();
    sorted.sort();
    sorted.dedup();
    assert_eq!(sorted.len(), laptop.len());
}

#[test]
fn registry_binds_every_option_of_the_interface() {
    let registry = CommandRegistry::new();
    for (_, items) in get_all_sections() {
        for item in items {
            assert!(registry.lookup(item.id).is_some(), "{} has no command", item.id);
        }
    }
    assert!(registry.lookup("no_such_tweak").is_none());
    match registry.lookup("diagtrack") {
        Some(Tweak::SyncOperation(c)) => match &c.operation {
            SyncOperation::Service { name, target_start_type } => {
                assert_eq!(name, "DiagTrack");
                assert_eq!(*target_start_type, 4);
            }
            _ => panic!("diagtrack disables a service"),
        },
        _ => panic!("diagtrack is a sync operation"),
    }
    match registry.lookup("timer") {
        Some(Tweak::TimerResolution(t)) => assert_eq!(t.resolution, 5000),
        _ => panic!("timer sets the resolution"),
    }
    match registry.lookup("power_ultimate") {
        Some(Tweak::PowerPlan(p)) => assert_eq!(p.plan, PowerPlan::UltimatePerformance),
        _ => panic!("power_ultimate sets the plan"),
    }
    match registry.lookup("location") {
        Some(Tweak::SyncOperation(c)) => match &c.operation {
            SyncOperation::RegistryDword { key, value, target_data } => {
                assert!(key.ends_with("\\ConsentStore\\location"));
                assert_eq!(value, "Value");
                assert_eq!(*target_data, 0);
            }
            _ => panic!("location sets a DWORD"),
        },
        _ => panic!("location is a sync operation"),
    }
}

#[test]
fn registering_again_replaces_a_binding() {
    let mut registry = CommandRegistry::new();
    registry.register("diagtrack", Tweak::TimerResolution(pieuvre::interactive::executor::TimerResolutionCommand::new(10)));
    match registry.lookup("diagtrack") {
        Some(Tweak::TimerResolution(t)) => assert_eq!(t.resolution, 10),
        _ => panic!("the new binding wins"),
    }
    assert!(registry.lookup("wersvc").is_some());
    assert_eq!(registry_path("A\\B", "c"), "A\\B\\c");
}

#[test]
fn execution_results() {
    let r = ExecutionResult::ok("done".to_string());
    assert_eq!(r._affected_count, 1);
    assert_eq!(r.message, "done");
    let r = ExecutionResult::ok_count(7, "seven".to_string());
    assert_eq!(r._affected_count, 7);
}

fn current_flag(app: &AppState) -> bool {
    let id = app.current_options()[app.selected_index].id;
    app.options_state.get(id).unwrap_or(false)
}

#[test]
fn tui_tabs_wrap_and_round_trip() {
    let mut app = AppState::new(false);
    assert_eq!(app.tabs.len(), 8);
    assert_eq!(app.active_tab, 0);
    app.update(Action::PrevTab);
    assert_eq!(app.active_tab, 7);
    app.update(Action::NextTab);
    assert_eq!(app.active_tab, 0);
    app.update(Action::NextItem);
    app.update(Action::NextItem);
    assert_eq!(app.selected_index, 2);
    app.update(Action::NextTab);
    app.update(Action::PrevTab);
    assert_eq!(app.active_tab, 0);
    assert_eq!(app.selected_index, 0);
    app.update(Action::PrevItem);
    assert_eq!(app.selected_index, app.current_options().len() - 1);
    app.update(Action::NextItem);
    assert_eq!(app.selected_index, 0);
}

#[test]
fn tui_toggle_twice_restores_the_flag() {
    let mut app = AppState::new(true);
    let before = current_flag(&app);
    app.update(Action::ToggleSelected);
    assert_eq!(current_flag(&app), !before);
    app.update(Action::ToggleSelected);
    assert_eq!(current_flag(&app), before);
    assert_eq!(app.current_options()[0].id, "scan_yara");
    assert!(!before);
}

#[test]
fn tui_log_keeps_the_last_hundred_lines() {
    let mut app = AppState::new(false);
    for i in 0..150 {
        app.update(Action::AddLog(format!("line {}", i)));
    }
    assert_eq!(app.logs.len(), 100);
    assert_eq!(app.logs[0], "line 50");
    assert_eq!(app.logs[99], "line 149");
    app.update(Action::Quit);
    assert!(app.should_quit);
    let lines = app.option_lines();
    assert_eq!(lines[0], " [ ] Analyse de signatures YARA-X");
    assert_eq!(risk_label(TweakRisk::Performance), "PERFORMANCE");
    assert_eq!(mode_label(true), " ADMIN ");
    assert_eq!(mode_label(false), " USER ");
}

fn now() -> String {
    "09:30:00".to_string()
}

#[test]
fn dashboard_navigation_and_selection() {
    let mut d = Dashboard::new(false, true);
    assert_eq!(d.categories.len(), 11);
    assert_eq!(d.current_view, ViewMode::Dashboard);
    assert!(matches!(d.handle_key_at(DashboardKey::Up, false, now()), DashboardEffect::Stay));
    assert_eq!(d.selected_option, 0);
    d.handle_key_at(DashboardKey::Down, false, now());
    assert_eq!(d.selected_option, 1);
    d.handle_key_at(DashboardKey::Right, false, now());
    assert_eq!((d.selected_category, d.selected_option), (1, 0));
    d.handle_key_at(DashboardKey::Left, false, now());
    assert_eq!(d.selected_category, 0);
    let id = d.categories[0].1[0].id;
    let before = d.options_state.get(id).unwrap();
    d.handle_key_at(DashboardKey::Toggle, false, now());
    assert_eq!(d.options_state.get(id), Some(!before));
    d.handle_key_at(DashboardKey::Toggle, false, now());
    assert_eq!(d.options_state.get(id), Some(before));
    assert!(matches!(d.handle_key_at(DashboardKey::Quit, false, now()), DashboardEffect::Exit));
}

#[test]
fn dashboard_apply_runs_the_selected_options() {
    let mut d = Dashboard::new(false, false);
    for _ in 0..11 {
        d.handle_key_at(DashboardKey::DeselectAll, false, now());
        d.handle_key_at(DashboardKey::Right, false, now());
    }
    match d.handle_key_at(DashboardKey::Apply, false, now()) {
        DashboardEffect::Stay => {}
        _ => panic!("nothing is selected"),
    }
    assert_eq!(d.logs.last().unwrap().message, "No options selected");
    assert!(matches!(d.logs.last().unwrap().level, LogLevel::Warning));
    d.handle_key_at(DashboardKey::Toggle, false, now());
    match d.handle_key_at(DashboardKey::Apply, true, now()) {
        DashboardEffect::Stay => {}
        _ => panic!("a batch is already running"),
    }
    match d.handle_key_at(DashboardKey::Apply, false, now()) {
        DashboardEffect::RunBatch(b) => {
            assert_eq!(b.len(), 1);
            assert_eq!(b[0].0, "Cleanup");
        }
        _ => panic!("one option is selected"),
    }
    assert_eq!(d.current_view, ViewMode::Audit);
    assert!(matches!(d.handle_key_at(DashboardKey::SelectAll, false, now()), DashboardEffect::RunAudit));
    d.handle_key_at(DashboardKey::Escape, false, now());
    assert_eq!(d.current_view, ViewMode::Dashboard);
    assert_eq!(d.logs.last().unwrap().message, "Returned to Dashboard");
    match d.handle_key_at(DashboardKey::RunCategory, false, now()) {
        DashboardEffect::RunBatch(b) => assert_eq!(b.len(), d.categories[d.selected_category].1.len()),
        _ => panic!("the category runs"),
    }
}

#[test]
fn dashboard_log_is_bounded() {
    let mut d = Dashboard::new(true, false);
    for i in 0..250 {
        d.add_log(now(), LogLevel::Info, &format!("entry {}", i), None);
    }
    assert_eq!(d.logs.len(), 200);
    assert_eq!(d.logs[0].message, "entry 50");
    assert_eq!(d.logs[0].timestamp, "09:30:00");
    d.add_log("12:00:00".to_string(), LogLevel::Error, "boom", Some("why"));
    assert_eq!(d.logs.len(), 200);
    assert_eq!(d.logs[199].timestamp, "12:00:00");
    assert_eq!(d.logs[199].details.as_deref(), Some("why"));
}

fn stats(max: u64) -> LatencyStats {
    LatencyStats { dpc_count: 1, dpc_total_us: max, dpc_max_us: max, isr_count: 0, isr_total_us: 0, isr_max_us: 0 }
}

#[test]
fn offenders_are_ranked_by_longest_dpc() {
    let input: Vec<(String, LatencyStats)> = [40u64, 900, 120, 5, 600, 300, 77]
        .iter()
        .enumerate()
        .map(|(i, m)| (format!("drv{}", i), stats(*m)))
        .collect();
    let ranked = rank_by_dpc(input.clone());
    let maxima: Vec<u64> = ranked.iter().map(|(_, s)| s.dpc_max_us).collect();
    assert_eq!(maxima, vec![900, 600, 300, 120, 77, 40, 5]);
    let top = top_offenders(input);
    assert_eq!(top.len(), 5);
    assert_eq!(top[0].0, "drv1");
    assert_eq!(top[4].1.dpc_max_us, 77);
    let names: Vec<&str> = top.iter().map(|(n, _)| n.as_str()).collect();
    assert_eq!(names, vec!["drv1", "drv4", "drv5", "drv2", "drv6"]);
    assert!(top_offenders(vec![]).is_empty());
    assert_eq!(latency_band(501), LatencyBand::Severe);
    assert_eq!(latency_band(500), LatencyBand::Elevated);
    assert_eq!(latency_band(100), LatencyBand::Normal);
}

#[test]
fn integrity_checks_report_each_drift() {
    let clean = IntegrityProbe {
        timer: TimerReading::Within,
        power_plan: Ok("Ultimate Performance".to_string()),
        diagtrack_start_type: Err("not found".to_string()),
        msi_on_gpu: true,
        firewall_rules: Ok(3),
        priority_separation: Ok(0x26),
        system_responsiveness: Ok(10),
        network_throttling: Ok(0xFFFF_FFFF),
    };
    let r = evaluate_integrity(&clean);
    assert_eq!(r.ok_count, 8);
    assert!(r.issues.is_empty());
    let drifted = IntegrityProbe {
        timer: TimerReading::Above("15.63".to_string()),
        power_plan: Ok("Balanced".to_string()),
        diagtrack_start_type: Ok(2),
        msi_on_gpu: false,
        firewall_rules: Ok(0),
        priority_separation: Ok(0x2),
        system_responsiveness: Err("missing".to_string()),
        network_throttling: Ok(10),
    };
    let r = evaluate_integrity(&drifted);
    assert_eq!(r.ok_count, 0);
    let texts: Vec<(&str, &str)> = r.issues.iter().map(|(a, b)| (a.as_str(), b.as_str())).collect();
    assert_eq!(
        texts,
        vec![
            ("Timer", "Resolution 15.63ms, expected 0.5ms"),
            ("Power", "Active plan: Balanced, expected High/Ultimate"),
            ("DiagTrack", "start_type=2, expected 4 (Disabled)"),
            ("MSI", "MSI Mode not active on GPU"),
            ("Firewall", "No pieuvre rules active"),
            ("Scheduler", "Win32PrioritySeparation=0x02, expected 0x26"),
            ("MMCSS", "SystemResponsiveness not configured"),
            ("NetworkThrottle", "NetworkThrottlingIndex=0x0000000A, expected OFF"),
        ]
    );
}

#[test]
fn wizard_lists_and_summary() {
    assert_eq!(telemetry_services().len(), 13);
    let laptop = performance_options(true);
    let desktop = performance_options(false);
    assert_eq!(laptop.len(), 15);
    assert_eq!(desktop.len(), 14);
    assert!(!laptop[0].default && desktop[0].default);
    let labels = selected_labels(&desktop, &[2, 0]);
    assert_eq!(labels, vec![desktop[2].label, desktop[0].label]);
    assert_eq!(outcome_line(0), "[OK] Toutes les modifications appliquees avec succes.");
    assert_eq!(outcome_line(2), "[!] Certaines modifications ont echoue.");
}

#[test]
fn wizard_steps_by_section() {
    let step = wizard_step(WizardSection::Telemetry, "diagtrack").unwrap();
    assert_eq!(step.progress, "[*] DiagTrack... ");
    assert!(step.captures_service);
    assert!(matches!(step.action, WizardAction::DisableService("DiagTrack")));
    let step = wizard_step(WizardSection::Telemetry, "firewall").unwrap();
    assert!(!step.captures_service);
    assert!(matches!(step.action, WizardAction::CreateTelemetryBlockRules));
    let step = wizard_step(WizardSection::Privacy, "cortana").unwrap();
    assert!(matches!(step.action, WizardAction::DisableCortana));
    let step = wizard_step(WizardSection::Appx, "cortana").unwrap();
    assert!(matches!(step.action, WizardAction::RemoveCortanaApp));
    let step = wizard_step(WizardSection::Privacy, "telemetry_level").unwrap();
    assert!(matches!(step.action, WizardAction::SetTelemetryLevel(0)));
    assert!(wizard_step(WizardSection::Telemetry, "unknown").is_none());
    assert!(wizard_step(WizardSection::Scheduler, "diagtrack").is_none());
    for option in telemetry_services() {
        assert!(wizard_step(WizardSection::Telemetry, option.id).is_some());
    }
}

#[test]
fn tweak_listing_and_recommended_set() {
    assert_eq!(tweak_list_line("timer", "Timer"), "  - timer                : Timer");
    let long = "a_very_long_identifier_x";
    assert_eq!(tweak_list_line(long, "L"), format!("  - {} : L", long));
    let ids = recommended_ids();
    let mut expected = Vec::new();
    for (_, items) in get_all_sections() {
        for item in items {
            if item.default {
                expected.push(item.id);
            }
        }
    }
    assert_eq!(ids, expected);
    assert!(ids.contains(&"timer"));
    assert!(!ids.contains(&"scan_yara"));
}

#[test]
fn analysis_recommendations_by_profile() {
    let facts = AnalysisFacts {
        diagtrack_enabled: true,
        data_collection_level: 0,
        advertising_id_enabled: false,
        is_hybrid: false,
        is_laptop: true,
        timer_optimized: false,
        power_optimized: is_performance_plan("Balanced"),
    };
    let gaming = profile_recommendations("gaming", &facts);
    assert_eq!(
        gaming,
        vec![
            ("PERF", "Desactiver DiagTrack (service telemetrie)"),
            ("WARN", "Timer 0.5ms - Attention: +25% conso batterie sur laptop"),
            ("WARN", "Power Plan - High Performance recommande (pas Ultimate)"),
            ("PERF", "Activer MSI-Mode sur GPU"),
        ]
    );
    assert_eq!(profile_recommendations("privacy", &facts).len(), 3);
    assert_eq!(profile_recommendations("workstation", &facts).len(), 3);
    assert_eq!(profile_recommendations("other", &facts)[0].0, "INFO");
    assert!(is_performance_plan("Bitsum Highest Performance"));
    assert_eq!(collection_level_name(0), "Security only");
    assert_eq!(collection_level_name(7), "Full");
}

#[test]
fn recommended_and_selected_options_are_registered() {
    let registry = CommandRegistry::new();
    for id in recommended_ids() {
        assert!(registry.lookup(id).is_some(), "{} has no command", id);
    }
    let app = AppState::new(false);
    let picks = app.selected_options();
    assert!(!picks.is_empty());
    for (id, label) in picks {
        assert!(!label.is_empty());
        assert!(registry.lookup(id).is_some(), "{} has no command", id);
    }
}
