use pieuvre::text::decode_utf16_until_nul;
use pieuvre::audit::appx::{assess_removal_risk, categorize_package, get_bloatware, package_name, scan_packages};
use pieuvre::audit::compliance::check_configuration_drift;
use pieuvre::audit::etw::monitor::LatencyMonitor;
use pieuvre::audit::etw::parser::EtwParser;
use pieuvre::audit::etw::resolver::{DriverResolver, RefreshError};
use pieuvre::audit::hardware::{
    cpu_brand, cpu_vendor_name, detect_nvme, detect_vendor_from_id, drive_letters, gpu_from_registry,
    gpu_vendor_from_name, has_seek_penalty, is_laptop, probe_hardware, AdapterProbe, CpuProbe,
    DriveProbe, HardwareProbe,
};
use pieuvre::audit::network::{
    get_telemetry_domains, get_telemetry_ip_ranges, inspect_network, is_telemetry_domain,
};
use pieuvre::audit::registry::{DefenderStatus, FirewallStatus, UacStatus};
use pieuvre::audit::report::system_info;
use pieuvre::audit::security::{
    audit_security, check_bitlocker_status, count_by_severity, score_to_grade,
    SecurityRecommendation, Severity,
};
use pieuvre::audit::services::{
    categorize_service, get_active_telemetry_services, get_safe_to_disable, inspect_services,
    RawServiceEntry,
};
use pieuvre::common::types::{
    AppxCategory, GpuInfo, MemoryInfo, RemovalRisk, ServiceCategory, ServiceStartType, ServiceStatus,
};

/// Packs text into little-endian 32-bit registers, NUL-padded.
fn registers(text: &str, count: usize) -> Vec<u32> {
    let mut bytes: Vec<u8> = text.bytes().collect();
    bytes.resize(count * 4, 0);
    bytes
        .chunks(4)
        .map(|c| u32::from_le_bytes([c[0], c[1], c[2], c[3]]))
        .collect()
}

fn utf16z(text: &str) -> Vec<u16> {
    let mut v: Vec<u16> = text.encode_utf16().collect();
    v.push(0);
    v.push(0x41);
    v
}

fn intel_cpu() -> CpuProbe {
    let vendor = registers("GenuineIntel", 3);
    CpuProbe {
        vendor_ebx: vendor[0],
        vendor_edx: vendor[1],
        vendor_ecx: vendor[2],
        brand_registers: registers("  12th Gen Intel(R) Core(TM) i7-12700H", 12),
        efficiency_classes: vec![1, 1, 0, 0, 0],
        parallelism: Some(20),
    }
}

fn sample_machine() -> HardwareProbe {
    HardwareProbe {
        cpu: intel_cpu(),
        memory: MemoryInfo { total_bytes: 16 * 1024 * 1024 * 1024, available_bytes: 9 * 1024 * 1024 * 1024 },
        drives: vec![
            DriveProbe { letter: 'C', size_bytes: 512_000_000_000, seek_penalty_query: Some((12, 0)), bus_type: Some(17) },
            DriveProbe { letter: 'D', size_bytes: 2_000_000_000_000, seek_penalty_query: Some((12, 1)), bus_type: Some(11) },
        ],
        adapters: vec![
            AdapterProbe { description: utf16z("NVIDIA GeForce RTX 3070 "), vendor_id: 0x10DE, dedicated_video_memory: 8 << 30, flags: 0 },
            AdapterProbe { description: utf16z("Microsoft Basic Render Driver"), vendor_id: 0x1414, dedicated_video_memory: 0, flags: 2 },
        ],
        registry_gpus: vec![],
    }
}

fn healthy() -> (DefenderStatus, FirewallStatus, UacStatus) {
    (
        DefenderStatus {
            antispyware_enabled: true,
            realtime_protection: true,
            tamper_protection: true,
            sample_submission: 1,
            exclusion_paths: vec![],
        },
        FirewallStatus { domain_enabled: true, private_enabled: true, public_enabled: true },
        UacStatus { enabled: true, consent_prompt_behavior: 5, secure_desktop: true },
    )
}

fn weak() -> (DefenderStatus, FirewallStatus, UacStatus) {
    (
        DefenderStatus {
            antispyware_enabled: false,
            realtime_protection: false,
            tamper_protection: false,
            sample_submission: 3,
            exclusion_paths: (0..7).map(|i| format!("C:\\excluded{}", i)).collect(),
        },
        FirewallStatus { domain_enabled: false, private_enabled: false, public_enabled: false },
        UacStatus { enabled: false, consent_prompt_behavior: 0, secure_desktop: false },
    )
}

fn recommendation(severity: Severity) -> SecurityRecommendation {
    SecurityRecommendation {
        severity,
        category: "Test".into(),
        title: "Test".into(),
        description: "Test".into(),
        remediation: "Test".into(),
    }
}

#[test]
fn test_probe_hardware_returns_valid_data() {
    let hw = probe_hardware(sample_machine());
    assert!(hw.cpu.logical_cores >= 1, "Should have at least 1 logical core");
    assert!(!hw.cpu.vendor.is_empty(), "CPU vendor should not be empty");
    assert!(!hw.cpu.model_name.is_empty(), "CPU model_name should not be empty");
    assert!(hw.memory.total_bytes > 0, "Total RAM should be > 0");
    assert!(hw.memory.available_bytes > 0, "Available RAM should be > 0");
    assert!(hw.memory.available_bytes <= hw.memory.total_bytes, "Available <= Total");
}

#[test]
fn test_gpu_detection() {
    let hw = probe_hardware(sample_machine());
    for gpu in &hw.gpu {
        assert!(!gpu.name.is_empty(), "GPU name should not be empty");
        assert!(!gpu.vendor.is_empty(), "GPU vendor should not be empty");
    }
}

#[test]
fn test_storage_detection() {
    let hw = probe_hardware(sample_machine());
    assert!(!hw.storage.is_empty(), "Should detect at least one storage device");
    for drive in &hw.storage {
        assert!(!drive.device_id.is_empty(), "Device ID should not be empty");
    }
}

#[test]
fn test_audit_security() {
    let (d, f, u) = healthy();
    let audit = audit_security(d, f, u, true, false, true);
    assert!(audit.security_score <= 100, "Security score should be <= 100, got {}", audit.security_score);
}

#[test]
fn test_security_recommendations_valid() {
    let (d, f, u) = weak();
    let audit = audit_security(d, f, u, false, false, false);
    for rec in &audit.recommendations {
        assert!(!rec.title.is_empty(), "Recommendation title should not be empty");
        assert!(!rec.category.is_empty(), "Recommendation category should not be empty");
    }
}

#[test]
fn test_score_to_grade() {
    assert_eq!(score_to_grade(100), "A - Excellent");
    assert_eq!(score_to_grade(95), "A - Excellent");
    assert_eq!(score_to_grade(85), "B - Good");
    assert_eq!(score_to_grade(75), "C - Acceptable");
    assert_eq!(score_to_grade(65), "D - Needs Improvement");
    assert_eq!(score_to_grade(50), "F - Critical");
}

#[test]
fn test_count_by_severity() {
    let recs = vec![
        recommendation(Severity::Critical),
        recommendation(Severity::High),
        recommendation(Severity::Low),
    ];
    let (critical, high, medium, low) = count_by_severity(&recs);
    assert_eq!(critical, 1);
    assert_eq!(high, 1);
    assert_eq!(medium, 0);
    assert_eq!(low, 1);
}

#[test]
fn test_get_telemetry_domains() {
    let domains = get_telemetry_domains();
    assert!(!domains.is_empty(), "Should have telemetry domains list");
    assert!(domains.iter().any(|d: &&str| d.contains("microsoft.com")));
    assert!(domains.iter().any(|d: &&str| d.contains("telemetry")));
}

#[test]
fn test_get_telemetry_ip_ranges() {
    let ranges = get_telemetry_ip_ranges();
    assert!(!ranges.is_empty(), "Should have IP ranges list");
    for range in ranges {
        assert!(range.contains('/'), "IP range should be in CIDR format: {}", range);
    }
}

#[test]
fn test_is_telemetry_domain() {
    assert!(is_telemetry_domain("telemetry.microsoft.com"));
    assert!(is_telemetry_domain("vortex.data.microsoft.com"));
    assert!(!is_telemetry_domain("www.google.com"));
    assert!(!is_telemetry_domain("github.com"));
}

#[test]
fn cpu_record_decodes_vendor_brand_and_cores() {
    let hw = probe_hardware(sample_machine());
    assert_eq!(hw.cpu.vendor, "Intel");
    assert_eq!(hw.cpu.model_name, "12th Gen Intel(R) Core(TM) i7-12700H");
    assert_eq!(hw.cpu.logical_cores, 20);
    assert_eq!(hw.cpu.physical_cores, 5);
    assert_eq!(hw.cpu.p_cores, vec![0, 1]);
    assert_eq!(hw.cpu.e_cores, vec![2, 3, 4]);
    assert!(hw.cpu.is_hybrid);
}

#[test]
fn cpu_vendor_names() {
    assert_eq!(cpu_vendor_name(" AuthenticAMD "), "AMD");
    assert_eq!(cpu_vendor_name("GenuineIntel"), "Intel");
    assert_eq!(cpu_vendor_name("  VIA VIA VIA "), "VIA VIA VIA");
    assert_eq!(cpu_brand(&registers("AMD Ryzen 7 5800X   ", 12)), "AMD Ryzen 7 5800X");
}

#[test]
fn storage_records_follow_the_probes() {
    let hw = probe_hardware(sample_machine());
    assert_eq!(hw.storage.len(), 2);
    assert_eq!(hw.storage[0].device_id, "C:");
    assert_eq!(hw.storage[0].model, "Disk C:");
    assert!(hw.storage[0].is_ssd && hw.storage[0].is_nvme);
    assert_eq!(hw.storage[1].device_id, "D:");
    assert!(!hw.storage[1].is_ssd && !hw.storage[1].is_nvme);
    assert!(has_seek_penalty(None));
    assert!(has_seek_penalty(Some((0, 0))));
    assert!(!has_seek_penalty(Some((12, 0))));
    assert!(detect_nvme(Some(17)));
    assert!(!detect_nvme(None));
    assert_eq!(drive_letters(0b1101), vec!['A', 'C', 'D']);
}

#[test]
fn gpus_skip_software_adapters_and_fall_back_to_registry() {
    let hw = probe_hardware(sample_machine());
    assert_eq!(hw.gpu.len(), 1);
    assert_eq!(hw.gpu[0].name, "NVIDIA GeForce RTX 3070");
    assert_eq!(hw.gpu[0].vendor, "NVIDIA");
    assert_eq!(hw.gpu[0].vram_bytes, 8 << 30);
    let mut m = sample_machine();
    m.adapters.truncate(0);
    m.registry_gpus = vec![gpu_from_registry("  AMD Radeon RX 6800 ")];
    let hw = probe_hardware(m);
    assert_eq!(hw.gpu.len(), 1);
    assert_eq!(hw.gpu[0].name, "AMD Radeon RX 6800");
    assert_eq!(hw.gpu[0].vendor, "AMD");
    assert_eq!(hw.gpu[0].vram_bytes, 0);
    let _unused: Vec<GpuInfo> = vec![];
}

#[test]
fn gpu_vendors() {
    assert_eq!(detect_vendor_from_id(0x10DE), "NVIDIA");
    assert_eq!(detect_vendor_from_id(0x1002), "AMD");
    assert_eq!(detect_vendor_from_id(0x8086), "Intel");
    assert_eq!(detect_vendor_from_id(0x1414), "Microsoft");
    assert_eq!(detect_vendor_from_id(0x5143), "Qualcomm");
    assert_eq!(detect_vendor_from_id(0x1A), "Unknown (0x001A)");
    assert_eq!(gpu_vendor_from_name("GEFORCE by NVIDIA"), "NVIDIA");
    assert_eq!(gpu_vendor_from_name("Intel(R) UHD Graphics"), "Intel");
    assert_eq!(gpu_vendor_from_name("Matrox"), "Unknown");
}

#[test]
fn laptop_from_battery_flag() {
    assert!(is_laptop(Some(1)));
    assert!(is_laptop(Some(8)));
    assert!(!is_laptop(Some(128)));
    assert!(!is_laptop(Some(255)));
    assert!(!is_laptop(None));
}

#[test]
fn healthy_system_scores_full_marks() {
    let (d, f, u) = healthy();
    let audit = audit_security(d, f, u, true, true, true);
    assert_eq!(audit.security_score, 100);
    assert!(audit.recommendations.is_empty());
}

#[test]
fn weak_system_loses_every_penalty() {
    let (d, f, u) = weak();
    let audit = audit_security(d, f, u, false, false, false);
    // 25 + 20 + 10 + 5 + 15 + 10 + 15 + 5 + 10 = 115 points, capped at 0.
    assert_eq!(audit.security_score, 0);
    assert_eq!(audit.recommendations.len(), 11);
    assert_eq!(audit.recommendations[0].title, "Windows Defender disabled");
    assert_eq!(audit.recommendations[0].severity, Severity::Critical);
    let (c, h, m, l) = count_by_severity(&audit.recommendations);
    assert_eq!(c + h + m + l, audit.recommendations.len());
}

#[test]
fn one_weakness_takes_its_penalty() {
    let (d, f, mut u) = healthy();
    u.secure_desktop = false;
    let audit = audit_security(d, f, u, true, true, true);
    assert_eq!(audit.security_score, 95);
    assert_eq!(audit.recommendations.len(), 1);
}

#[test]
fn bitlocker_status_from_registry_values() {
    assert!(check_bitlocker_status(true, Some(1)));
    assert!(!check_bitlocker_status(true, Some(0)));
    assert!(!check_bitlocker_status(false, Some(1)));
    assert!(!check_bitlocker_status(true, None));
}

#[test]
fn packages_are_classified() {
    assert_eq!(package_name("Microsoft.BingNews_4.55.62231.0_x64__8wekyb3d8bbwe"), "Microsoft.BingNews");
    assert_eq!(categorize_package("Microsoft.XboxGamingOverlay"), AppxCategory::Gaming);
    assert_eq!(assess_removal_risk("Microsoft.WindowsStore"), RemovalRisk::Critical);
    let pkgs = scan_packages(&[
        "Microsoft.BingNews_4.55.62231.0_x64__8wekyb3d8bbwe".to_string(),
        "Microsoft.WindowsStore_22403.1401.0.0_x64__8wekyb3d8bbwe".to_string(),
    ]);
    assert_eq!(pkgs.len(), 2);
    assert_eq!(pkgs[0].name, "Microsoft.BingNews");
    let bloat = get_bloatware(&pkgs);
    for pkg in &bloat {
        assert!(matches!(pkg.removal_risk, RemovalRisk::Safe));
    }
    assert!(bloat.iter().all(|p| p.name != "Microsoft.WindowsStore"));
}

fn entry(name: &str, state: u32, start: Option<u32>) -> RawServiceEntry {
    RawServiceEntry {
        name: name.to_string(),
        display_name: format!("{} service", name),
        current_state: state,
        process_id: 1234,
        start_type_code: start,
    }
}

#[test]
fn services_are_decoded_and_filtered() {
    assert_eq!(categorize_service("DIAGTRACK"), ServiceCategory::Telemetry);
    let svcs = inspect_services(&[
        entry("DiagTrack", 4, Some(2)),
        entry("EventLog", 4, Some(2)),
        entry("dmwappushservice", 1, Some(3)),
    ]);
    assert_eq!(svcs.len(), 3);
    assert_eq!(svcs[0].status, ServiceStatus::Running);
    assert_eq!(svcs[0].start_type, ServiceStartType::Automatic);
    assert_eq!(svcs[0].pid, Some(1234));
    assert_eq!(svcs[2].pid, None);
    let active = get_active_telemetry_services(&svcs);
    assert_eq!(active.len(), 1);
    assert_eq!(active[0].name, "DiagTrack");
    for svc in get_safe_to_disable(&svcs) {
        assert!(svc.name != "EventLog");
    }
}

#[test]
fn network_endpoints_count_blocked_ones() {
    let n = get_telemetry_domains().len();
    let mut resolved: Vec<Vec<String>> = (0..n).map(|_| vec!["13.107.4.50".to_string()]).collect();
    resolved[0] = vec!["0.0.0.0".to_string()];
    resolved[1] = vec![];
    let status = inspect_network(resolved);
    assert_eq!(status.blocked_count, 2);
    assert_eq!(status.reachable_count, n - 2);
    assert_eq!(status.telemetry_endpoints.len(), n);
}

#[test]
fn configuration_drift_is_reported() {
    let ok = check_configuration_drift(Some(0x26), Some(10));
    assert!(ok.is_compliant);
    let drifted = check_configuration_drift(Some(0x3), None);
    assert!(!drifted.is_compliant);
    assert_eq!(drifted.drifts.len(), 1);
    assert_eq!(drifted.drifts[0].actual, "0x3");
}

#[test]
fn latency_monitor_keeps_maxima() {
    let mut m = LatencyMonitor::new();
    m.update_dpc(0x1000, 40);
    m.update_dpc(0x1000, 300);
    m.update_isr(0x2000, 700);
    assert_eq!(m.get_max_latency(), 700);
    let stats = EtwParser::new().get_stats(&m);
    assert_eq!(stats.len(), 2);
    let r = DriverResolver::new();
    let _name = r.resolve(0x1000);
}

#[test]
fn system_info_falls_back_to_defaults() {
    let s = system_info(None, Some("abc".to_string()), None);
    assert_eq!(s.os_version, "Windows 11");
    assert_eq!(s.build_number, 22631);
    assert_eq!(s.edition, "Pro");
    assert_eq!(s.hostname, "Unknown");
    let s = system_info(Some("Windows 11 Pro".to_string()), Some("26100".to_string()), Some("DESK".to_string()));
    assert_eq!(s.os_version, "Windows 11 Pro");
    assert_eq!(s.build_number, 26100);
    assert_eq!(s.hostname, "DESK");
}

#[test]
fn utf16_text_is_decoded_up_to_the_first_nul() {
    let units = [0x41u16, 0xD800, 0x42, 0xD83D, 0xDE00, 0xDC00, 0, 0x43];
    assert_eq!(decode_utf16_until_nul(&units), "A\u{FFFD}B\u{1F600}\u{FFFD}");
    assert_eq!(decode_utf16_until_nul(&[]), "");
}

#[test]
fn drivers_are_resolved_by_nearest_base_within_the_window() {
    let mut r = DriverResolver::new();
    assert_eq!(r.resolve(0x1000), "0x1000");
    r.refresh_from(&[
        (0x1000, "first.sys".to_string()),
        (0, "null.sys".to_string()),
        (0x9000, String::new()),
        (0x8000_0000, "second.sys".to_string()),
        (0x1000, "first_again.sys".to_string()),
    ]);
    assert_eq!(r.resolve(0x10), "0x10");
    assert_eq!(r.resolve(0x1000), "first_again.sys");
    assert_eq!(r.resolve(0x1000 + 52_428_799), "first_again.sys");
    assert_eq!(r.resolve(0x1000 + 52_428_800), "0x3201000");
    assert_eq!(r.resolve(0x9010), "first_again.sys");
    assert_eq!(r.resolve(0x8000_0010), "second.sys");
}

#[test]
fn latency_statistics_are_reported_per_routine() {
    let mut m = LatencyMonitor::new();
    m.update_dpc(0x1000, 40);
    m.update_dpc(0x1000, 300);
    m.update_isr(0x2000, 700);
    let s = m.stats_for(0x1000);
    assert_eq!((s.dpc_count, s.dpc_total_us, s.dpc_max_us), (2, 340, 300));
    assert_eq!(m.stats_for(0x3000).dpc_count, 0);
    let mut all = m.get_all_stats();
    all.sort_by(|a, b| a.0.cmp(&b.0));
    assert_eq!(all.len(), 2);
    assert_eq!(all[0].0, "0x1000");
    assert_eq!(all[0].1.dpc_max_us, 300);
    assert_eq!(all[1].0, "0x2000");
    assert_eq!(all[1].1.isr_max_us, 700);
}

#[test]
fn a_failed_driver_enumeration_keeps_the_known_drivers() {
    let mut r = DriverResolver::new();
    assert_eq!(r.refresh(Some(vec![(0x4000, "known.sys".to_string())])), Ok(()));
    assert_eq!(r.resolve(0x4010), "known.sys");
    assert_eq!(r.refresh(None), Err(RefreshError::EnumerationFailed));
    assert_eq!(r.resolve(0x4010), "known.sys");
    assert_eq!(r.refresh(Some(vec![(0x9000, "other.sys".to_string())])), Ok(()));
    assert_eq!(r.resolve(0x4010), "0x4010");
}

#[test]
fn telemetry_domains_match_in_any_case_and_inside_longer_names() {
    assert!(is_telemetry_domain("VORTEX.Data.Microsoft.COM"));
    assert!(is_telemetry_domain("eu.vortex.data.microsoft.com.cdn.example"));
    assert!(!is_telemetry_domain("VORTEX.example.COM"));
}
