//! The guided wizard: its option lists, section by section, what it runs for
//! each chosen option, and what it reports.
use crate::interactive::executor::PowerPlan;
use crate::text::same_text;
use vstd::prelude::*;

verus! {

/// An option of the wizard.
#[derive(Debug, Clone, Copy)]
pub struct WizardOption {
    pub id: &'static str,
    pub label: &'static str,
    pub default: bool,
}

/// The sections of the wizard, in the order it asks them.
#[derive(Debug, Clone, Copy, PartialEq, Eq, Structural)]
pub enum WizardSection {
    Telemetry,
    Privacy,
    Performance,
    Scheduler,
    Appx,
}

/// What the synchronisation engine does for a chosen option.
#[derive(Debug, Clone, Copy)]
pub enum WizardAction {
    /// Disable a service by name.
    DisableService(&'static str),
    /// Create telemetry block rules.
    CreateTelemetryBlockRules,
    /// Disable telemetry tasks.
    DisableTelemetryTasks,
    /// Add telemetry blocks.
    AddTelemetryBlocks,
    /// Uninstall OneDrive.
    UninstallOnedrive,
    /// Set telemetry level.
    SetTelemetryLevel(u32),
    /// Disable advertising id.
    DisableAdvertisingId,
    /// Disable location.
    DisableLocation,
    /// Disable activity history.
    DisableActivityHistory,
    /// Disable cortana.
    DisableCortana,
    /// Remove context menu clutter.
    RemoveContextMenuClutter,
    /// Disable widgets.
    DisableWidgets,
    /// Pause updates.
    PauseUpdates,
    /// Disable driver updates.
    DisableDriverUpdates,
    /// Disable recall.
    DisableRecall,
    /// Set group policy telemetry.
    SetGroupPolicyTelemetry(u32),
    /// Set timer resolution.
    SetTimerResolution(u32),
    /// Activate a power plan.
    SetPowerPlan(PowerPlan),
    /// Disable cpu throttling.
    DisableCpuThrottling,
    /// Apply the power settings that turn USB selective suspend off (no throttling, processor states at 100%).
    DisableUsbSelectiveSuspend,
    /// Turn on MSI mode for every eligible device.
    EnableMsiOnEligibleDevices,
    /// Disable edge.
    DisableEdge,
    /// Apply explorer tweaks.
    ApplyExplorerTweaks,
    /// Disable game bar.
    DisableGameBar,
    /// Disable fullscreen optimizations.
    DisableFullscreenOptimizations,
    /// Disable HAGS.
    DisableHags,
    /// Disable nagle algorithm.
    DisableNagleAlgorithm,
    /// Disable power throttling.
    DisablePowerThrottling,
    /// Set priority separation.
    SetPrioritySeparation(u32),
    /// Configure MMCSS gaming.
    ConfigureMmcssGaming,
    /// Configure games priority.
    ConfigureGamesPriority,
    /// Enable global timer resolution.
    EnableGlobalTimerResolution,
    /// Disable startup delay.
    DisableStartupDelay,
    /// Reduce shutdown timeout.
    ReduceShutdownTimeout,
    /// Remove bing apps.
    RemoveBingApps,
    /// Remove Microsoft productivity.
    RemoveMsProductivity,
    /// Remove Microsoft media.
    RemoveMsMedia,
    /// Remove Microsoft communication.
    RemoveMsCommunication,
    /// Remove Microsoft legacy.
    RemoveMsLegacy,
    /// Remove Microsoft tools.
    RemoveMsTools,
    /// Remove third party.
    RemoveThirdParty,
    /// Remove copilot.
    RemoveCopilot,
    /// Remove the Cortana application.
    RemoveCortanaApp,
    /// Remove xbox packages.
    RemoveXboxPackages,
}

/// One step of the wizard: the progress text it prints, whether it records
/// the service's start type for rollback first, and the action.
#[derive(Debug, Clone, Copy)]
pub struct WizardStep {
    pub progress: &'static str,
    pub captures_service: bool,
    pub action: WizardAction,
}

/// The step for option `id` of `section`, if the wizard has one.
pub open spec fn step_for(section: WizardSection, id: Seq<char>) -> Option<WizardStep> {
    match section {
        WizardSection::Telemetry => if id == "diagtrack"@ {
            Some(WizardStep { progress: "[*] DiagTrack... ", captures_service: true, action: WizardAction::DisableService("DiagTrack") })
        } else if id == "dmwappush"@ {
            Some(WizardStep { progress: "[*] dmwappushservice... ", captures_service: true, action: WizardAction::DisableService("dmwappushservice") })
        } else if id == "wersvc"@ {
            Some(WizardStep { progress: "[*] WerSvc... ", captures_service: true, action: WizardAction::DisableService("WerSvc") })
        } else if id == "wercplsupport"@ {
            Some(WizardStep { progress: "[*] wercplsupport... ", captures_service: true, action: WizardAction::DisableService("wercplsupport") })
        } else if id == "pcasvc"@ {
            Some(WizardStep { progress: "[*] PcaSvc... ", captures_service: true, action: WizardAction::DisableService("PcaSvc") })
        } else if id == "wdisystem"@ {
            Some(WizardStep { progress: "[*] WdiSystemHost... ", captures_service: true, action: WizardAction::DisableService("WdiSystemHost") })
        } else if id == "wdiservice"@ {
            Some(WizardStep { progress: "[*] WdiServiceHost... ", captures_service: true, action: WizardAction::DisableService("WdiServiceHost") })
        } else if id == "lfsvc"@ {
            Some(WizardStep { progress: "[*] lfsvc... ", captures_service: true, action: WizardAction::DisableService("lfsvc") })
        } else if id == "mapsbroker"@ {
            Some(WizardStep { progress: "[*] MapsBroker... ", captures_service: true, action: WizardAction::DisableService("MapsBroker") })
        } else if id == "firewall"@ {
            Some(WizardStep { progress: "[*] Firewall rules... ", captures_service: false, action: WizardAction::CreateTelemetryBlockRules })
        } else if id == "sched_tasks"@ {
            Some(WizardStep { progress: "[*] Scheduled Tasks... ", captures_service: false, action: WizardAction::DisableTelemetryTasks })
        } else if id == "hosts"@ {
            Some(WizardStep { progress: "[*] Hosts file... ", captures_service: false, action: WizardAction::AddTelemetryBlocks })
        } else if id == "onedrive"@ {
            Some(WizardStep { progress: "[*] OneDrive... ", captures_service: false, action: WizardAction::UninstallOnedrive })
        } else {
            None
        },
        WizardSection::Privacy => if id == "telemetry_level"@ {
            Some(WizardStep { progress: "[*] Telemetry Level 0... ", captures_service: false, action: WizardAction::SetTelemetryLevel(0) })
        } else if id == "advertising_id"@ {
            Some(WizardStep { progress: "[*] Advertising ID... ", captures_service: false, action: WizardAction::DisableAdvertisingId })
        } else if id == "location"@ {
            Some(WizardStep { progress: "[*] Location... ", captures_service: false, action: WizardAction::DisableLocation })
        } else if id == "activity_history"@ {
            Some(WizardStep { progress: "[*] Activity History... ", captures_service: false, action: WizardAction::DisableActivityHistory })
        } else if id == "cortana"@ {
            Some(WizardStep { progress: "[*] Cortana... ", captures_service: false, action: WizardAction::DisableCortana })
        } else if id == "context_menu"@ {
            Some(WizardStep { progress: "[*] Context Menu... ", captures_service: false, action: WizardAction::RemoveContextMenuClutter })
        } else if id == "widgets"@ {
            Some(WizardStep { progress: "[*] Widgets... ", captures_service: false, action: WizardAction::DisableWidgets })
        } else if id == "pause_updates"@ {
            Some(WizardStep { progress: "[*] Windows Updates... ", captures_service: false, action: WizardAction::PauseUpdates })
        } else if id == "driver_updates"@ {
            Some(WizardStep { progress: "[*] Driver Updates... ", captures_service: false, action: WizardAction::DisableDriverUpdates })
        } else if id == "recall"@ {
            Some(WizardStep { progress: "[*] Windows Recall... ", captures_service: false, action: WizardAction::DisableRecall })
        } else if id == "group_policy_telem"@ {
            Some(WizardStep { progress: "[*] Group Policy Telemetry... ", captures_service: false, action: WizardAction::SetGroupPolicyTelemetry(0) })
        } else {
            None
        },
        WizardSection::Performance => if id == "timer"@ {
            Some(WizardStep { progress: "[*] Timer Resolution... ", captures_service: false, action: WizardAction::SetTimerResolution(5000) })
        } else if id == "power_ultimate"@ {
            Some(WizardStep { progress: "[*] Power Plan Ultimate... ", captures_service: false, action: WizardAction::SetPowerPlan(PowerPlan::UltimatePerformance) })
        } else if id == "power_high"@ {
            Some(WizardStep { progress: "[*] Power Plan High... ", captures_service: false, action: WizardAction::SetPowerPlan(PowerPlan::HighPerformance) })
        } else if id == "cpu_throttle"@ {
            Some(WizardStep { progress: "[*] CPU Throttling disable... ", captures_service: false, action: WizardAction::DisableCpuThrottling })
        } else if id == "usb_suspend"@ {
            Some(WizardStep { progress: "[*] USB Selective Suspend disable... ", captures_service: false, action: WizardAction::DisableUsbSelectiveSuspend })
        } else if id == "msi"@ {
            Some(WizardStep { progress: "[*] MSI Mode... ", captures_service: false, action: WizardAction::EnableMsiOnEligibleDevices })
        } else if id == "sysmain"@ {
            Some(WizardStep { progress: "[*] SysMain... ", captures_service: false, action: WizardAction::DisableService("SysMain") })
        } else if id == "wsearch"@ {
            Some(WizardStep { progress: "[*] WSearch... ", captures_service: false, action: WizardAction::DisableService("WSearch") })
        } else if id == "edge_disable"@ {
            Some(WizardStep { progress: "[*] Edge features... ", captures_service: false, action: WizardAction::DisableEdge })
        } else if id == "explorer_tweaks"@ {
            Some(WizardStep { progress: "[*] Explorer tweaks... ", captures_service: false, action: WizardAction::ApplyExplorerTweaks })
        } else if id == "game_bar"@ {
            Some(WizardStep { progress: "[*] Game Bar... ", captures_service: false, action: WizardAction::DisableGameBar })
        } else if id == "fullscreen_opt"@ {
            Some(WizardStep { progress: "[*] Fullscreen Optimizations... ", captures_service: false, action: WizardAction::DisableFullscreenOptimizations })
        } else if id == "hags"@ {
            Some(WizardStep { progress: "[*] HAGS... ", captures_service: false, action: WizardAction::DisableHags })
        } else if id == "nagle"@ {
            Some(WizardStep { progress: "[*] Nagle Algorithm... ", captures_service: false, action: WizardAction::DisableNagleAlgorithm })
        } else if id == "power_throttle"@ {
            Some(WizardStep { progress: "[*] Power Throttling... ", captures_service: false, action: WizardAction::DisablePowerThrottling })
        } else {
            None
        },
        WizardSection::Scheduler => if id == "priority_sep"@ {
            Some(WizardStep { progress: "[*] Win32PrioritySeparation... ", captures_service: false, action: WizardAction::SetPrioritySeparation(0x26) })
        } else if id == "mmcss"@ {
            Some(WizardStep { progress: "[*] MMCSS Gaming... ", captures_service: false, action: WizardAction::ConfigureMmcssGaming })
        } else if id == "games_priority"@ {
            Some(WizardStep { progress: "[*] Games Priority... ", captures_service: false, action: WizardAction::ConfigureGamesPriority })
        } else if id == "global_timer"@ {
            Some(WizardStep { progress: "[*] Global Timer Resolution... ", captures_service: false, action: WizardAction::EnableGlobalTimerResolution })
        } else if id == "startup_delay"@ {
            Some(WizardStep { progress: "[*] Startup Delay... ", captures_service: false, action: WizardAction::DisableStartupDelay })
        } else if id == "shutdown_timeout"@ {
            Some(WizardStep { progress: "[*] Shutdown Timeout... ", captures_service: false, action: WizardAction::ReduceShutdownTimeout })
        } else {
            None
        },
        WizardSection::Appx => if id == "bing_apps"@ {
            Some(WizardStep { progress: "[*] Bing apps... ", captures_service: false, action: WizardAction::RemoveBingApps })
        } else if id == "ms_productivity"@ {
            Some(WizardStep { progress: "[*] Productivity apps... ", captures_service: false, action: WizardAction::RemoveMsProductivity })
        } else if id == "ms_media"@ {
            Some(WizardStep { progress: "[*] Media apps... ", captures_service: false, action: WizardAction::RemoveMsMedia })
        } else if id == "ms_communication"@ {
            Some(WizardStep { progress: "[*] Communication apps... ", captures_service: false, action: WizardAction::RemoveMsCommunication })
        } else if id == "ms_legacy"@ {
            Some(WizardStep { progress: "[*] Legacy apps... ", captures_service: false, action: WizardAction::RemoveMsLegacy })
        } else if id == "ms_tools"@ {
            Some(WizardStep { progress: "[*] MS Tools... ", captures_service: false, action: WizardAction::RemoveMsTools })
        } else if id == "third_party"@ {
            Some(WizardStep { progress: "[*] Third-party apps... ", captures_service: false, action: WizardAction::RemoveThirdParty })
        } else if id == "copilot"@ {
            Some(WizardStep { progress: "[*] Copilot... ", captures_service: false, action: WizardAction::RemoveCopilot })
        } else if id == "cortana"@ {
            Some(WizardStep { progress: "[*] Cortana... ", captures_service: false, action: WizardAction::RemoveCortanaApp })
        } else if id == "xbox"@ {
            Some(WizardStep { progress: "[*] Xbox apps... ", captures_service: false, action: WizardAction::RemoveXboxPackages })
        } else {
            None
        },
    }
}

/// The step for option `id` of `section`, if the wizard has one.
pub fn wizard_step(section: WizardSection, id: &str) -> (r: Option<WizardStep>)
    ensures
        r == step_for(section, id@),
{
    match section {
        WizardSection::Telemetry => if same_text(id, "diagtrack") {
            Some(WizardStep { progress: "[*] DiagTrack... ", captures_service: true, action: WizardAction::DisableService("DiagTrack") })
        } else if same_text(id, "dmwappush") {
            Some(WizardStep { progress: "[*] dmwappushservice... ", captures_service: true, action: WizardAction::DisableService("dmwappushservice") })
        } else if same_text(id, "wersvc") {
            Some(WizardStep { progress: "[*] WerSvc... ", captures_service: true, action: WizardAction::DisableService("WerSvc") })
        } else if same_text(id, "wercplsupport") {
            Some(WizardStep { progress: "[*] wercplsupport... ", captures_service: true, action: WizardAction::DisableService("wercplsupport") })
        } else if same_text(id, "pcasvc") {
            Some(WizardStep { progress: "[*] PcaSvc... ", captures_service: true, action: WizardAction::DisableService("PcaSvc") })
        } else if same_text(id, "wdisystem") {
            Some(WizardStep { progress: "[*] WdiSystemHost... ", captures_service: true, action: WizardAction::DisableService("WdiSystemHost") })
        } else if same_text(id, "wdiservice") {
            Some(WizardStep { progress: "[*] WdiServiceHost... ", captures_service: true, action: WizardAction::DisableService("WdiServiceHost") })
        } else if same_text(id, "lfsvc") {
            Some(WizardStep { progress: "[*] lfsvc... ", captures_service: true, action: WizardAction::DisableService("lfsvc") })
        } else if same_text(id, "mapsbroker") {
            Some(WizardStep { progress: "[*] MapsBroker... ", captures_service: true, action: WizardAction::DisableService("MapsBroker") })
        } else if same_text(id, "firewall") {
            Some(WizardStep { progress: "[*] Firewall rules... ", captures_service: false, action: WizardAction::CreateTelemetryBlockRules })
        } else if same_text(id, "sched_tasks") {
            Some(WizardStep { progress: "[*] Scheduled Tasks... ", captures_service: false, action: WizardAction::DisableTelemetryTasks })
        } else if same_text(id, "hosts") {
            Some(WizardStep { progress: "[*] Hosts file... ", captures_service: false, action: WizardAction::AddTelemetryBlocks })
        } else if same_text(id, "onedrive") {
            Some(WizardStep { progress: "[*] OneDrive... ", captures_service: false, action: WizardAction::UninstallOnedrive })
        } else {
            None
        },
        WizardSection::Privacy => if same_text(id, "telemetry_level") {
            Some(WizardStep { progress: "[*] Telemetry Level 0... ", captures_service: false, action: WizardAction::SetTelemetryLevel(0) })
        } else if same_text(id, "advertising_id") {
            Some(WizardStep { progress: "[*] Advertising ID... ", captures_service: false, action: WizardAction::DisableAdvertisingId })
        } else if same_text(id, "location") {
            Some(WizardStep { progress: "[*] Location... ", captures_service: false, action: WizardAction::DisableLocation })
        } else if same_text(id, "activity_history") {
            Some(WizardStep { progress: "[*] Activity History... ", captures_service: false, action: WizardAction::DisableActivityHistory })
        } else if same_text(id, "cortana") {
            Some(WizardStep { progress: "[*] Cortana... ", captures_service: false, action: WizardAction::DisableCortana })
        } else if same_text(id, "context_menu") {
            Some(WizardStep { progress: "[*] Context Menu... ", captures_service: false, action: WizardAction::RemoveContextMenuClutter })
        } else if same_text(id, "widgets") {
            Some(WizardStep { progress: "[*] Widgets... ", captures_service: false, action: WizardAction::DisableWidgets })
        } else if same_text(id, "pause_updates") {
            Some(WizardStep { progress: "[*] Windows Updates... ", captures_service: false, action: WizardAction::PauseUpdates })
        } else if same_text(id, "driver_updates") {
            Some(WizardStep { progress: "[*] Driver Updates... ", captures_service: false, action: WizardAction::DisableDriverUpdates })
        } else if same_text(id, "recall") {
            Some(WizardStep { progress: "[*] Windows Recall... ", captures_service: false, action: WizardAction::DisableRecall })
        } else if same_text(id, "group_policy_telem") {
            Some(WizardStep { progress: "[*] Group Policy Telemetry... ", captures_service: false, action: WizardAction::SetGroupPolicyTelemetry(0) })
        } else {
            None
        },
        WizardSection::Performance => if same_text(id, "timer") {
            Some(WizardStep { progress: "[*] Timer Resolution... ", captures_service: false, action: WizardAction::SetTimerResolution(5000) })
        } else if same_text(id, "power_ultimate") {
            Some(WizardStep { progress: "[*] Power Plan Ultimate... ", captures_service: false, action: WizardAction::SetPowerPlan(PowerPlan::UltimatePerformance) })
        } else if same_text(id, "power_high") {
            Some(WizardStep { progress: "[*] Power Plan High... ", captures_service: false, action: WizardAction::SetPowerPlan(PowerPlan::HighPerformance) })
        } else if same_text(id, "cpu_throttle") {
            Some(WizardStep { progress: "[*] CPU Throttling disable... ", captures_service: false, action: WizardAction::DisableCpuThrottling })
        } else if same_text(id, "usb_suspend") {
            Some(WizardStep { progress: "[*] USB Selective Suspend disable... ", captures_service: false, action: WizardAction::DisableUsbSelectiveSuspend })
        } else if same_text(id, "msi") {
            Some(WizardStep { progress: "[*] MSI Mode... ", captures_service: false, action: WizardAction::EnableMsiOnEligibleDevices })
        } else if same_text(id, "sysmain") {
            Some(WizardStep { progress: "[*] SysMain... ", captures_service: false, action: WizardAction::DisableService("SysMain") })
        } else if same_text(id, "wsearch") {
            Some(WizardStep { progress: "[*] WSearch... ", captures_service: false, action: WizardAction::DisableService("WSearch") })
        } else if same_text(id, "edge_disable") {
            Some(WizardStep { progress: "[*] Edge features... ", captures_service: false, action: WizardAction::DisableEdge })
        } else if same_text(id, "explorer_tweaks") {
            Some(WizardStep { progress: "[*] Explorer tweaks... ", captures_service: false, action: WizardAction::ApplyExplorerTweaks })
        } else if same_text(id, "game_bar") {
            Some(WizardStep { progress: "[*] Game Bar... ", captures_service: false, action: WizardAction::DisableGameBar })
        } else if same_text(id, "fullscreen_opt") {
            Some(WizardStep { progress: "[*] Fullscreen Optimizations... ", captures_service: false, action: WizardAction::DisableFullscreenOptimizations })
        } else if same_text(id, "hags") {
            Some(WizardStep { progress: "[*] HAGS... ", captures_service: false, action: WizardAction::DisableHags })
        } else if same_text(id, "nagle") {
            Some(WizardStep { progress: "[*] Nagle Algorithm... ", captures_service: false, action: WizardAction::DisableNagleAlgorithm })
        } else if same_text(id, "power_throttle") {
            Some(WizardStep { progress: "[*] Power Throttling... ", captures_service: false, action: WizardAction::DisablePowerThrottling })
        } else {
            None
        },
        WizardSection::Scheduler => if same_text(id, "priority_sep") {
            Some(WizardStep { progress: "[*] Win32PrioritySeparation... ", captures_service: false, action: WizardAction::SetPrioritySeparation(0x26) })
        } else if same_text(id, "mmcss") {
            Some(WizardStep { progress: "[*] MMCSS Gaming... ", captures_service: false, action: WizardAction::ConfigureMmcssGaming })
        } else if same_text(id, "games_priority") {
            Some(WizardStep { progress: "[*] Games Priority... ", captures_service: false, action: WizardAction::ConfigureGamesPriority })
        } else if same_text(id, "global_timer") {
            Some(WizardStep { progress: "[*] Global Timer Resolution... ", captures_service: false, action: WizardAction::EnableGlobalTimerResolution })
        } else if same_text(id, "startup_delay") {
            Some(WizardStep { progress: "[*] Startup Delay... ", captures_service: false, action: WizardAction::DisableStartupDelay })
        } else if same_text(id, "shutdown_timeout") {
            Some(WizardStep { progress: "[*] Shutdown Timeout... ", captures_service: false, action: WizardAction::ReduceShutdownTimeout })
        } else {
            None
        },
        WizardSection::Appx => if same_text(id, "bing_apps") {
            Some(WizardStep { progress: "[*] Bing apps... ", captures_service: false, action: WizardAction::RemoveBingApps })
        } else if same_text(id, "ms_productivity") {
            Some(WizardStep { progress: "[*] Productivity apps... ", captures_service: false, action: WizardAction::RemoveMsProductivity })
        } else if same_text(id, "ms_media") {
            Some(WizardStep { progress: "[*] Media apps... ", captures_service: false, action: WizardAction::RemoveMsMedia })
        } else if same_text(id, "ms_communication") {
            Some(WizardStep { progress: "[*] Communication apps... ", captures_service: false, action: WizardAction::RemoveMsCommunication })
        } else if same_text(id, "ms_legacy") {
            Some(WizardStep { progress: "[*] Legacy apps... ", captures_service: false, action: WizardAction::RemoveMsLegacy })
        } else if same_text(id, "ms_tools") {
            Some(WizardStep { progress: "[*] MS Tools... ", captures_service: false, action: WizardAction::RemoveMsTools })
        } else if same_text(id, "third_party") {
            Some(WizardStep { progress: "[*] Third-party apps... ", captures_service: false, action: WizardAction::RemoveThirdParty })
        } else if same_text(id, "copilot") {
            Some(WizardStep { progress: "[*] Copilot... ", captures_service: false, action: WizardAction::RemoveCopilot })
        } else if same_text(id, "cortana") {
            Some(WizardStep { progress: "[*] Cortana... ", captures_service: false, action: WizardAction::RemoveCortanaApp })
        } else if same_text(id, "xbox") {
            Some(WizardStep { progress: "[*] Xbox apps... ", captures_service: false, action: WizardAction::RemoveXboxPackages })
        } else {
            None
        },
    }
}

/// The telemetry services that the wizard offers to disable.
pub open spec fn telemetry_service_entries() -> Seq<WizardOption> {
    seq![
        WizardOption { id: "diagtrack", label: "[SAFE] DiagTrack - Telemetrie principale", default: true },
        WizardOption { id: "dmwappush", label: "[SAFE] dmwappushservice - Push WAP", default: true },
        WizardOption { id: "wersvc", label: "[SAFE] WerSvc - Windows Error Reporting", default: true },
        WizardOption { id: "wercplsupport", label: "[SAFE] wercplsupport - Error Reports support", default: true },
        WizardOption { id: "pcasvc", label: "[SAFE] PcaSvc - Program Compatibility", default: false },
        WizardOption { id: "wdisystem", label: "[SAFE] WdiSystemHost - Diagnostic Host", default: false },
        WizardOption { id: "wdiservice", label: "[SAFE] WdiServiceHost - Diagnostic Service", default: false },
        WizardOption { id: "lfsvc", label: "[COND] lfsvc - Geolocation", default: true },
        WizardOption { id: "mapsbroker", label: "[SAFE] MapsBroker - Maps download", default: true },
        WizardOption { id: "firewall", label: "[SAFE] Firewall - Bloquer 47 domaines telemetrie", default: true },
        WizardOption { id: "sched_tasks", label: "[SAFE] Scheduled Tasks - Desactiver 25 taches telemetrie", default: true },
        WizardOption { id: "hosts", label: "[SAFE] Hosts file - Bloquer 50+ domaines DNS natif", default: false },
        WizardOption { id: "onedrive", label: "[COND] OneDrive - Desinstaller completement", default: false },
    ]
}

/// The telemetry services that the wizard offers to disable.
pub fn telemetry_services() -> (r: Vec<WizardOption>)
    ensures
        r@ == telemetry_service_entries(),
{
    let r = vec![
        WizardOption { id: "diagtrack", label: "[SAFE] DiagTrack - Telemetrie principale", default: true },
        WizardOption { id: "dmwappush", label: "[SAFE] dmwappushservice - Push WAP", default: true },
        WizardOption { id: "wersvc", label: "[SAFE] WerSvc - Windows Error Reporting", default: true },
        WizardOption { id: "wercplsupport", label: "[SAFE] wercplsupport - Error Reports support", default: true },
        WizardOption { id: "pcasvc", label: "[SAFE] PcaSvc - Program Compatibility", default: false },
        WizardOption { id: "wdisystem", label: "[SAFE] WdiSystemHost - Diagnostic Host", default: false },
        WizardOption { id: "wdiservice", label: "[SAFE] WdiServiceHost - Diagnostic Service", default: false },
        WizardOption { id: "lfsvc", label: "[COND] lfsvc - Geolocation", default: true },
        WizardOption { id: "mapsbroker", label: "[SAFE] MapsBroker - Maps download", default: true },
        WizardOption { id: "firewall", label: "[SAFE] Firewall - Bloquer 47 domaines telemetrie", default: true },
        WizardOption { id: "sched_tasks", label: "[SAFE] Scheduled Tasks - Desactiver 25 taches telemetrie", default: true },
        WizardOption { id: "hosts", label: "[SAFE] Hosts file - Bloquer 50+ domaines DNS natif", default: false },
        WizardOption { id: "onedrive", label: "[COND] OneDrive - Desinstaller completement", default: false },
    ];
    assert(r@ =~= telemetry_service_entries());
    r
}

/// The privacy settings that the wizard offers.
pub open spec fn privacy_entries() -> Seq<WizardOption> {
    seq![
        WizardOption { id: "telemetry_level", label: "[SAFE] Telemetry Level 0 (Security only)", default: true },
        WizardOption { id: "advertising_id", label: "[SAFE] Desactiver Advertising ID", default: true },
        WizardOption { id: "location", label: "[SAFE] Desactiver Localisation", default: true },
        WizardOption { id: "activity_history", label: "[SAFE] Desactiver Historique activite", default: true },
        WizardOption { id: "cortana", label: "[SAFE] Desactiver Cortana", default: true },
        WizardOption { id: "context_menu", label: "[SAFE] Classic context menu + nettoyer clutter", default: true },
        WizardOption { id: "widgets", label: "[SAFE] Desactiver Widgets Win11", default: true },
        WizardOption { id: "pause_updates", label: "[COND] Pause Windows Updates 35 jours", default: false },
        WizardOption { id: "driver_updates", label: "[COND] Desactiver maj drivers auto", default: false },
        WizardOption { id: "recall", label: "[SAFE] Bloquer Windows Recall (24H2 AI)", default: true },
        WizardOption { id: "group_policy_telem", label: "[SAFE] Group Policy Telemetry (enterprise)", default: true },
    ]
}

/// The privacy settings that the wizard offers.
pub fn privacy_options() -> (r: Vec<WizardOption>)
    ensures
        r@ == privacy_entries(),
{
    let r = vec![
        WizardOption { id: "telemetry_level", label: "[SAFE] Telemetry Level 0 (Security only)", default: true },
        WizardOption { id: "advertising_id", label: "[SAFE] Desactiver Advertising ID", default: true },
        WizardOption { id: "location", label: "[SAFE] Desactiver Localisation", default: true },
        WizardOption { id: "activity_history", label: "[SAFE] Desactiver Historique activite", default: true },
        WizardOption { id: "cortana", label: "[SAFE] Desactiver Cortana", default: true },
        WizardOption { id: "context_menu", label: "[SAFE] Classic context menu + nettoyer clutter", default: true },
        WizardOption { id: "widgets", label: "[SAFE] Desactiver Widgets Win11", default: true },
        WizardOption { id: "pause_updates", label: "[COND] Pause Windows Updates 35 jours", default: false },
        WizardOption { id: "driver_updates", label: "[COND] Desactiver maj drivers auto", default: false },
        WizardOption { id: "recall", label: "[SAFE] Bloquer Windows Recall (24H2 AI)", default: true },
        WizardOption { id: "group_policy_telem", label: "[SAFE] Group Policy Telemetry (enterprise)", default: true },
    ];
    assert(r@ =~= privacy_entries());
    r
}

/// The performance settings that the wizard offers; on a laptop the timer and
/// power plan entries warn about the battery.
pub open spec fn performance_entries(laptop: bool) -> Seq<WizardOption> {
    (if laptop {
        seq![
            WizardOption { id: "timer", label: "[WARN][LAPTOP] Timer 0.5ms - +25% conso batterie", default: false },
        ]
    } else {
        seq![
            WizardOption { id: "timer", label: "[SAFE] Timer 0.5ms - Latence reduite (gaming)", default: true },
        ]
    })
    + (if laptop {
        seq![
            WizardOption { id: "power_ultimate", label: "[WARN][LAPTOP] Ultimate Performance - Usure batterie", default: false },
            WizardOption { id: "power_high", label: "[SAFE] High Performance - Recommande laptop", default: true },
        ]
    } else {
        seq![
            WizardOption { id: "power_ultimate", label: "[SAFE] Ultimate Performance - Max performance desktop", default: true },
        ]
    })
    + seq![
        WizardOption { id: "cpu_throttle", label: "[PERF] Desactiver CPU Throttling", default: true },
        WizardOption { id: "usb_suspend", label: "[PERF] Desactiver USB Selective Suspend", default: true },
        WizardOption { id: "msi", label: "[SAFE] Activer MSI Mode GPU/NVMe", default: true },
        WizardOption { id: "sysmain", label: "[SAFE] Desactiver SysMain (SSD recommande)", default: true },
        WizardOption { id: "wsearch", label: "[COND] Desactiver WSearch - Recherche plus lente", default: false },
        WizardOption { id: "edge_disable", label: "[SAFE] Desactiver features Edge (sidebar, DVR, shopping)", default: true },
        WizardOption { id: "explorer_tweaks", label: "[SAFE] Explorer tweaks (extensions, This PC, no recent)", default: true },
        WizardOption { id: "game_bar", label: "[SAFE] Desactiver Game Bar/DVR (alt+tab plus rapide)", default: true },
        WizardOption { id: "fullscreen_opt", label: "[PERF] Desactiver Fullscreen Optimizations", default: true },
        WizardOption { id: "hags", label: "[COND] Desactiver HAGS (meilleur pour anciens jeux)", default: false },
        WizardOption { id: "nagle", label: "[PERF] Desactiver Nagle Algorithm (latence reseau)", default: true },
        WizardOption { id: "power_throttle", label: "[PERF] Desactiver CPU Power Throttling", default: true },
    ]
}

/// The performance settings that the wizard offers; on a laptop the timer and
/// power plan entries warn about the battery.
pub fn performance_options(laptop: bool) -> (r: Vec<WizardOption>)
    ensures
        r@ == performance_entries(laptop),
{
    let mut perf_options: Vec<WizardOption> = Vec::new();
    if laptop {
        perf_options.push(WizardOption { id: "timer", label: "[WARN][LAPTOP] Timer 0.5ms - +25% conso batterie", default: false });
    } else {
        perf_options.push(WizardOption { id: "timer", label: "[SAFE] Timer 0.5ms - Latence reduite (gaming)", default: true });
    }
    if laptop {
        perf_options.push(WizardOption { id: "power_ultimate", label: "[WARN][LAPTOP] Ultimate Performance - Usure batterie", default: false });
        perf_options.push(WizardOption { id: "power_high", label: "[SAFE] High Performance - Recommande laptop", default: true });
    } else {
        perf_options.push(WizardOption { id: "power_ultimate", label: "[SAFE] Ultimate Performance - Max performance desktop", default: true });
    }
    perf_options.push(WizardOption { id: "cpu_throttle", label: "[PERF] Desactiver CPU Throttling", default: true });
    perf_options.push(WizardOption { id: "usb_suspend", label: "[PERF] Desactiver USB Selective Suspend", default: true });
    perf_options.push(WizardOption { id: "msi", label: "[SAFE] Activer MSI Mode GPU/NVMe", default: true });
    perf_options.push(WizardOption { id: "sysmain", label: "[SAFE] Desactiver SysMain (SSD recommande)", default: true });
    perf_options.push(WizardOption { id: "wsearch", label: "[COND] Desactiver WSearch - Recherche plus lente", default: false });
    perf_options.push(WizardOption { id: "edge_disable", label: "[SAFE] Desactiver features Edge (sidebar, DVR, shopping)", default: true });
    perf_options.push(WizardOption { id: "explorer_tweaks", label: "[SAFE] Explorer tweaks (extensions, This PC, no recent)", default: true });
    perf_options.push(WizardOption { id: "game_bar", label: "[SAFE] Desactiver Game Bar/DVR (alt+tab plus rapide)", default: true });
    perf_options.push(WizardOption { id: "fullscreen_opt", label: "[PERF] Desactiver Fullscreen Optimizations", default: true });
    perf_options.push(WizardOption { id: "hags", label: "[COND] Desactiver HAGS (meilleur pour anciens jeux)", default: false });
    perf_options.push(WizardOption { id: "nagle", label: "[PERF] Desactiver Nagle Algorithm (latence reseau)", default: true });
    perf_options.push(WizardOption { id: "power_throttle", label: "[PERF] Desactiver CPU Power Throttling", default: true });
    assert(perf_options@ =~= performance_entries(laptop));
    perf_options
}

/// The scheduler settings that the wizard offers.
pub open spec fn scheduler_entries() -> Seq<WizardOption> {
    seq![
        WizardOption { id: "priority_sep", label: "[SAFE] Win32PrioritySeparation 0x26 - Short quantum, foreground boost", default: true },
        WizardOption { id: "mmcss", label: "[SAFE] MMCSS Gaming - SystemResponsiveness 10%, Network throttling OFF", default: true },
        WizardOption { id: "games_priority", label: "[SAFE] GPU Priority 8, Task Priority 6 - Gaming boost", default: true },
        WizardOption { id: "global_timer", label: "[PERF] Timer resolution permanente - Reboot recommande", default: false },
        WizardOption { id: "startup_delay", label: "[SAFE] Desactiver delai startup apps", default: true },
        WizardOption { id: "shutdown_timeout", label: "[SAFE] Shutdown rapide (2s timeout)", default: true },
    ]
}

/// The scheduler settings that the wizard offers.
pub fn scheduler_options() -> (r: Vec<WizardOption>)
    ensures
        r@ == scheduler_entries(),
{
    let r = vec![
        WizardOption { id: "priority_sep", label: "[SAFE] Win32PrioritySeparation 0x26 - Short quantum, foreground boost", default: true },
        WizardOption { id: "mmcss", label: "[SAFE] MMCSS Gaming - SystemResponsiveness 10%, Network throttling OFF", default: true },
        WizardOption { id: "games_priority", label: "[SAFE] GPU Priority 8, Task Priority 6 - Gaming boost", default: true },
        WizardOption { id: "global_timer", label: "[PERF] Timer resolution permanente - Reboot recommande", default: false },
        WizardOption { id: "startup_delay", label: "[SAFE] Desactiver delai startup apps", default: true },
        WizardOption { id: "shutdown_timeout", label: "[SAFE] Shutdown rapide (2s timeout)", default: true },
    ];
    assert(r@ =~= scheduler_entries());
    r
}

/// The application groups that the wizard offers to remove.
pub open spec fn appx_entries() -> Seq<WizardOption> {
    seq![
        WizardOption { id: "bing_apps", label: "[SAFE] Apps Bing (News, Weather, Finance, Sports, Search)", default: true },
        WizardOption { id: "ms_productivity", label: "[SAFE] Apps productivite (Todos, People, OfficeHub)", default: true },
        WizardOption { id: "ms_media", label: "[SAFE] Apps media (ZuneMusic, ZuneVideo, Clipchamp)", default: true },
        WizardOption { id: "ms_communication", label: "[COND] Mail/Calendar, Skype, Teams - Attention si utilises", default: false },
        WizardOption { id: "ms_legacy", label: "[SAFE] Apps legacy (Paint3D, 3DBuilder, Print3D, MixedReality)", default: true },
        WizardOption { id: "ms_tools", label: "[SAFE] Outils (FeedbackHub, GetHelp, GetStarted, QuickAssist)", default: true },
        WizardOption { id: "third_party", label: "[SAFE] Third-party (Spotify, Disney+, CandyCrush, Facebook)", default: true },
        WizardOption { id: "copilot", label: "[COND] Microsoft Copilot - Desactiver AI integree", default: false },
        WizardOption { id: "cortana", label: "[SAFE] Cortana", default: true },
        WizardOption { id: "xbox", label: "[COND] Xbox apps (attention Game Pass)", default: false },
    ]
}

/// The application groups that the wizard offers to remove.
pub fn appx_options() -> (r: Vec<WizardOption>)
    ensures
        r@ == appx_entries(),
{
    let r = vec![
        WizardOption { id: "bing_apps", label: "[SAFE] Apps Bing (News, Weather, Finance, Sports, Search)", default: true },
        WizardOption { id: "ms_productivity", label: "[SAFE] Apps productivite (Todos, People, OfficeHub)", default: true },
        WizardOption { id: "ms_media", label: "[SAFE] Apps media (ZuneMusic, ZuneVideo, Clipchamp)", default: true },
        WizardOption { id: "ms_communication", label: "[COND] Mail/Calendar, Skype, Teams - Attention si utilises", default: false },
        WizardOption { id: "ms_legacy", label: "[SAFE] Apps legacy (Paint3D, 3DBuilder, Print3D, MixedReality)", default: true },
        WizardOption { id: "ms_tools", label: "[SAFE] Outils (FeedbackHub, GetHelp, GetStarted, QuickAssist)", default: true },
        WizardOption { id: "third_party", label: "[SAFE] Third-party (Spotify, Disney+, CandyCrush, Facebook)", default: true },
        WizardOption { id: "copilot", label: "[COND] Microsoft Copilot - Desactiver AI integree", default: false },
        WizardOption { id: "cortana", label: "[SAFE] Cortana", default: true },
        WizardOption { id: "xbox", label: "[COND] Xbox apps (attention Game Pass)", default: false },
    ];
    assert(r@ =~= appx_entries());
    r
}

/// The labels of the options at the chosen indices, in the order chosen.
pub fn selected_labels(options: &[WizardOption], selected: &[usize]) -> (r: Vec<&'static str>)
    requires
        forall|k: int| 0 <= k < selected@.len() ==> (#[trigger] selected@[k]) < options@.len(),
    ensures
        r@ == selected@.map_values(|i: usize| options@[i as int].label),
{
    let mut r: Vec<&'static str> = Vec::new();
    let mut k: usize = 0;
    while k < selected.len()
        invariant
            forall|k: int| 0 <= k < selected@.len() ==> (#[trigger] selected@[k]) < options@.len(),
            k <= selected@.len(),
            r@ == selected@.take(k as int).map_values(|i: usize| options@[i as int].label),
        decreases selected.len() - k,
    {
        r.push(options[selected[k]].label);
        assert(selected@.take(k + 1).map_values(|i: usize| options@[i as int].label) =~= selected@.take(
            k as int,
        ).map_values(|i: usize| options@[i as int].label).push(options@[selected@[k as int] as int].label));
        k = k + 1;
    }
    assert(selected@.take(k as int) =~= selected@);
    r
}

/// The closing line of the wizard, by how many changes failed.
pub fn outcome_line(error_count: usize) -> (r: &'static str)
    ensures
        r@ == (if error_count == 0 {
            "[OK] Toutes les modifications appliquees avec succes."@
        } else {
            "[!] Certaines modifications ont echoue."@
        }),
{
    if error_count == 0 {
        "[OK] Toutes les modifications appliquees avec succes."
    } else {
        "[!] Certaines modifications ont echoue."
    }
}

} // verus!
