//! The registry that maps each option identifier to the command that applies it.
//!
//! A command is described by plain values here; carrying it out is the work of
//! the program around the library.
use crate::text::{owned, push_str, same_text};
use vstd::prelude::*;

verus! {

/// Name of the Connected User Experiences and Telemetry service.
pub const SERVICE_DIAGTRACK: &'static str = "DiagTrack";

/// Name of the WAP push routing service.
pub const SERVICE_WAP_PUSH: &'static str = "dmwappushservice";

/// Name of the Windows Error Reporting service.
pub const SERVICE_WERSVC: &'static str = "WerSvc";

/// Name of the SysMain (Superfetch) service.
pub const SERVICE_SYSMAIN: &'static str = "SysMain";

/// Name of the Windows Search indexing service.
pub const SERVICE_WSEARCH: &'static str = "WSearch";

/// Name of the Windows Update service.
pub const SERVICE_UPDATE: &'static str = "wuauserv";

/// Policy key of the telemetry level.
pub const DATA_COLLECTION_KEY: &'static str = "SOFTWARE\\Policies\\Microsoft\\Windows\\DataCollection";

/// Policy key of the advertising identifier.
pub const ADVERTISING_INFO_POLICIES_KEY: &'static str = "SOFTWARE\\Policies\\Microsoft\\Windows\\AdvertisingInfo";

/// Key of the per-capability consent store.
pub const CONSENT_STORE_KEY: &'static str = "SOFTWARE\\Microsoft\\Windows\\CurrentVersion\\CapabilityAccessManager\\ConsentStore";

/// Policy key of Windows Search and Cortana.
pub const WINDOWS_SEARCH_KEY: &'static str = "SOFTWARE\\Policies\\Microsoft\\Windows\\Windows Search";

/// Policy key of the Windows AI features (Recall).
pub const WINDOWS_AI_KEY: &'static str = "SOFTWARE\\Policies\\Microsoft\\Windows\\WindowsAI";

/// `parent`, a backslash, then `child`: a registry path one level down.
pub fn registry_path(parent: &str, child: &str) -> (r: String)
    ensures
        r@ == parent@ + "\\"@ + child@,
{
    let mut r = owned(parent);
    push_str(&mut r, "\\");
    push_str(&mut r, child);
    r
}

/// A power plan that a command activates.
#[derive(Debug, Clone, Copy, PartialEq, Eq, Structural)]
pub enum PowerPlan {
    HighPerformance,
    UltimatePerformance,
}

/// A configuration change that the synchronisation engine applies.
#[derive(Debug, Clone)]
pub enum SyncOperation {
    /// Set the start type of a service.
    Service { name: String, target_start_type: u32 },
    /// Set a DWORD value under HKLM.
    RegistryDword { key: String, value: String, target_data: u32 },
    /// Remove AppX packages.
    Appx { packages_to_remove: Vec<String> },
    /// Configure the memory manager.
    MemoryOptimization { enable_large_system_cache: bool, io_page_lock_limit_mb: Option<u32> },
}

/// A [`SyncOperation`] with its strings as character sequences.
pub enum SyncOperationView {
    Service { name: Seq<char>, target_start_type: u32 },
    RegistryDword { key: Seq<char>, value: Seq<char>, target_data: u32 },
    Appx { packages_to_remove: Seq<Seq<char>> },
    MemoryOptimization { enable_large_system_cache: bool, io_page_lock_limit_mb: Option<u32> },
}

impl View for SyncOperation {
    type V = SyncOperationView;

    open spec fn view(&self) -> SyncOperationView {
        match self {
            SyncOperation::Service { name, target_start_type } => SyncOperationView::Service {
                name: name@,
                target_start_type: *target_start_type,
            },
            SyncOperation::RegistryDword { key, value, target_data } => SyncOperationView::RegistryDword {
                key: key@,
                value: value@,
                target_data: *target_data,
            },
            SyncOperation::Appx { packages_to_remove } => SyncOperationView::Appx {
                packages_to_remove: packages_to_remove@.map_values(|p: String| p@),
            },
            SyncOperation::MemoryOptimization { enable_large_system_cache, io_page_lock_limit_mb } => {
                SyncOperationView::MemoryOptimization {
                    enable_large_system_cache: *enable_large_system_cache,
                    io_page_lock_limit_mb: *io_page_lock_limit_mb,
                }
            },
        }
    }
}

/// A command that applies one [`SyncOperation`].
#[derive(Debug, Clone)]
pub struct SyncOperationCommand {
    pub operation: SyncOperation,
}

impl SyncOperationCommand {
    /// The command that applies `operation`.
    pub fn new(operation: SyncOperation) -> (r: Self)
        ensures
            r.operation@ == operation@,
    {
        SyncOperationCommand { operation }
    }
}

/// A command that sets the system timer resolution, in units of 100 ns.
#[derive(Debug, Clone, Copy, PartialEq, Eq, Structural)]
pub struct TimerResolutionCommand {
    pub resolution: u32,
}

impl TimerResolutionCommand {
    /// The command for a resolution of `res` times 100 ns.
    pub fn new(res: u32) -> (r: Self)
        ensures
            r.resolution == res,
    {
        TimerResolutionCommand { resolution: res }
    }
}

/// A command that activates a power plan.
#[derive(Debug, Clone, Copy, PartialEq, Eq, Structural)]
pub struct PowerPlanCommand {
    pub plan: PowerPlan,
}

impl PowerPlanCommand {
    /// The command that activates `plan`.
    pub fn new(plan: PowerPlan) -> (r: Self)
        ensures
            r.plan == plan,
    {
        PowerPlanCommand { plan }
    }
}

/// Marker of the command of the same name.
#[derive(Debug, Clone, Copy, PartialEq, Eq, Structural)]
pub struct SecurityDisableHvciCommand;

/// Marker of the command of the same name.
#[derive(Debug, Clone, Copy, PartialEq, Eq, Structural)]
pub struct SecurityDisableVbsCommand;

/// Marker of the command of the same name.
#[derive(Debug, Clone, Copy, PartialEq, Eq, Structural)]
pub struct SecurityDisableSpectreCommand;

/// Marker of the command of the same name.
#[derive(Debug, Clone, Copy, PartialEq, Eq, Structural)]
pub struct SecurityDisableUacCommand;

/// Marker of the command of the same name.
#[derive(Debug, Clone, Copy, PartialEq, Eq, Structural)]
pub struct HardeningLockCommand;

/// Marker of the command of the same name.
#[derive(Debug, Clone, Copy, PartialEq, Eq, Structural)]
pub struct HardeningUnlockCommand;

/// Marker of the command of the same name.
#[derive(Debug, Clone, Copy, PartialEq, Eq, Structural)]
pub struct HardeningPplCommand;

/// Marker of the command of the same name.
#[derive(Debug, Clone, Copy, PartialEq, Eq, Structural)]
pub struct OORecommendedPrivacyCommand;

/// Marker of the command of the same name.
#[derive(Debug, Clone, Copy, PartialEq, Eq, Structural)]
pub struct FirewallTelemetryBlockCommand;

/// Marker of the command of the same name.
#[derive(Debug, Clone, Copy, PartialEq, Eq, Structural)]
pub struct ScheduledTasksTelemetryCommand;

/// Marker of the command of the same name.
#[derive(Debug, Clone, Copy, PartialEq, Eq, Structural)]
pub struct HostsTelemetryCommand;

/// Marker of the command of the same name.
#[derive(Debug, Clone, Copy, PartialEq, Eq, Structural)]
pub struct OneDriveUninstallCommand;

/// Marker of the command of the same name.
#[derive(Debug, Clone, Copy, PartialEq, Eq, Structural)]
pub struct ContextMenuClassicCommand;

/// Marker of the command of the same name.
#[derive(Debug, Clone, Copy, PartialEq, Eq, Structural)]
pub struct AppxRemoveCopilotCommand;

/// Marker of the command of the same name.
#[derive(Debug, Clone, Copy, PartialEq, Eq, Structural)]
pub struct CpuThrottlingDisableCommand;

/// Marker of the command of the same name.
#[derive(Debug, Clone, Copy, PartialEq, Eq, Structural)]
pub struct MsiEnableAllCommand;

/// Marker of the command of the same name.
#[derive(Debug, Clone, Copy, PartialEq, Eq, Structural)]
pub struct HagsDisableCommand;

/// Marker of the command of the same name.
#[derive(Debug, Clone, Copy, PartialEq, Eq, Structural)]
pub struct NagleDisableCommand;

/// Marker of the command of the same name.
#[derive(Debug, Clone, Copy, PartialEq, Eq, Structural)]
pub struct EdgeTelemetryDisableCommand;

/// Marker of the command of the same name.
#[derive(Debug, Clone, Copy, PartialEq, Eq, Structural)]
pub struct InterruptsOptimizeCommand;

/// Marker of the command of the same name.
#[derive(Debug, Clone, Copy, PartialEq, Eq, Structural)]
pub struct MemoryOptimizeCommand;

/// Marker of the command of the same name.
#[derive(Debug, Clone, Copy, PartialEq, Eq, Structural)]
pub struct CleanupTempCommand;

/// Marker of the command of the same name.
#[derive(Debug, Clone, Copy, PartialEq, Eq, Structural)]
pub struct CleanupWinSxSCommand;

/// Marker of the command of the same name.
#[derive(Debug, Clone, Copy, PartialEq, Eq, Structural)]
pub struct CleanupEdgeCommand;

/// Marker of the command of the same name.
#[derive(Debug, Clone, Copy, PartialEq, Eq, Structural)]
pub struct DnsDohCommand;

/// Marker of the command of the same name.
#[derive(Debug, Clone, Copy, PartialEq, Eq, Structural)]
pub struct ExplorerOptimizeCommand;

/// Marker of the command of the same name.
#[derive(Debug, Clone, Copy, PartialEq, Eq, Structural)]
pub struct ExplorerRestartCommand;

/// Marker of the command of the same name.
#[derive(Debug, Clone, Copy, PartialEq, Eq, Structural)]
pub struct WindowsUpdateConfigureCommand;

/// Marker of the command of the same name.
#[derive(Debug, Clone, Copy, PartialEq, Eq, Structural)]
pub struct ScanYaraCommand;

/// Marker of the command of the same name.
#[derive(Debug, Clone, Copy, PartialEq, Eq, Structural)]
pub struct ScanBrowserCommand;

/// Marker of the command of the same name.
#[derive(Debug, Clone, Copy, PartialEq, Eq, Structural)]
pub struct ScanRegistryCommand;

/// Marker of the command of the same name.
#[derive(Debug, Clone, Copy, PartialEq, Eq, Structural)]
pub struct AuditHardwareCommand;

/// Marker of the command of the same name.
#[derive(Debug, Clone, Copy, PartialEq, Eq, Structural)]
pub struct AuditSecurityCommand;

/// Marker of the command of the same name.
#[derive(Debug, Clone, Copy, PartialEq, Eq, Structural)]
pub struct AuditServicesCommand;

/// Marker of the command of the same name.
#[derive(Debug, Clone, Copy, PartialEq, Eq, Structural)]
pub struct SyncPersistCommand;

/// Marker of the command of the same name.
#[derive(Debug, Clone, Copy, PartialEq, Eq, Structural)]
pub struct DisableIPv6Command;

/// Marker of the command of the same name.
#[derive(Debug, Clone, Copy, PartialEq, Eq, Structural)]
pub struct DisableHibernationCommand;

/// The pre-installed applications that the standard bloatware option removes.
pub open spec fn standard_bloat_packages() -> Seq<Seq<char>> {
    seq!["Microsoft.SolitaireCollection"@, "Microsoft.People"@, "Microsoft.WindowsMaps"@]
}

/// The names of the pre-installed applications that the standard bloatware
/// option removes.
pub fn standard_bloat_package_names() -> (r: Vec<String>)
    ensures
        r@.map_values(|p: String| p@) == standard_bloat_packages(),
{
    let r = vec![
        owned("Microsoft.SolitaireCollection"),
        owned("Microsoft.People"),
        owned("Microsoft.WindowsMaps"),
    ];
    assert(r@.map_values(|p: String| p@) =~= standard_bloat_packages());
    r
}

/// The command bound to an option identifier.
#[derive(Debug, Clone)]
pub enum Tweak {
    SyncOperation(SyncOperationCommand),
    TimerResolution(TimerResolutionCommand),
    PowerPlan(PowerPlanCommand),
    SecurityDisableHvci(SecurityDisableHvciCommand),
    SecurityDisableVbs(SecurityDisableVbsCommand),
    SecurityDisableSpectre(SecurityDisableSpectreCommand),
    SecurityDisableUac(SecurityDisableUacCommand),
    HardeningLock(HardeningLockCommand),
    HardeningUnlock(HardeningUnlockCommand),
    HardeningPpl(HardeningPplCommand),
    OORecommendedPrivacy(OORecommendedPrivacyCommand),
    FirewallTelemetryBlock(FirewallTelemetryBlockCommand),
    ScheduledTasksTelemetry(ScheduledTasksTelemetryCommand),
    HostsTelemetry(HostsTelemetryCommand),
    OneDriveUninstall(OneDriveUninstallCommand),
    ContextMenuClassic(ContextMenuClassicCommand),
    AppxRemoveCopilot(AppxRemoveCopilotCommand),
    CpuThrottlingDisable(CpuThrottlingDisableCommand),
    MsiEnableAll(MsiEnableAllCommand),
    HagsDisable(HagsDisableCommand),
    NagleDisable(NagleDisableCommand),
    EdgeTelemetryDisable(EdgeTelemetryDisableCommand),
    InterruptsOptimize(InterruptsOptimizeCommand),
    MemoryOptimize(MemoryOptimizeCommand),
    CleanupTemp(CleanupTempCommand),
    CleanupWinSxS(CleanupWinSxSCommand),
    CleanupEdge(CleanupEdgeCommand),
    DnsDoh(DnsDohCommand),
    ExplorerOptimize(ExplorerOptimizeCommand),
    ExplorerRestart(ExplorerRestartCommand),
    WindowsUpdateConfigure(WindowsUpdateConfigureCommand),
    ScanYara(ScanYaraCommand),
    ScanBrowser(ScanBrowserCommand),
    ScanRegistry(ScanRegistryCommand),
    AuditHardware(AuditHardwareCommand),
    AuditSecurity(AuditSecurityCommand),
    AuditServices(AuditServicesCommand),
    SyncPersist(SyncPersistCommand),
    DisableIPv6(DisableIPv6Command),
    DisableHibernation(DisableHibernationCommand),
}

/// A [`Tweak`] with its strings as character sequences.
pub enum TweakView {
    SyncOperation(SyncOperationView),
    TimerResolution(TimerResolutionCommand),
    PowerPlan(PowerPlanCommand),
    SecurityDisableHvci(SecurityDisableHvciCommand),
    SecurityDisableVbs(SecurityDisableVbsCommand),
    SecurityDisableSpectre(SecurityDisableSpectreCommand),
    SecurityDisableUac(SecurityDisableUacCommand),
    HardeningLock(HardeningLockCommand),
    HardeningUnlock(HardeningUnlockCommand),
    HardeningPpl(HardeningPplCommand),
    OORecommendedPrivacy(OORecommendedPrivacyCommand),
    FirewallTelemetryBlock(FirewallTelemetryBlockCommand),
    ScheduledTasksTelemetry(ScheduledTasksTelemetryCommand),
    HostsTelemetry(HostsTelemetryCommand),
    OneDriveUninstall(OneDriveUninstallCommand),
    ContextMenuClassic(ContextMenuClassicCommand),
    AppxRemoveCopilot(AppxRemoveCopilotCommand),
    CpuThrottlingDisable(CpuThrottlingDisableCommand),
    MsiEnableAll(MsiEnableAllCommand),
    HagsDisable(HagsDisableCommand),
    NagleDisable(NagleDisableCommand),
    EdgeTelemetryDisable(EdgeTelemetryDisableCommand),
    InterruptsOptimize(InterruptsOptimizeCommand),
    MemoryOptimize(MemoryOptimizeCommand),
    CleanupTemp(CleanupTempCommand),
    CleanupWinSxS(CleanupWinSxSCommand),
    CleanupEdge(CleanupEdgeCommand),
    DnsDoh(DnsDohCommand),
    ExplorerOptimize(ExplorerOptimizeCommand),
    ExplorerRestart(ExplorerRestartCommand),
    WindowsUpdateConfigure(WindowsUpdateConfigureCommand),
    ScanYara(ScanYaraCommand),
    ScanBrowser(ScanBrowserCommand),
    ScanRegistry(ScanRegistryCommand),
    AuditHardware(AuditHardwareCommand),
    AuditSecurity(AuditSecurityCommand),
    AuditServices(AuditServicesCommand),
    SyncPersist(SyncPersistCommand),
    DisableIPv6(DisableIPv6Command),
    DisableHibernation(DisableHibernationCommand),
}

impl View for Tweak {
    type V = TweakView;

    open spec fn view(&self) -> TweakView {
        match self {
            Tweak::SyncOperation(c) => TweakView::SyncOperation(c.operation@),
            Tweak::TimerResolution(c) => TweakView::TimerResolution(*c),
            Tweak::PowerPlan(c) => TweakView::PowerPlan(*c),
            Tweak::SecurityDisableHvci(c) => TweakView::SecurityDisableHvci(*c),
            Tweak::SecurityDisableVbs(c) => TweakView::SecurityDisableVbs(*c),
            Tweak::SecurityDisableSpectre(c) => TweakView::SecurityDisableSpectre(*c),
            Tweak::SecurityDisableUac(c) => TweakView::SecurityDisableUac(*c),
            Tweak::HardeningLock(c) => TweakView::HardeningLock(*c),
            Tweak::HardeningUnlock(c) => TweakView::HardeningUnlock(*c),
            Tweak::HardeningPpl(c) => TweakView::HardeningPpl(*c),
            Tweak::OORecommendedPrivacy(c) => TweakView::OORecommendedPrivacy(*c),
            Tweak::FirewallTelemetryBlock(c) => TweakView::FirewallTelemetryBlock(*c),
            Tweak::ScheduledTasksTelemetry(c) => TweakView::ScheduledTasksTelemetry(*c),
            Tweak::HostsTelemetry(c) => TweakView::HostsTelemetry(*c),
            Tweak::OneDriveUninstall(c) => TweakView::OneDriveUninstall(*c),
            Tweak::ContextMenuClassic(c) => TweakView::ContextMenuClassic(*c),
            Tweak::AppxRemoveCopilot(c) => TweakView::AppxRemoveCopilot(*c),
            Tweak::CpuThrottlingDisable(c) => TweakView::CpuThrottlingDisable(*c),
            Tweak::MsiEnableAll(c) => TweakView::MsiEnableAll(*c),
            Tweak::HagsDisable(c) => TweakView::HagsDisable(*c),
            Tweak::NagleDisable(c) => TweakView::NagleDisable(*c),
            Tweak::EdgeTelemetryDisable(c) => TweakView::EdgeTelemetryDisable(*c),
            Tweak::InterruptsOptimize(c) => TweakView::InterruptsOptimize(*c),
            Tweak::MemoryOptimize(c) => TweakView::MemoryOptimize(*c),
            Tweak::CleanupTemp(c) => TweakView::CleanupTemp(*c),
            Tweak::CleanupWinSxS(c) => TweakView::CleanupWinSxS(*c),
            Tweak::CleanupEdge(c) => TweakView::CleanupEdge(*c),
            Tweak::DnsDoh(c) => TweakView::DnsDoh(*c),
            Tweak::ExplorerOptimize(c) => TweakView::ExplorerOptimize(*c),
            Tweak::ExplorerRestart(c) => TweakView::ExplorerRestart(*c),
            Tweak::WindowsUpdateConfigure(c) => TweakView::WindowsUpdateConfigure(*c),
            Tweak::ScanYara(c) => TweakView::ScanYara(*c),
            Tweak::ScanBrowser(c) => TweakView::ScanBrowser(*c),
            Tweak::ScanRegistry(c) => TweakView::ScanRegistry(*c),
            Tweak::AuditHardware(c) => TweakView::AuditHardware(*c),
            Tweak::AuditSecurity(c) => TweakView::AuditSecurity(*c),
            Tweak::AuditServices(c) => TweakView::AuditServices(*c),
            Tweak::SyncPersist(c) => TweakView::SyncPersist(*c),
            Tweak::DisableIPv6(c) => TweakView::DisableIPv6(*c),
            Tweak::DisableHibernation(c) => TweakView::DisableHibernation(*c),
        }
    }
}

/// The map that a list of bindings defines: a later binding of an identifier
/// replaces an earlier one.
pub open spec fn bindings_map(s: Seq<(String, Tweak)>) -> Map<Seq<char>, TweakView>
    decreases s.len(),
{
    if s.len() == 0 {
        Map::empty()
    } else {
        bindings_map(s.drop_last()).insert(s.last().0@, s.last().1@)
    }
}

/// The registry of the commands, by option identifier.
pub struct CommandRegistry {
    commands: Vec<(String, Tweak)>,
}

impl View for CommandRegistry {
    type V = Map<Seq<char>, TweakView>;

    closed spec fn view(&self) -> Map<Seq<char>, TweakView> {
        bindings_map(self.commands@)
    }
}

/// The bindings of the telemetry commands, added to `m`.
pub open spec fn telemetry_commands(m: Map<Seq<char>, TweakView>) -> Map<Seq<char>, TweakView> {
    m
        .insert("diagtrack"@, TweakView::SyncOperation(SyncOperationView::Service { name: SERVICE_DIAGTRACK@, target_start_type: 4 }))
        .insert("dmwappush"@, TweakView::SyncOperation(SyncOperationView::Service { name: SERVICE_WAP_PUSH@, target_start_type: 4 }))
        .insert("wersvc"@, TweakView::SyncOperation(SyncOperationView::Service { name: SERVICE_WERSVC@, target_start_type: 4 }))
        .insert("firewall"@, TweakView::FirewallTelemetryBlock(FirewallTelemetryBlockCommand))
        .insert("sched_tasks"@, TweakView::ScheduledTasksTelemetry(ScheduledTasksTelemetryCommand))
        .insert("hosts"@, TweakView::HostsTelemetry(HostsTelemetryCommand))
        .insert("onedrive"@, TweakView::OneDriveUninstall(OneDriveUninstallCommand))
}

/// The bindings of the privacy commands, added to `m`.
pub open spec fn privacy_commands(m: Map<Seq<char>, TweakView>) -> Map<Seq<char>, TweakView> {
    m
        .insert("telemetry_level"@, TweakView::SyncOperation(SyncOperationView::RegistryDword { key: DATA_COLLECTION_KEY@, value: "AllowTelemetry"@, target_data: 0 }))
        .insert("advertising_id"@, TweakView::SyncOperation(SyncOperationView::RegistryDword { key: ADVERTISING_INFO_POLICIES_KEY@, value: "DisabledByGroupPolicy"@, target_data: 1 }))
        .insert("location"@, TweakView::SyncOperation(SyncOperationView::RegistryDword { key: CONSENT_STORE_KEY@ + "\\"@ + "location"@, value: "Value"@, target_data: 0 }))
        .insert("activity_history"@, TweakView::SyncOperation(SyncOperationView::RegistryDword { key: r"SOFTWARE\Policies\Microsoft\Windows\System"@, value: "EnableActivityFeed"@, target_data: 0 }))
        .insert("cortana"@, TweakView::SyncOperation(SyncOperationView::RegistryDword { key: WINDOWS_SEARCH_KEY@, value: "AllowCortana"@, target_data: 0 }))
        .insert("recall"@, TweakView::SyncOperation(SyncOperationView::RegistryDword { key: WINDOWS_AI_KEY@, value: "DisableAIDataAnalysis"@, target_data: 1 }))
        .insert("context_menu"@, TweakView::ContextMenuClassic(ContextMenuClassicCommand))
        .insert("edge_telemetry"@, TweakView::EdgeTelemetryDisable(EdgeTelemetryDisableCommand))
}

/// The bindings of the O&O privacy commands, added to `m`.
pub open spec fn oo_privacy_commands(m: Map<Seq<char>, TweakView>) -> Map<Seq<char>, TweakView> {
    m
        .insert("oo_telemetry"@, TweakView::OORecommendedPrivacy(OORecommendedPrivacyCommand))
        .insert("oo_advertising"@, TweakView::SyncOperation(SyncOperationView::RegistryDword { key: ADVERTISING_INFO_POLICIES_KEY@, value: "DisabledByGroupPolicy"@, target_data: 1 }))
        .insert("oo_copilot"@, TweakView::AppxRemoveCopilot(AppxRemoveCopilotCommand))
        .insert("oo_recall"@, TweakView::SyncOperation(SyncOperationView::RegistryDword { key: WINDOWS_AI_KEY@, value: "DisableAIDataAnalysis"@, target_data: 1 }))
        .insert("oo_widgets"@, TweakView::OORecommendedPrivacy(OORecommendedPrivacyCommand))
        .insert("oo_search_highlights"@, TweakView::SyncOperation(SyncOperationView::RegistryDword { key: WINDOWS_SEARCH_KEY@, value: "AllowCortana"@, target_data: 0 }))
        .insert("oo_wudo"@, TweakView::OORecommendedPrivacy(OORecommendedPrivacyCommand))
        .insert("oo_wifi_sense"@, TweakView::OORecommendedPrivacy(OORecommendedPrivacyCommand))
        .insert("oo_app_permissions"@, TweakView::SyncOperation(SyncOperationView::RegistryDword { key: CONSENT_STORE_KEY@ + "\\"@ + "location"@, value: "Value"@, target_data: 0 }))
        .insert("oo_bg_apps"@, TweakView::OORecommendedPrivacy(OORecommendedPrivacyCommand))
}

/// The bindings of the performance commands, added to `m`.
pub open spec fn performance_commands(m: Map<Seq<char>, TweakView>) -> Map<Seq<char>, TweakView> {
    m
        .insert("timer"@, TweakView::TimerResolution(TimerResolutionCommand { resolution: 5000 }))
        .insert("power_ultimate"@, TweakView::PowerPlan(PowerPlanCommand { plan: PowerPlan::UltimatePerformance }))
        .insert("cpu_throttle"@, TweakView::CpuThrottlingDisable(CpuThrottlingDisableCommand))
        .insert("msi"@, TweakView::MsiEnableAll(MsiEnableAllCommand))
        .insert("hags"@, TweakView::HagsDisable(HagsDisableCommand))
        .insert("nagle"@, TweakView::NagleDisable(NagleDisableCommand))
        .insert("interrupts"@, TweakView::InterruptsOptimize(InterruptsOptimizeCommand))
        .insert("memory"@, TweakView::MemoryOptimize(MemoryOptimizeCommand))
}

/// The bindings of the security commands, added to `m`.
pub open spec fn security_commands(m: Map<Seq<char>, TweakView>) -> Map<Seq<char>, TweakView> {
    m
        .insert("hvci"@, TweakView::SecurityDisableHvci(SecurityDisableHvciCommand))
        .insert("vbs"@, TweakView::SecurityDisableVbs(SecurityDisableVbsCommand))
        .insert("spectre"@, TweakView::SecurityDisableSpectre(SecurityDisableSpectreCommand))
        .insert("uac_level"@, TweakView::SecurityDisableUac(SecurityDisableUacCommand))
        .insert("hardening_lock"@, TweakView::HardeningLock(HardeningLockCommand))
        .insert("hardening_unlock"@, TweakView::HardeningUnlock(HardeningUnlockCommand))
        .insert("hardening_ppl"@, TweakView::HardeningPpl(HardeningPplCommand))
}

/// The bindings of the scan commands, added to `m`.
pub open spec fn scan_commands(m: Map<Seq<char>, TweakView>) -> Map<Seq<char>, TweakView> {
    m
        .insert("scan_yara"@, TweakView::ScanYara(ScanYaraCommand))
        .insert("scan_browser"@, TweakView::ScanBrowser(ScanBrowserCommand))
        .insert("scan_registry"@, TweakView::ScanRegistry(ScanRegistryCommand))
}

/// The bindings of the audit commands, added to `m`.
pub open spec fn audit_commands(m: Map<Seq<char>, TweakView>) -> Map<Seq<char>, TweakView> {
    m
        .insert("audit_hardware"@, TweakView::AuditHardware(AuditHardwareCommand))
        .insert("audit_security"@, TweakView::AuditSecurity(AuditSecurityCommand))
        .insert("audit_services"@, TweakView::AuditServices(AuditServicesCommand))
}

/// The bindings of the synchronisation commands, added to `m`.
pub open spec fn sync_commands(m: Map<Seq<char>, TweakView>) -> Map<Seq<char>, TweakView> {
    m
        .insert("sync_persist"@, TweakView::SyncPersist(SyncPersistCommand))
}

/// The bindings of the system and cleanup commands, added to `m`.
pub open spec fn system_commands(m: Map<Seq<char>, TweakView>) -> Map<Seq<char>, TweakView> {
    m
        .insert("cleanup_temp"@, TweakView::CleanupTemp(CleanupTempCommand))
        .insert("cleanup_winsxs"@, TweakView::CleanupWinSxS(CleanupWinSxSCommand))
        .insert("cleanup_edge"@, TweakView::CleanupEdge(CleanupEdgeCommand))
        .insert("explorer_optimize"@, TweakView::ExplorerOptimize(ExplorerOptimizeCommand))
        .insert("explorer_restart"@, TweakView::ExplorerRestart(ExplorerRestartCommand))
        .insert("windows_update"@, TweakView::WindowsUpdateConfigure(WindowsUpdateConfigureCommand))
}

/// The bindings of the bloatware commands, added to `m`.
pub open spec fn bloatware_commands(m: Map<Seq<char>, TweakView>) -> Map<Seq<char>, TweakView> {
    m
        .insert("bloat_copilot"@, TweakView::AppxRemoveCopilot(AppxRemoveCopilotCommand))
        .insert("bloat_onedrive"@, TweakView::OneDriveUninstall(OneDriveUninstallCommand))
        .insert("bloat_edge"@, TweakView::EdgeTelemetryDisable(EdgeTelemetryDisableCommand))
        .insert("bloat_standard"@, TweakView::SyncOperation(SyncOperationView::Appx { packages_to_remove: standard_bloat_packages() }))
        .insert("bloat_cortana"@, TweakView::SyncOperation(SyncOperationView::RegistryDword { key: WINDOWS_SEARCH_KEY@, value: "AllowCortana"@, target_data: 0 }))
}

/// The bindings of the service commands, added to `m`.
pub open spec fn services_commands(m: Map<Seq<char>, TweakView>) -> Map<Seq<char>, TweakView> {
    m
        .insert("svc_telemetry"@, TweakView::SyncOperation(SyncOperationView::Service { name: SERVICE_DIAGTRACK@, target_start_type: 4 }))
        .insert("svc_sysmain"@, TweakView::SyncOperation(SyncOperationView::Service { name: SERVICE_SYSMAIN@, target_start_type: 4 }))
        .insert("svc_search"@, TweakView::SyncOperation(SyncOperationView::Service { name: SERVICE_WSEARCH@, target_start_type: 4 }))
        .insert("svc_update"@, TweakView::SyncOperation(SyncOperationView::Service { name: SERVICE_UPDATE@, target_start_type: 3 }))
        .insert("svc_print"@, TweakView::SyncOperation(SyncOperationView::Service { name: "Spooler"@, target_start_type: 4 }))
}

/// The bindings of the network commands, added to `m`.
pub open spec fn network_commands(m: Map<Seq<char>, TweakView>) -> Map<Seq<char>, TweakView> {
    m
        .insert("net_doh"@, TweakView::DnsDoh(DnsDohCommand))
        .insert("net_ipv6"@, TweakView::DisableIPv6(DisableIPv6Command))
        .insert("net_firewall"@, TweakView::FirewallTelemetryBlock(FirewallTelemetryBlockCommand))
        .insert("net_hosts"@, TweakView::HostsTelemetry(HostsTelemetryCommand))
}

/// The bindings of the maintenance commands, added to `m`.
pub open spec fn maintenance_commands(m: Map<Seq<char>, TweakView>) -> Map<Seq<char>, TweakView> {
    m
        .insert("maint_cleanup_full"@, TweakView::SyncOperation(SyncOperationView::MemoryOptimization { enable_large_system_cache: true, io_page_lock_limit_mb: None }))
        .insert("maint_updates_pause"@, TweakView::WindowsUpdateConfigure(WindowsUpdateConfigureCommand))
        .insert("maint_tasks"@, TweakView::ScheduledTasksTelemetry(ScheduledTasksTelemetryCommand))
        .insert("maint_hibernation"@, TweakView::DisableHibernation(DisableHibernationCommand))
}

/// The bindings of a new registry.
pub open spec fn default_commands() -> Map<Seq<char>, TweakView> {
    maintenance_commands(network_commands(services_commands(bloatware_commands(system_commands(sync_commands(audit_commands(scan_commands(security_commands(performance_commands(oo_privacy_commands(privacy_commands(telemetry_commands(Map::empty())))))))))))))
}

impl CommandRegistry {
    /// Registers the telemetry commands.
    fn register_telemetry(&mut self)
        ensures
            final(self)@ == telemetry_commands(old(self)@),
    {
        self.register("diagtrack", Tweak::SyncOperation(SyncOperationCommand::new(SyncOperation::Service { name: owned(SERVICE_DIAGTRACK), target_start_type: 4 })));
        self.register("dmwappush", Tweak::SyncOperation(SyncOperationCommand::new(SyncOperation::Service { name: owned(SERVICE_WAP_PUSH), target_start_type: 4 })));
        self.register("wersvc", Tweak::SyncOperation(SyncOperationCommand::new(SyncOperation::Service { name: owned(SERVICE_WERSVC), target_start_type: 4 })));
        self.register("firewall", Tweak::FirewallTelemetryBlock(FirewallTelemetryBlockCommand));
        self.register("sched_tasks", Tweak::ScheduledTasksTelemetry(ScheduledTasksTelemetryCommand));
        self.register("hosts", Tweak::HostsTelemetry(HostsTelemetryCommand));
        self.register("onedrive", Tweak::OneDriveUninstall(OneDriveUninstallCommand));
    }

    /// Registers the privacy commands.
    fn register_privacy(&mut self)
        ensures
            final(self)@ == privacy_commands(old(self)@),
    {
        self.register("telemetry_level", Tweak::SyncOperation(SyncOperationCommand::new(SyncOperation::RegistryDword { key: owned(DATA_COLLECTION_KEY), value: owned("AllowTelemetry"), target_data: 0 })));
        self.register("advertising_id", Tweak::SyncOperation(SyncOperationCommand::new(SyncOperation::RegistryDword { key: owned(ADVERTISING_INFO_POLICIES_KEY), value: owned("DisabledByGroupPolicy"), target_data: 1 })));
        self.register("location", Tweak::SyncOperation(SyncOperationCommand::new(SyncOperation::RegistryDword { key: registry_path(CONSENT_STORE_KEY, "location"), value: owned("Value"), target_data: 0 })));
        self.register("activity_history", Tweak::SyncOperation(SyncOperationCommand::new(SyncOperation::RegistryDword { key: owned(r"SOFTWARE\Policies\Microsoft\Windows\System"), value: owned("EnableActivityFeed"), target_data: 0 })));
        self.register("cortana", Tweak::SyncOperation(SyncOperationCommand::new(SyncOperation::RegistryDword { key: owned(WINDOWS_SEARCH_KEY), value: owned("AllowCortana"), target_data: 0 })));
        self.register("recall", Tweak::SyncOperation(SyncOperationCommand::new(SyncOperation::RegistryDword { key: owned(WINDOWS_AI_KEY), value: owned("DisableAIDataAnalysis"), target_data: 1 })));
        self.register("context_menu", Tweak::ContextMenuClassic(ContextMenuClassicCommand));
        self.register("edge_telemetry", Tweak::EdgeTelemetryDisable(EdgeTelemetryDisableCommand));
    }

    /// Registers the O&O privacy commands.
    fn register_oo_privacy(&mut self)
        ensures
            final(self)@ == oo_privacy_commands(old(self)@),
    {
        self.register("oo_telemetry", Tweak::OORecommendedPrivacy(OORecommendedPrivacyCommand));
        self.register("oo_advertising", Tweak::SyncOperation(SyncOperationCommand::new(SyncOperation::RegistryDword { key: owned(ADVERTISING_INFO_POLICIES_KEY), value: owned("DisabledByGroupPolicy"), target_data: 1 })));
        self.register("oo_copilot", Tweak::AppxRemoveCopilot(AppxRemoveCopilotCommand));
        self.register("oo_recall", Tweak::SyncOperation(SyncOperationCommand::new(SyncOperation::RegistryDword { key: owned(WINDOWS_AI_KEY), value: owned("DisableAIDataAnalysis"), target_data: 1 })));
        self.register("oo_widgets", Tweak::OORecommendedPrivacy(OORecommendedPrivacyCommand));
        self.register("oo_search_highlights", Tweak::SyncOperation(SyncOperationCommand::new(SyncOperation::RegistryDword { key: owned(WINDOWS_SEARCH_KEY), value: owned("AllowCortana"), target_data: 0 })));
        self.register("oo_wudo", Tweak::OORecommendedPrivacy(OORecommendedPrivacyCommand));
        self.register("oo_wifi_sense", Tweak::OORecommendedPrivacy(OORecommendedPrivacyCommand));
        self.register("oo_app_permissions", Tweak::SyncOperation(SyncOperationCommand::new(SyncOperation::RegistryDword { key: registry_path(CONSENT_STORE_KEY, "location"), value: owned("Value"), target_data: 0 })));
        self.register("oo_bg_apps", Tweak::OORecommendedPrivacy(OORecommendedPrivacyCommand));
    }

    /// Registers the performance commands.
    fn register_performance(&mut self)
        ensures
            final(self)@ == performance_commands(old(self)@),
    {
        self.register("timer", Tweak::TimerResolution(TimerResolutionCommand::new(5000)));
        self.register("power_ultimate", Tweak::PowerPlan(PowerPlanCommand::new(PowerPlan::UltimatePerformance)));
        self.register("cpu_throttle", Tweak::CpuThrottlingDisable(CpuThrottlingDisableCommand));
        self.register("msi", Tweak::MsiEnableAll(MsiEnableAllCommand));
        self.register("hags", Tweak::HagsDisable(HagsDisableCommand));
        self.register("nagle", Tweak::NagleDisable(NagleDisableCommand));
        self.register("interrupts", Tweak::InterruptsOptimize(InterruptsOptimizeCommand));
        self.register("memory", Tweak::MemoryOptimize(MemoryOptimizeCommand));
    }

    /// Registers the security commands.
    fn register_security(&mut self)
        ensures
            final(self)@ == security_commands(old(self)@),
    {
        self.register("hvci", Tweak::SecurityDisableHvci(SecurityDisableHvciCommand));
        self.register("vbs", Tweak::SecurityDisableVbs(SecurityDisableVbsCommand));
        self.register("spectre", Tweak::SecurityDisableSpectre(SecurityDisableSpectreCommand));
        self.register("uac_level", Tweak::SecurityDisableUac(SecurityDisableUacCommand));
        self.register("hardening_lock", Tweak::HardeningLock(HardeningLockCommand));
        self.register("hardening_unlock", Tweak::HardeningUnlock(HardeningUnlockCommand));
        self.register("hardening_ppl", Tweak::HardeningPpl(HardeningPplCommand));
    }

    /// Registers the scan commands.
    fn register_scan(&mut self)
        ensures
            final(self)@ == scan_commands(old(self)@),
    {
        self.register("scan_yara", Tweak::ScanYara(ScanYaraCommand));
        self.register("scan_browser", Tweak::ScanBrowser(ScanBrowserCommand));
        self.register("scan_registry", Tweak::ScanRegistry(ScanRegistryCommand));
    }

    /// Registers the audit commands.
    fn register_audit(&mut self)
        ensures
            final(self)@ == audit_commands(old(self)@),
    {
        self.register("audit_hardware", Tweak::AuditHardware(AuditHardwareCommand));
        self.register("audit_security", Tweak::AuditSecurity(AuditSecurityCommand));
        self.register("audit_services", Tweak::AuditServices(AuditServicesCommand));
    }

    /// Registers the synchronisation commands.
    fn register_sync(&mut self)
        ensures
            final(self)@ == sync_commands(old(self)@),
    {
        self.register("sync_persist", Tweak::SyncPersist(SyncPersistCommand));
    }

    /// Registers the system and cleanup commands.
    fn register_system(&mut self)
        ensures
            final(self)@ == system_commands(old(self)@),
    {
        self.register("cleanup_temp", Tweak::CleanupTemp(CleanupTempCommand));
        self.register("cleanup_winsxs", Tweak::CleanupWinSxS(CleanupWinSxSCommand));
        self.register("cleanup_edge", Tweak::CleanupEdge(CleanupEdgeCommand));
        self.register("explorer_optimize", Tweak::ExplorerOptimize(ExplorerOptimizeCommand));
        self.register("explorer_restart", Tweak::ExplorerRestart(ExplorerRestartCommand));
        self.register("windows_update", Tweak::WindowsUpdateConfigure(WindowsUpdateConfigureCommand));
    }

    /// Registers the bloatware commands.
    fn register_bloatware(&mut self)
        ensures
            final(self)@ == bloatware_commands(old(self)@),
    {
        self.register("bloat_copilot", Tweak::AppxRemoveCopilot(AppxRemoveCopilotCommand));
        self.register("bloat_onedrive", Tweak::OneDriveUninstall(OneDriveUninstallCommand));
        self.register("bloat_edge", Tweak::EdgeTelemetryDisable(EdgeTelemetryDisableCommand));
        self.register("bloat_standard", Tweak::SyncOperation(SyncOperationCommand::new(SyncOperation::Appx { packages_to_remove: standard_bloat_package_names() })));
        self.register("bloat_cortana", Tweak::SyncOperation(SyncOperationCommand::new(SyncOperation::RegistryDword { key: owned(WINDOWS_SEARCH_KEY), value: owned("AllowCortana"), target_data: 0 })));
    }

    /// Registers the service commands.
    fn register_services(&mut self)
        ensures
            final(self)@ == services_commands(old(self)@),
    {
        self.register("svc_telemetry", Tweak::SyncOperation(SyncOperationCommand::new(SyncOperation::Service { name: owned(SERVICE_DIAGTRACK), target_start_type: 4 })));
        self.register("svc_sysmain", Tweak::SyncOperation(SyncOperationCommand::new(SyncOperation::Service { name: owned(SERVICE_SYSMAIN), target_start_type: 4 })));
        self.register("svc_search", Tweak::SyncOperation(SyncOperationCommand::new(SyncOperation::Service { name: owned(SERVICE_WSEARCH), target_start_type: 4 })));
        self.register("svc_update", Tweak::SyncOperation(SyncOperationCommand::new(SyncOperation::Service { name: owned(SERVICE_UPDATE), target_start_type: 3 })));
        self.register("svc_print", Tweak::SyncOperation(SyncOperationCommand::new(SyncOperation::Service { name: owned("Spooler"), target_start_type: 4 })));
    }

    /// Registers the network commands.
    fn register_network(&mut self)
        ensures
            final(self)@ == network_commands(old(self)@),
    {
        self.register("net_doh", Tweak::DnsDoh(DnsDohCommand));
        self.register("net_ipv6", Tweak::DisableIPv6(DisableIPv6Command));
        self.register("net_firewall", Tweak::FirewallTelemetryBlock(FirewallTelemetryBlockCommand));
        self.register("net_hosts", Tweak::HostsTelemetry(HostsTelemetryCommand));
    }

    /// Registers the maintenance commands.
    fn register_maintenance(&mut self)
        ensures
            final(self)@ == maintenance_commands(old(self)@),
    {
        self.register("maint_cleanup_full", Tweak::SyncOperation(SyncOperationCommand::new(SyncOperation::MemoryOptimization { enable_large_system_cache: true, io_page_lock_limit_mb: None })));
        self.register("maint_updates_pause", Tweak::WindowsUpdateConfigure(WindowsUpdateConfigureCommand));
        self.register("maint_tasks", Tweak::ScheduledTasksTelemetry(ScheduledTasksTelemetryCommand));
        self.register("maint_hibernation", Tweak::DisableHibernation(DisableHibernationCommand));
    }

}

impl CommandRegistry {
    /// A registry holding the command of every option of the interface.
    pub fn new() -> (r: Self)
        ensures
            r@ == default_commands(),
    {
        let mut registry = CommandRegistry { commands: Vec::new() };
        assert(registry@ == Map::<Seq<char>, TweakView>::empty());
        registry.register_telemetry();
        registry.register_privacy();
        registry.register_oo_privacy();
        registry.register_performance();
        registry.register_security();
        registry.register_scan();
        registry.register_audit();
        registry.register_sync();
        registry.register_system();
        registry.register_bloatware();
        registry.register_services();
        registry.register_network();
        registry.register_maintenance();
        registry
    }

    /// Binds `id` to `command`, replacing any earlier binding of `id`.
    pub fn register(&mut self, id: &str, command: Tweak)
        ensures
            final(self)@ == old(self)@.insert(id@, command@),
    {
        let ghost before = self.commands@;
        self.commands.push((owned(id), command));
        assert(self.commands@.drop_last() =~= before);
    }

    /// The command bound to `id`, if any.
    pub fn lookup(&self, id: &str) -> (r: Option<&Tweak>)
        ensures
            match r {
                Some(t) => self@.dom().contains(id@) && self@[id@] == t@,
                None => !self@.dom().contains(id@),
            },
    {
        let mut i = self.commands.len();
        assert(self.commands@.take(i as int) =~= self.commands@);
        while i > 0
            invariant
                i <= self.commands.len(),
                bindings_map(self.commands@).dom().contains(id@)
                    == bindings_map(self.commands@.take(i as int)).dom().contains(id@),
                bindings_map(self.commands@.take(i as int)).dom().contains(id@)
                    ==> bindings_map(self.commands@)[id@]
                    == bindings_map(self.commands@.take(i as int))[id@],
            decreases i,
        {
            let ghost s = self.commands@.take(i as int);
            assert(s.drop_last() =~= self.commands@.take(i - 1));
            if same_text(self.commands[i - 1].0.as_str(), id) {
                return Some(&self.commands[i - 1].1);
            }
            i = i - 1;
        }
        assert(self.commands@.take(0) =~= Seq::<(String, Tweak)>::empty());
        None
    }
}

/// After binding `id` to `command`, looking `id` up gives `command`, and every
/// other identifier keeps its binding.
pub proof fn lemma_register_then_lookup(
    before: Map<Seq<char>, TweakView>,
    id: Seq<char>,
    command: TweakView,
    other: Seq<char>,
)
    requires
        other != id,
    ensures
        before.insert(id, command).dom().contains(id),
        before.insert(id, command)[id] == command,
        before.insert(id, command).dom().contains(other) == before.dom().contains(other),
        before.dom().contains(other) ==> before.insert(id, command)[other] == before[other],
{
}

} // verus!
