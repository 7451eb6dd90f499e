//! Windows services: categorization, status decoding and selection.
use vstd::prelude::*;

use crate::audit::appx::views;
use crate::common::types::{ServiceCategory, ServiceInfo, ServiceStartType, ServiceStatus};
use crate::text::{
    eq_ignore_ascii_case, eq_ignore_ascii_case_spec, lowercase, owned, seq_contains,
    seq_starts_with, str_contains, str_starts_with, to_lowercase,
};

verus! {

/// Services known to collect telemetry.
pub open spec fn telemetry_services_spec() -> Seq<Seq<char>> {
    seq![
        "DiagTrack"@,
        "dmwappushservice"@,
        "WerSvc"@,
        "wercplsupport"@,
        "PcaSvc"@,
        "WdiSystemHost"@,
        "WdiServiceHost"@,
        "diagnosticshub.standardcollector.service"@,
        "DusmSvc"@,
        "MapsBroker"@,
        "lfsvc"@,
        "wisvc"@,
    ]
}

/// Services that weigh on performance.
pub open spec fn performance_services_spec() -> Seq<Seq<char>> {
    seq![
        "SysMain"@,
        "WSearch"@,
        "Spooler"@,
        "Fax"@,
        "TabletInputService"@,
        "BITS"@,
        "wuauserv"@,
        "UsoSvc"@,
        "DoSvc"@,
    ]
}

/// Security services.
pub open spec fn security_services_spec() -> Seq<Seq<char>> {
    seq![
        "WinDefend"@,
        "SecurityHealthService"@,
        "Sense"@,
        "wscsvc"@,
        "MpsSvc"@,
        "BFE"@,
        "SharedAccess"@,
        "IKEEXT"@,
        "PolicyAgent"@,
        "SamSs"@,
        "VaultSvc"@,
        "KeyIso"@,
    ]
}

/// Network services.
pub open spec fn network_services_spec() -> Seq<Seq<char>> {
    seq![
        "Dhcp"@,
        "Dnscache"@,
        "NlaSvc"@,
        "netprofm"@,
        "Netman"@,
        "LanmanServer"@,
        "LanmanWorkstation"@,
        "RpcSs"@,
        "RpcEptMapper"@,
        "lmhosts"@,
        "NetTcpPortSharing"@,
    ]
}

/// Critical system services (matched as name prefixes).
pub open spec fn system_services_spec() -> Seq<Seq<char>> {
    seq![
        "Wdf"@,
        "Wmi"@,
        "Power"@,
        "PlugPlay"@,
        "EventLog"@,
        "EventSystem"@,
        "Schedule"@,
        "ProfSvc"@,
        "UserManager"@,
        "LSM"@,
        "Winmgmt"@,
        "CoreMessagingRegistrar"@,
        "SystemEventsBroker"@,
        "TimeBrokerSvc"@,
    ]
}

fn telemetry_services() -> (r: Vec<&'static str>)
    ensures
        views(r@) == telemetry_services_spec(),
{
    let r = vec![
        "DiagTrack",
        "dmwappushservice",
        "WerSvc",
        "wercplsupport",
        "PcaSvc",
        "WdiSystemHost",
        "WdiServiceHost",
        "diagnosticshub.standardcollector.service",
        "DusmSvc",
        "MapsBroker",
        "lfsvc",
        "wisvc",
    ];
    assert(views(r@) =~= telemetry_services_spec());
    r
}

fn performance_services() -> (r: Vec<&'static str>)
    ensures
        views(r@) == performance_services_spec(),
{
    let r = vec![
        "SysMain",
        "WSearch",
        "Spooler",
        "Fax",
        "TabletInputService",
        "BITS",
        "wuauserv",
        "UsoSvc",
        "DoSvc",
    ];
    assert(views(r@) =~= performance_services_spec());
    r
}

fn security_services() -> (r: Vec<&'static str>)
    ensures
        views(r@) == security_services_spec(),
{
    let r = vec![
        "WinDefend",
        "SecurityHealthService",
        "Sense",
        "wscsvc",
        "MpsSvc",
        "BFE",
        "SharedAccess",
        "IKEEXT",
        "PolicyAgent",
        "SamSs",
        "VaultSvc",
        "KeyIso",
    ];
    assert(views(r@) =~= security_services_spec());
    r
}

fn network_services() -> (r: Vec<&'static str>)
    ensures
        views(r@) == network_services_spec(),
{
    let r = vec![
        "Dhcp",
        "Dnscache",
        "NlaSvc",
        "netprofm",
        "Netman",
        "LanmanServer",
        "LanmanWorkstation",
        "RpcSs",
        "RpcEptMapper",
        "lmhosts",
        "NetTcpPortSharing",
    ];
    assert(views(r@) =~= network_services_spec());
    r
}

fn system_services() -> (r: Vec<&'static str>)
    ensures
        views(r@) == system_services_spec(),
{
    let r = vec![
        "Wdf",
        "Wmi",
        "Power",
        "PlugPlay",
        "EventLog",
        "EventSystem",
        "Schedule",
        "ProfSvc",
        "UserManager",
        "LSM",
        "Winmgmt",
        "CoreMessagingRegistrar",
        "SystemEventsBroker",
        "TimeBrokerSvc",
    ];
    assert(views(r@) =~= system_services_spec());
    r
}

/// `name` equals an entry of `list`, ignoring ASCII case.
pub open spec fn listed_ignoring_case(name: Seq<char>, list: Seq<Seq<char>>) -> bool {
    exists|i: int| 0 <= i < list.len() && #[trigger] eq_ignore_ascii_case_spec(list[i], name)
}

/// The lowercased `name` begins with the lowercased form of an entry of `list`.
pub open spec fn lower_prefix_listed(name: Seq<char>, list: Seq<Seq<char>>) -> bool {
    exists|i: int|
        0 <= i < list.len() && #[trigger] seq_starts_with(lowercase(name), lowercase(list[i]))
}

/// The category of a service name: the known lists first (exact name,
/// ignoring ASCII case), then system prefixes, then keyword heuristics on
/// the lowercased name.
pub open spec fn service_category(name: Seq<char>) -> ServiceCategory {
    let lower = lowercase(name);
    if listed_ignoring_case(name, telemetry_services_spec()) {
        ServiceCategory::Telemetry
    } else if listed_ignoring_case(name, performance_services_spec()) {
        ServiceCategory::Performance
    } else if listed_ignoring_case(name, security_services_spec()) {
        ServiceCategory::Security
    } else if listed_ignoring_case(name, network_services_spec()) {
        ServiceCategory::Network
    } else if lower_prefix_listed(name, system_services_spec()) {
        ServiceCategory::System
    } else if seq_contains(lower, "xbox"@) || seq_contains(lower, "game"@) {
        ServiceCategory::Gaming
    } else if seq_contains(lower, "audio"@) || seq_contains(lower, "sound"@) {
        ServiceCategory::Media
    } else if seq_contains(lower, "bluetooth"@) || seq_contains(lower, "wifi"@) || seq_contains(
        lower,
        "wlan"@,
    ) {
        ServiceCategory::Network
    } else if seq_contains(lower, "print"@) || seq_contains(lower, "scan"@) {
        ServiceCategory::Peripheral
    } else if seq_starts_with(lower, "microsoft"@) || seq_starts_with(lower, "windows"@) {
        ServiceCategory::System
    } else {
        ServiceCategory::Unknown
    }
}

fn in_list_ignoring_case(name: &str, list: &Vec<&'static str>) -> (r: bool)
    ensures
        r == listed_ignoring_case(name@, views(list@)),
{
    let mut i: usize = 0;
    while i < list.len()
        invariant
            i <= list.len(),
            forall|j: int|
                0 <= j < i ==> !#[trigger] eq_ignore_ascii_case_spec(views(list@)[j], name@),
        decreases list.len() - i,
    {
        let entry: &str = list[i];
        if eq_ignore_ascii_case(entry, name) {
            assert(views(list@)[i as int] == entry@);
            return true;
        }
        i = i + 1;
    }
    false
}

fn lower_prefix_in_list(name: &str, list: &Vec<&'static str>) -> (r: bool)
    ensures
        r == lower_prefix_listed(name@, views(list@)),
{
    let lower = to_lowercase(name);
    let mut i: usize = 0;
    while i < list.len()
        invariant
            i <= list.len(),
            lower@ == lowercase(name@),
            forall|j: int|
                0 <= j < i ==> !#[trigger] seq_starts_with(
                    lowercase(name@),
                    lowercase(views(list@)[j]),
                ),
        decreases list.len() - i,
    {
        let entry: &str = list[i];
        let lentry = to_lowercase(entry);
        if str_starts_with(lower.as_str(), lentry.as_str()) {
            assert(views(list@)[i as int] == entry@);
            assert(seq_starts_with(lowercase(name@), lowercase(views(list@)[i as int])));
            return true;
        }
        i = i + 1;
    }
    false
}

/// Classifies a service by its name.
pub fn categorize_service(name: &str) -> (r: ServiceCategory)
    ensures
        r == service_category(name@),
{
    let lower = to_lowercase(name);
    let l = lower.as_str();
    if in_list_ignoring_case(name, &telemetry_services()) {
        return ServiceCategory::Telemetry;
    }
    if in_list_ignoring_case(name, &performance_services()) {
        return ServiceCategory::Performance;
    }
    if in_list_ignoring_case(name, &security_services()) {
        return ServiceCategory::Security;
    }
    if in_list_ignoring_case(name, &network_services()) {
        return ServiceCategory::Network;
    }
    if lower_prefix_in_list(name, &system_services()) {
        return ServiceCategory::System;
    }
    if str_contains(l, "xbox") || str_contains(l, "game") {
        return ServiceCategory::Gaming;
    }
    if str_contains(l, "audio") || str_contains(l, "sound") {
        return ServiceCategory::Media;
    }
    if str_contains(l, "bluetooth") || str_contains(l, "wifi") || str_contains(l, "wlan") {
        return ServiceCategory::Network;
    }
    if str_contains(l, "print") || str_contains(l, "scan") {
        return ServiceCategory::Peripheral;
    }
    if str_starts_with(l, "microsoft") || str_starts_with(l, "windows") {
        return ServiceCategory::System;
    }
    ServiceCategory::Unknown
}

/// `dwCurrentState` of a stopped service.
pub const SERVICE_STOPPED: u32 = 1;
/// `dwCurrentState` of a service that is starting.
pub const SERVICE_START_PENDING: u32 = 2;
/// `dwCurrentState` of a service that is stopping.
pub const SERVICE_STOP_PENDING: u32 = 3;
/// `dwCurrentState` of a running service.
pub const SERVICE_RUNNING: u32 = 4;
/// `dwCurrentState` of a service that is resuming.
pub const SERVICE_CONTINUE_PENDING: u32 = 5;
/// `dwCurrentState` of a service that is pausing.
pub const SERVICE_PAUSE_PENDING: u32 = 6;
/// `dwCurrentState` of a paused service.
pub const SERVICE_PAUSED: u32 = 7;

/// The status that a `dwCurrentState` code denotes.
pub open spec fn status_of_state(state: u32) -> ServiceStatus {
    if state == 1 {
        ServiceStatus::Stopped
    } else if state == 2 {
        ServiceStatus::StartPending
    } else if state == 3 {
        ServiceStatus::StopPending
    } else if state == 4 {
        ServiceStatus::Running
    } else if state == 5 {
        ServiceStatus::ContinuePending
    } else if state == 6 {
        ServiceStatus::PausePending
    } else if state == 7 {
        ServiceStatus::Paused
    } else {
        ServiceStatus::Unknown
    }
}

/// Decodes a `dwCurrentState` code.
pub fn service_status_from_state(state: u32) -> (r: ServiceStatus)
    ensures
        r == status_of_state(state),
{
    match state {
        1 => ServiceStatus::Stopped,
        2 => ServiceStatus::StartPending,
        3 => ServiceStatus::StopPending,
        4 => ServiceStatus::Running,
        5 => ServiceStatus::ContinuePending,
        6 => ServiceStatus::PausePending,
        7 => ServiceStatus::Paused,
        _ => ServiceStatus::Unknown,
    }
}

/// `dwStartType` of a driver loaded by the boot loader.
pub const SERVICE_BOOT_START: u32 = 0;
/// `dwStartType` of a driver started by the I/O system at initialization.
pub const SERVICE_SYSTEM_START: u32 = 1;
/// `dwStartType` of a service started automatically at boot.
pub const SERVICE_AUTO_START: u32 = 2;
/// `dwStartType` of a service started on demand.
pub const SERVICE_DEMAND_START: u32 = 3;
/// `dwStartType` of a service that cannot be started.
pub const SERVICE_DISABLED: u32 = 4;

/// The start type that a `dwStartType` code denotes; `None` (the
/// configuration could not be queried) is `Unknown`.
pub open spec fn start_type_of_code(code: Option<u32>) -> ServiceStartType {
    match code {
        Some(c) => if c == 0 {
            ServiceStartType::Boot
        } else if c == 1 {
            ServiceStartType::System
        } else if c == 2 {
            ServiceStartType::Automatic
        } else if c == 3 {
            ServiceStartType::Manual
        } else if c == 4 {
            ServiceStartType::Disabled
        } else {
            ServiceStartType::Unknown
        },
        None => ServiceStartType::Unknown,
    }
}

/// Decodes the `dwStartType` code of a service configuration.
pub fn service_start_type_from_code(code: Option<u32>) -> (r: ServiceStartType)
    ensures
        r == start_type_of_code(code),
{
    match code {
        Some(0) => ServiceStartType::Boot,
        Some(1) => ServiceStartType::System,
        Some(2) => ServiceStartType::Automatic,
        Some(3) => ServiceStartType::Manual,
        Some(4) => ServiceStartType::Disabled,
        _ => ServiceStartType::Unknown,
    }
}

/// One entry of the service enumeration, as read from the service manager.
#[derive(Debug, Clone)]
pub struct RawServiceEntry {
    pub name: String,
    pub display_name: String,
    /// `dwCurrentState`.
    pub current_state: u32,
    /// `dwProcessId`.
    pub process_id: u32,
    /// `dwStartType` of the service configuration, when it could be queried.
    pub start_type_code: Option<u32>,
}

/// The service record built from one enumeration entry.
pub open spec fn service_from_entry(s: ServiceInfo, e: RawServiceEntry) -> bool {
    &&& s.name@ == e.name@
    &&& s.display_name@ == e.display_name@
    &&& s.status == status_of_state(e.current_state)
    &&& s.start_type == start_type_of_code(e.start_type_code)
    &&& s.category == service_category(e.name@)
    &&& s.pid == if status_of_state(e.current_state) == ServiceStatus::Running {
        Some(e.process_id)
    } else {
        None
    }
}

/// Builds the service records of an enumeration, in order: status and start
/// type decoded, category from the name, process id kept for running services.
pub fn inspect_services(entries: &[RawServiceEntry]) -> (r: Vec<ServiceInfo>)
    ensures
        r@.len() == entries@.len(),
        forall|i: int| 0 <= i < r@.len() ==> service_from_entry(#[trigger] r@[i], entries@[i]),
{
    let mut services: Vec<ServiceInfo> = Vec::new();
    let mut i: usize = 0;
    while i < entries.len()
        invariant
            i <= entries.len(),
            services@.len() == i,
            forall|j: int|
                0 <= j < i ==> service_from_entry(#[trigger] services@[j], entries@[j]),
        decreases entries.len() - i,
    {
        let e = &entries[i];
        let status = service_status_from_state(e.current_state);
        let start_type = service_start_type_from_code(e.start_type_code);
        let pid = if status == ServiceStatus::Running {
            Some(e.process_id)
        } else {
            None
        };
        let category = categorize_service(e.name.as_str());
        services.push(
            ServiceInfo {
                name: e.name.clone(),
                display_name: e.display_name.clone(),
                status,
                start_type,
                category,
                pid,
            },
        );
        i = i + 1;
    }
    services
}

/// A running telemetry service.
pub open spec fn is_active_telemetry(s: ServiceInfo) -> bool {
    s.category == ServiceCategory::Telemetry && s.status == ServiceStatus::Running
}

/// A telemetry or performance service that is not disabled yet.
pub open spec fn is_safe_to_disable(s: ServiceInfo) -> bool {
    (s.category == ServiceCategory::Telemetry || s.category == ServiceCategory::Performance)
        && s.start_type != ServiceStartType::Disabled
}

/// The running telemetry services, in order.
pub fn get_active_telemetry_services(services: &[ServiceInfo]) -> (r: Vec<&ServiceInfo>)
    ensures
        r@.map_values(|s: &ServiceInfo| *s) == services@.filter(
            |s: ServiceInfo| is_active_telemetry(s),
        ),
{
    let mut r: Vec<&ServiceInfo> = Vec::new();
    let mut i: usize = 0;
    while i < services.len()
        invariant
            i <= services.len(),
            r@.map_values(|s: &ServiceInfo| *s) == services@.take(i as int).filter(
                |s: ServiceInfo| is_active_telemetry(s),
            ),
        decreases services.len() - i,
    {
        let s = &services[i];
        assert(services@.take(i + 1).drop_last() =~= services@.take(i as int));
        reveal_with_fuel(Seq::<_>::filter, 1);
        if s.category == ServiceCategory::Telemetry && s.status == ServiceStatus::Running {
            r.push(s);
        }
        assert(r@.map_values(|s: &ServiceInfo| *s) =~= services@.take(i + 1).filter(
            |s: ServiceInfo| is_active_telemetry(s),
        ));
        i = i + 1;
    }
    assert(services@.take(services.len() as int) =~= services@);
    r
}

/// Each start type is decoded from exactly its Win32 `dwStartType` code:
/// `SERVICE_BOOT_START` is Boot, `SERVICE_SYSTEM_START` System,
/// `SERVICE_AUTO_START` Automatic, `SERVICE_DEMAND_START` Manual and
/// `SERVICE_DISABLED` Disabled; any other code, or none, is Unknown.
pub proof fn lemma_start_types_follow_win32_codes(code: Option<u32>)
    ensures
        (start_type_of_code(code) == ServiceStartType::Boot) == (code == Some(SERVICE_BOOT_START)),
        (start_type_of_code(code) == ServiceStartType::System) == (code == Some(SERVICE_SYSTEM_START)),
        (start_type_of_code(code) == ServiceStartType::Automatic) == (code == Some(SERVICE_AUTO_START)),
        (start_type_of_code(code) == ServiceStartType::Manual) == (code == Some(SERVICE_DEMAND_START)),
        (start_type_of_code(code) == ServiceStartType::Disabled) == (code == Some(SERVICE_DISABLED)),
        (start_type_of_code(code) == ServiceStartType::Unknown) == (code is None || code->0
            > SERVICE_DISABLED),
{
}

/// A service whose configuration reads `SERVICE_DISABLED` is already
/// disabled, so it is never offered for disabling; a telemetry or
/// performance service configured `SERVICE_DEMAND_START` is.
pub proof fn lemma_disabled_services_are_not_offered(s: ServiceInfo, e: RawServiceEntry)
    requires
        service_from_entry(s, e),
    ensures
        e.start_type_code == Some(SERVICE_DISABLED) ==> !is_safe_to_disable(s),
        e.start_type_code == Some(SERVICE_DEMAND_START) && (s.category == ServiceCategory::Telemetry
            || s.category == ServiceCategory::Performance) ==> is_safe_to_disable(s),
{
}

/// Each status is decoded from exactly its Win32 `dwCurrentState` code, and
/// a service record keeps the process id of running services only.
pub proof fn lemma_statuses_follow_win32_codes(state: u32, s: ServiceInfo, e: RawServiceEntry)
    requires
        service_from_entry(s, e),
    ensures
        (status_of_state(state) == ServiceStatus::Stopped) == (state == SERVICE_STOPPED),
        (status_of_state(state) == ServiceStatus::StartPending) == (state == SERVICE_START_PENDING),
        (status_of_state(state) == ServiceStatus::StopPending) == (state == SERVICE_STOP_PENDING),
        (status_of_state(state) == ServiceStatus::Running) == (state == SERVICE_RUNNING),
        (status_of_state(state) == ServiceStatus::ContinuePending) == (state
            == SERVICE_CONTINUE_PENDING),
        (status_of_state(state) == ServiceStatus::PausePending) == (state == SERVICE_PAUSE_PENDING),
        (status_of_state(state) == ServiceStatus::Paused) == (state == SERVICE_PAUSED),
        (status_of_state(state) == ServiceStatus::Unknown) == (state == 0 || state > SERVICE_PAUSED),
        (s.pid is Some) == (e.current_state == SERVICE_RUNNING),
        s.pid is Some ==> s.pid->0 == e.process_id,
{
}

/// The services that can be disabled without risk, in order.
pub fn get_safe_to_disable(services: &[ServiceInfo]) -> (r: Vec<&ServiceInfo>)
    ensures
        r@.map_values(|s: &ServiceInfo| *s) == services@.filter(
            |s: ServiceInfo| is_safe_to_disable(s),
        ),
{
    let mut r: Vec<&ServiceInfo> = Vec::new();
    let mut i: usize = 0;
    while i < services.len()
        invariant
            i <= services.len(),
            r@.map_values(|s: &ServiceInfo| *s) == services@.take(i as int).filter(
                |s: ServiceInfo| is_safe_to_disable(s),
            ),
        decreases services.len() - i,
    {
        let s = &services[i];
        assert(services@.take(i + 1).drop_last() =~= services@.take(i as int));
        reveal_with_fuel(Seq::<_>::filter, 1);
        if (s.category == ServiceCategory::Telemetry || s.category == ServiceCategory::Performance)
            && s.start_type != ServiceStartType::Disabled {
            r.push(s);
        }
        assert(r@.map_values(|s: &ServiceInfo| *s) =~= services@.take(i + 1).filter(
            |s: ServiceInfo| is_safe_to_disable(s),
        ));
        i = i + 1;
    }
    assert(services@.take(services.len() as int) =~= services@);
    r
}

} // verus!
