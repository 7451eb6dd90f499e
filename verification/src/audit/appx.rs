//! Classification of installed Appx/UWP packages.
use vstd::prelude::*;

use crate::common::types::{AppxCategory, AppxInfo, RemovalRisk};
use crate::text::{
    char_vec, lowercase, occurs_at, owned, seq_contains, seq_starts_with, str_contains,
    str_starts_with, string_from_range, to_lowercase,
};

verus! {

/// Known bloatware package names.
pub open spec fn known_bloatware_spec() -> Seq<Seq<char>> {
    seq![
        "Microsoft.BingNews"@,
        "Microsoft.BingWeather"@,
        "Microsoft.BingFinance"@,
        "Microsoft.BingSports"@,
        "Microsoft.GamingApp"@,
        "Microsoft.GetHelp"@,
        "Microsoft.Getstarted"@,
        "Microsoft.MicrosoftOfficeHub"@,
        "Microsoft.MicrosoftSolitaireCollection"@,
        "Microsoft.People"@,
        "Microsoft.PowerAutomateDesktop"@,
        "Microsoft.Todos"@,
        "Microsoft.WindowsFeedbackHub"@,
        "Microsoft.WindowsMaps"@,
        "Microsoft.Xbox.TCUI"@,
        "Microsoft.XboxGameOverlay"@,
        "Microsoft.XboxGamingOverlay"@,
        "Microsoft.XboxIdentityProvider"@,
        "Microsoft.XboxSpeechToTextOverlay"@,
        "Microsoft.YourPhone"@,
        "Microsoft.ZuneMusic"@,
        "Microsoft.ZuneVideo"@,
        "Clipchamp.Clipchamp"@,
        "MicrosoftCorporationII.QuickAssist"@,
        "MicrosoftTeams"@,
        "Microsoft.549981C3F5F10"@,
        "Microsoft.MixedReality.Portal"@,
        "Microsoft.SkypeApp"@,
        "Microsoft.WindowsAlarms"@,
        "Microsoft.windowscommunicationsapps"@,
    ]
}

/// Critical system packages that must never be removed.
pub open spec fn system_critical_spec() -> Seq<Seq<char>> {
    seq![
        "Microsoft.WindowsStore"@,
        "Microsoft.Windows.ShellExperienceHost"@,
        "Microsoft.Windows.StartMenuExperienceHost"@,
        "Microsoft.Windows.Search"@,
        "Microsoft.AAD.BrokerPlugin"@,
        "Microsoft.AccountsControl"@,
        "Microsoft.UI.Xaml"@,
        "Microsoft.VCLibs"@,
        "Microsoft.NET"@,
        "Microsoft.WindowsAppRuntime"@,
    ]
}

/// Views of a list of string slices.
pub open spec fn views(v: Seq<&str>) -> Seq<Seq<char>> {
    v.map_values(|s: &str| s@)
}

/// Known bloatware package names (the Cortana package id, Mail/Calendar
/// and the Xbox overlays among them).
pub fn known_bloatware() -> (r: Vec<&'static str>)
    ensures
        views(r@) == known_bloatware_spec(),
{
    let r = vec![
        "Microsoft.BingNews",
        "Microsoft.BingWeather",
        "Microsoft.BingFinance",
        "Microsoft.BingSports",
        "Microsoft.GamingApp",
        "Microsoft.GetHelp",
        "Microsoft.Getstarted",
        "Microsoft.MicrosoftOfficeHub",
        "Microsoft.MicrosoftSolitaireCollection",
        "Microsoft.People",
        "Microsoft.PowerAutomateDesktop",
        "Microsoft.Todos",
        "Microsoft.WindowsFeedbackHub",
        "Microsoft.WindowsMaps",
        "Microsoft.Xbox.TCUI",
        "Microsoft.XboxGameOverlay",
        "Microsoft.XboxGamingOverlay",
        "Microsoft.XboxIdentityProvider",
        "Microsoft.XboxSpeechToTextOverlay",
        "Microsoft.YourPhone",
        "Microsoft.ZuneMusic",
        "Microsoft.ZuneVideo",
        "Clipchamp.Clipchamp",
        "MicrosoftCorporationII.QuickAssist",
        "MicrosoftTeams",
        "Microsoft.549981C3F5F10",
        "Microsoft.MixedReality.Portal",
        "Microsoft.SkypeApp",
        "Microsoft.WindowsAlarms",
        "Microsoft.windowscommunicationsapps",
    ];
    assert(views(r@) =~= known_bloatware_spec());
    r
}

/// Critical system packages that must never be removed.
pub fn system_critical() -> (r: Vec<&'static str>)
    ensures
        views(r@) == system_critical_spec(),
{
    let r = vec![
        "Microsoft.WindowsStore",
        "Microsoft.Windows.ShellExperienceHost",
        "Microsoft.Windows.StartMenuExperienceHost",
        "Microsoft.Windows.Search",
        "Microsoft.AAD.BrokerPlugin",
        "Microsoft.AccountsControl",
        "Microsoft.UI.Xaml",
        "Microsoft.VCLibs",
        "Microsoft.NET",
        "Microsoft.WindowsAppRuntime",
    ];
    assert(views(r@) =~= system_critical_spec());
    r
}

/// The category of a package, from its lowercased name.
pub open spec fn category_of_lower(lower: Seq<char>) -> AppxCategory {
    if seq_starts_with(lower, "microsoft.windows"@) || seq_starts_with(lower, "microsoft.ui"@)
        || seq_contains(lower, "runtime"@) {
        AppxCategory::System
    } else if seq_contains(lower, "xbox"@) || seq_contains(lower, "gaming"@) {
        AppxCategory::Gaming
    } else if seq_contains(lower, "office"@) || seq_contains(lower, "onenote"@) || seq_contains(
        lower,
        "outlook"@,
    ) {
        AppxCategory::Productivity
    } else if seq_contains(lower, "zune"@) || seq_contains(lower, "media"@) || seq_contains(
        lower,
        "photo"@,
    ) {
        AppxCategory::Media
    } else if seq_contains(lower, "calculator"@) || seq_contains(lower, "paint"@)
        || seq_contains(lower, "notepad"@) {
        AppxCategory::Utility
    } else if seq_starts_with(lower, "microsoft."@) {
        AppxCategory::Microsoft
    } else {
        AppxCategory::ThirdParty
    }
}

/// The category of a package name.
pub open spec fn package_category(name: Seq<char>) -> AppxCategory {
    category_of_lower(lowercase(name))
}

/// Classifies a package by its name.
pub fn categorize_package(name: &str) -> (r: AppxCategory)
    ensures
        r == package_category(name@),
{
    let lower = to_lowercase(name);
    let l = lower.as_str();
    if str_starts_with(l, "microsoft.windows") || str_starts_with(l, "microsoft.ui")
        || str_contains(l, "runtime") {
        AppxCategory::System
    } else if str_contains(l, "xbox") || str_contains(l, "gaming") {
        AppxCategory::Gaming
    } else if str_contains(l, "office") || str_contains(l, "onenote") || str_contains(
        l,
        "outlook",
    ) {
        AppxCategory::Productivity
    } else if str_contains(l, "zune") || str_contains(l, "media") || str_contains(l, "photo") {
        AppxCategory::Media
    } else if str_contains(l, "calculator") || str_contains(l, "paint") || str_contains(
        l,
        "notepad",
    ) {
        AppxCategory::Utility
    } else if str_starts_with(l, "microsoft.") {
        AppxCategory::Microsoft
    } else {
        AppxCategory::ThirdParty
    }
}

/// The lowercased `name` begins with the lowercased form of one of `list`.
pub open spec fn has_listed_prefix(name: Seq<char>, list: Seq<Seq<char>>) -> bool {
    exists|i: int|
        0 <= i < list.len() && #[trigger] seq_starts_with(lowercase(name), lowercase(list[i]))
}

/// The removal risk of a package name: critical system packages first,
/// then known bloatware, then caution for other `Microsoft.` packages.
pub open spec fn package_risk(name: Seq<char>) -> RemovalRisk {
    if has_listed_prefix(name, system_critical_spec()) {
        RemovalRisk::Critical
    } else if has_listed_prefix(name, known_bloatware_spec()) {
        RemovalRisk::Safe
    } else if seq_starts_with(name, "Microsoft."@) {
        RemovalRisk::Caution
    } else {
        RemovalRisk::Safe
    }
}

/// Whether the lowercased `name` begins with the lowercased form of an
/// entry of `list`.
fn listed_prefix(name: &str, list: &Vec<&'static str>) -> (r: bool)
    ensures
        r == has_listed_prefix(name@, views(list@)),
{
    let mut i: usize = 0;
    while i < list.len()
        invariant
            i <= list.len(),
            forall|j: int|
                0 <= j < i ==> !#[trigger] seq_starts_with(
                    lowercase(name@),
                    lowercase(views(list@)[j]),
                ),
        decreases list.len() - i,
    {
        let entry: &str = list[i];
        let lname = to_lowercase(name);
        let lentry = to_lowercase(entry);
        if str_starts_with(lname.as_str(), lentry.as_str()) {
            assert(views(list@)[i as int] == entry@);
            assert(seq_starts_with(lowercase(name@), lowercase(views(list@)[i as int])));
            return true;
        }
        i = i + 1;
    }
    false
}

/// A `Microsoft.` package that is neither system-critical nor known
/// bloatware is removed with caution, never reported safe; a package that
/// is neither and does not start with `Microsoft.` is safe; critical
/// packages stay critical whatever else their name matches; and caution is
/// given to `Microsoft.` packages only.
pub proof fn lemma_unlisted_microsoft_packages_need_caution(name: Seq<char>)
    ensures
        !has_listed_prefix(name, system_critical_spec()) && !has_listed_prefix(
            name,
            known_bloatware_spec(),
        ) ==> (package_risk(name) == RemovalRisk::Caution <==> seq_starts_with(name, "Microsoft."@)),
        !has_listed_prefix(name, system_critical_spec()) && !has_listed_prefix(
            name,
            known_bloatware_spec(),
        ) ==> (package_risk(name) == RemovalRisk::Safe <==> !seq_starts_with(name, "Microsoft."@)),
        has_listed_prefix(name, system_critical_spec()) ==> package_risk(name)
            == RemovalRisk::Critical,
        package_risk(name) == RemovalRisk::Caution ==> seq_starts_with(name, "Microsoft."@),
{
}

/// Assesses the removal risk of a package by its name.
pub fn assess_removal_risk(name: &str) -> (r: RemovalRisk)
    ensures
        r == package_risk(name@),
{
    if listed_prefix(name, &system_critical()) {
        return RemovalRisk::Critical;
    }
    if listed_prefix(name, &known_bloatware()) {
        return RemovalRisk::Safe;
    }
    if str_starts_with(name, "Microsoft.") {
        RemovalRisk::Caution
    } else {
        RemovalRisk::Safe
    }
}

/// A package is listed as bloatware: its risk is `Safe` and its name
/// begins (ignoring case) with a known bloatware name.
pub open spec fn is_bloatware(p: AppxInfo) -> bool {
    p.removal_risk == RemovalRisk::Safe && has_listed_prefix(p.name@, known_bloatware_spec())
}

/// The detected bloatware among `packages`, in their order.
pub fn get_bloatware(packages: &[AppxInfo]) -> (r: Vec<&AppxInfo>)
    ensures
        r@.map_values(|p: &AppxInfo| *p) == packages@.filter(|p: AppxInfo| is_bloatware(p)),
{
    let list = known_bloatware();
    let mut r: Vec<&AppxInfo> = Vec::new();
    let mut i: usize = 0;
    while i < packages.len()
        invariant
            i <= packages.len(),
            views(list@) == known_bloatware_spec(),
            r@.map_values(|p: &AppxInfo| *p) == packages@.take(i as int).filter(
                |p: AppxInfo| is_bloatware(p),
            ),
        decreases packages.len() - i,
    {
        let p = &packages[i];
        let keep = p.removal_risk == RemovalRisk::Safe && listed_prefix(p.name.as_str(), &list);
        assert(packages@.take(i + 1).drop_last() =~= packages@.take(i as int));
        reveal_with_fuel(Seq::<_>::filter, 1);
        if keep {
            r.push(p);
        }
        assert(r@.map_values(|p: &AppxInfo| *p) =~= packages@.take(i + 1).filter(
            |p: AppxInfo| is_bloatware(p),
        ));
        i = i + 1;
    }
    assert(packages@.take(packages.len() as int) =~= packages@);
    r
}

/// The part of `s` before the first `c` (all of `s` when `c` does not occur).
pub open spec fn prefix_before(s: Seq<char>, c: char) -> Seq<char>
    decreases s.len(),
{
    if s.len() == 0 {
        s
    } else if s[0] == c {
        Seq::empty()
    } else {
        seq![s[0]] + prefix_before(s.drop_first(), c)
    }
}

proof fn lemma_prefix_before(s: Seq<char>, c: char, k: int)
    requires
        0 <= k <= s.len(),
        forall|j: int| 0 <= j < k ==> s[j] != c,
        k == s.len() || s[k] == c,
    ensures
        prefix_before(s, c) == s.subrange(0, k),
    decreases k,
{
    if k == 0 {
        if s.len() > 0 {
            assert(s[0] == c);
        }
        assert(s.subrange(0, 0) =~= Seq::<char>::empty());
    } else {
        lemma_prefix_before(s.drop_first(), c, k - 1);
        assert(s.subrange(0, k) =~= seq![s[0]] + s.drop_first().subrange(0, k - 1));
    }
}

/// The short name of a package: its full name up to the first `_`.
pub open spec fn package_name_of(full: Seq<char>) -> Seq<char> {
    prefix_before(full, '_')
}

/// The short name of a package: its full name up to the first `_`.
pub fn package_name(full_name: &str) -> (r: String)
    ensures
        r@ == package_name_of(full_name@),
{
    let v = char_vec(full_name);
    let mut k: usize = 0;
    while k < v.len() && v[k] != '_'
        invariant
            k <= v.len(),
            forall|j: int| 0 <= j < k ==> v@[j] != '_',
        decreases v.len() - k,
    {
        k = k + 1;
    }
    proof {
        lemma_prefix_before(v@, '_', k as int);
    }
    string_from_range(&v, 0, k)
}

/// The most packages one scan reports.
pub open spec fn max_scanned() -> nat {
    201
}

/// The package record that a scan reports for one full package name.
pub open spec fn scanned_package(p: AppxInfo, full: Seq<char>) -> bool {
    &&& p.name@ == package_name_of(full)
    &&& p.full_name@ == full
    &&& p.publisher@ == Seq::<char>::empty()
    &&& p.version@ == Seq::<char>::empty()
    &&& !p.is_provisioned
    &&& p.category == package_category(package_name_of(full))
    &&& p.removal_risk == package_risk(package_name_of(full))
}

/// Builds the package records for the enumerated full package names, in
/// order, stopping after 201 of them.
pub fn scan_packages(full_names: &[String]) -> (r: Vec<AppxInfo>)
    ensures
        r@.len() == if full_names@.len() < max_scanned() {
            full_names@.len()
        } else {
            max_scanned()
        },
        forall|i: int| 0 <= i < r@.len() ==> scanned_package(#[trigger] r@[i], full_names@[i]@),
{
    let mut packages: Vec<AppxInfo> = Vec::new();
    let mut index: usize = 0;
    // Enumeration stops after 201 packages so that one scan stays bounded.
    while index < full_names.len() && index <= 200
        invariant
            index <= full_names.len(),
            index <= 201,
            packages@.len() == index,
            forall|i: int|
                0 <= i < index ==> scanned_package(#[trigger] packages@[i], full_names@[i]@),
        decreases full_names.len() - index,
    {
        let full: &String = &full_names[index];
        let name = package_name(full.as_str());
        let category = categorize_package(name.as_str());
        let removal_risk = assess_removal_risk(name.as_str());
        packages.push(
            AppxInfo {
                name,
                full_name: full.clone(),
                publisher: String::new(),
                version: String::new(),
                is_provisioned: false,
                category,
                removal_risk,
            },
        );
        index = index + 1;
    }
    packages
}

} // verus!
