//! The state machine of the dashboard: categories of the option catalogue, a
//! cursor, the selected flags, the log, and what each key does.
use crate::interactive::catalog::{
    appx_options, appx_section, cleanup_options, cleanup_section, cpu_options, cpu_section,
    dns_options, dns_section, dpc_options, dpc_section, network_advanced_options,
    network_advanced_section, performance_options, performance_section, privacy_options,
    privacy_section, scheduler_options, scheduler_section, security_options, security_section,
    telemetry_options, telemetry_section, OptItem,
};
use crate::interactive::selection::{selected, Selection};
use crate::text::owned;
use vstd::prelude::*;

verus! {

/// How many log entries the dashboard keeps.
pub const MAX_DASHBOARD_LOGS: usize = 200;

/// What the dashboard shows.
#[derive(PartialEq, Eq, Structural, Debug, Clone, Copy)]
pub enum ViewMode {
    Dashboard,
    Audit,
}

/// The level of a log entry.
#[derive(PartialEq, Eq, Structural, Debug, Clone, Copy)]
pub enum LogLevel {
    Info,
    Success,
    Warning,
    Error,
}

/// One entry of the log.
#[derive(Debug, Clone)]
pub struct LogEntry {
    pub timestamp: String,
    pub level: LogLevel,
    pub message: String,
    pub details: Option<String>,
}

/// A log entry as mathematical values.
pub struct LogRecord {
    pub timestamp: Seq<char>,
    pub level: LogLevel,
    pub message: Seq<char>,
    pub details: Option<Seq<char>>,
}

impl View for LogEntry {
    type V = LogRecord;

    open spec fn view(&self) -> LogRecord {
        LogRecord {
            timestamp: self.timestamp@,
            level: self.level,
            message: self.message@,
            details: match self.details {
                Some(d) => Some(d@),
                None => None,
            },
        }
    }
}

/// A key that the dashboard reacts to.
#[derive(PartialEq, Eq, Structural, Debug, Clone, Copy)]
pub enum DashboardKey {
    /// `q`
    Quit,
    Escape,
    Up,
    Down,
    Left,
    Right,
    /// The space bar.
    Toggle,
    /// Enter.
    Apply,
    /// `a`
    SelectAll,
    /// `d`
    DeselectAll,
    /// `c`
    RunCategory,
    /// `r`
    Rollback,
    Other,
}

/// What the program around the dashboard does after a key.
pub enum DashboardEffect {
    /// Nothing more.
    Stay,
    /// Leave the dashboard.
    Exit,
    /// Apply these options, each with the name of its category.
    RunBatch(Vec<(String, OptItem)>),
    /// Run a system audit and log its progress.
    RunAudit,
}

/// A [`DashboardEffect`] as mathematical values.
pub enum EffectView {
    Stay,
    Exit,
    RunBatch(Seq<(Seq<char>, OptItem)>),
    RunAudit,
}

impl View for DashboardEffect {
    type V = EffectView;

    open spec fn view(&self) -> EffectView {
        match self {
            DashboardEffect::Stay => EffectView::Stay,
            DashboardEffect::Exit => EffectView::Exit,
            DashboardEffect::RunBatch(b) => EffectView::RunBatch(
                b@.map_values(|p: (String, OptItem)| (p.0@, p.1)),
            ),
            DashboardEffect::RunAudit => EffectView::RunAudit,
        }
    }
}

/// The dashboard as mathematical values.
pub struct DashView {
    pub logs: Seq<LogRecord>,
    pub is_laptop: bool,
    pub admin_status: bool,
    pub current_view: ViewMode,
    pub categories: Seq<(&'static str, Seq<OptItem>)>,
    pub selected_category: int,
    pub selected_option: int,
    pub options_state: Map<Seq<char>, bool>,
}

/// The categories of the dashboard.
pub open spec fn dashboard_categories(is_laptop: bool) -> Seq<(&'static str, Seq<OptItem>)> {
    seq![
        ("Telemetry", telemetry_options()),
        ("Privacy", privacy_options()),
        ("Performance", performance_options(is_laptop)),
        ("Scheduler", scheduler_options()),
        ("AppX Bloat", appx_options()),
        ("CPU/Mem", cpu_options(is_laptop)),
        ("DPC Latency", dpc_options()),
        ("Security", security_options()),
        ("Network", network_advanced_options()),
        ("DNS", dns_options()),
        ("Cleanup", cleanup_options()),
    ]
}

/// The options of the selected category.
pub open spec fn options_of(s: DashView) -> Seq<OptItem> {
    s.categories[s.selected_category].1
}

/// The dashboard is consistent: every category has options, the cursor is on
/// one of them, every option has a flag, and the log is bounded.
pub open spec fn dash_consistent(s: DashView) -> bool {
    &&& s.categories.len() > 0
    &&& forall|c: int| 0 <= c < s.categories.len() ==> (#[trigger] s.categories[c]).1.len() > 0
    &&& 0 <= s.selected_category < s.categories.len()
    &&& 0 <= s.selected_option < options_of(s).len()
    &&& s.logs.len() <= MAX_DASHBOARD_LOGS
    &&& forall|c: int, j: int|
        0 <= c < s.categories.len() && 0 <= j < s.categories[c].1.len()
            ==> s.options_state.dom().contains(#[trigger] s.categories[c].1[j].id@)
}

/// The flags after giving every option of `items` a value, in order: `value`
/// when it is given, else the option's default.
pub open spec fn assign(m: Map<Seq<char>, bool>, items: Seq<OptItem>, value: Option<bool>) -> Map<
    Seq<char>,
    bool,
>
    decreases items.len(),
{
    if items.len() == 0 {
        m
    } else {
        assign(m, items.drop_last(), value).insert(
            items.last().id@,
            match value {
                Some(b) => b,
                None => items.last().default,
            },
        )
    }
}

/// The default flags of every option of `cats`, category after category.
pub open spec fn catalog_defaults(cats: Seq<(&'static str, Seq<OptItem>)>) -> Map<Seq<char>, bool>
    decreases cats.len(),
{
    if cats.len() == 0 {
        Map::empty()
    } else {
        assign(catalog_defaults(cats.drop_last()), cats.last().1, None)
    }
}

/// The log after adding `r`: the oldest entry goes when the log is full.
pub open spec fn logged(logs: Seq<LogRecord>, r: LogRecord) -> Seq<LogRecord> {
    if logs.len() >= MAX_DASHBOARD_LOGS {
        logs.drop_first().push(r)
    } else {
        logs.push(r)
    }
}

/// The text of an optional string.
pub open spec fn text_of(details: Option<&str>) -> Option<Seq<char>> {
    match details {
        Some(d) => Some(d@),
        None => None,
    }
}

/// An entry of the log.
pub open spec fn entry_of(now: Seq<char>, level: LogLevel, message: Seq<char>, details: Option<Seq<char>>) -> LogRecord {
    LogRecord { timestamp: now, level, message, details }
}

/// `s` with `r` added to the log.
pub open spec fn after_log(s: DashView, r: LogRecord) -> DashView {
    DashView { logs: logged(s.logs, r), ..s }
}

/// An entry without details.
pub open spec fn record(now: Seq<char>, level: LogLevel, message: Seq<char>) -> LogRecord {
    LogRecord { timestamp: now, level, message, details: None }
}

/// The selected options of `items`, each with the category name.
pub open spec fn picked(name: Seq<char>, items: Seq<OptItem>, m: Map<Seq<char>, bool>) -> Seq<
    (Seq<char>, OptItem),
>
    decreases items.len(),
{
    if items.len() == 0 {
        Seq::empty()
    } else {
        picked(name, items.drop_last(), m) + if selected(m, items.last().id@) {
            seq![(name, items.last())]
        } else {
            Seq::empty()
        }
    }
}

/// The selected options of all categories, in order.
pub open spec fn batch(cats: Seq<(&'static str, Seq<OptItem>)>, m: Map<Seq<char>, bool>) -> Seq<
    (Seq<char>, OptItem),
>
    decreases cats.len(),
{
    if cats.len() == 0 {
        Seq::empty()
    } else {
        batch(cats.drop_last(), m) + picked(cats.last().0@, cats.last().1, m)
    }
}

/// The state of a new dashboard.
pub open spec fn dash_initial(is_laptop: bool, admin_status: bool) -> DashView {
    DashView {
        logs: Seq::empty(),
        is_laptop,
        admin_status,
        current_view: ViewMode::Dashboard,
        categories: dashboard_categories(is_laptop),
        selected_category: 0,
        selected_option: 0,
        options_state: catalog_defaults(dashboard_categories(is_laptop)),
    }
}

/// `s` with an entry logged at `now`.
pub open spec fn with_log(s: DashView, now: Seq<char>, level: LogLevel, message: Seq<char>) -> DashView {
    after_log(s, record(now, level, message))
}

/// The state after `key`, with `executing` telling whether a batch is running
/// and `now` the time of any entry logged.
pub open spec fn dash_state(s: DashView, key: DashboardKey, executing: bool, now: Seq<char>) -> DashView {
    let on_dashboard = s.current_view == ViewMode::Dashboard;
    let items = options_of(s);
    match key {
        DashboardKey::Quit => s,
        DashboardKey::Escape => if !on_dashboard {
            with_log(
                DashView { current_view: ViewMode::Dashboard, ..s },
                now,
                LogLevel::Info,
                "Returned to Dashboard"@,
            )
        } else {
            s
        },
        DashboardKey::Up => if on_dashboard && s.selected_option > 0 {
            DashView { selected_option: s.selected_option - 1, ..s }
        } else {
            s
        },
        DashboardKey::Down => if on_dashboard && s.selected_option < items.len() - 1 {
            DashView { selected_option: s.selected_option + 1, ..s }
        } else {
            s
        },
        DashboardKey::Left => if on_dashboard && s.selected_category > 0 {
            DashView { selected_category: s.selected_category - 1, selected_option: 0, ..s }
        } else {
            s
        },
        DashboardKey::Right => if on_dashboard && s.selected_category < s.categories.len() - 1 {
            DashView { selected_category: s.selected_category + 1, selected_option: 0, ..s }
        } else {
            s
        },
        DashboardKey::Toggle => if on_dashboard {
            let id = items[s.selected_option].id@;
            DashView { options_state: s.options_state.insert(id, !selected(s.options_state, id)), ..s }
        } else {
            s
        },
        DashboardKey::Apply => if on_dashboard && !executing {
            if batch(s.categories, s.options_state).len() > 0 {
                DashView { current_view: ViewMode::Audit, ..s }
            } else {
                with_log(s, now, LogLevel::Warning, "No options selected"@)
            }
        } else {
            s
        },
        DashboardKey::SelectAll => if on_dashboard {
            with_log(
                DashView { options_state: assign(s.options_state, items, Some(true)), ..s },
                now,
                LogLevel::Info,
                "Selected all in category"@,
            )
        } else {
            with_log(
                DashView { current_view: ViewMode::Audit, ..s },
                now,
                LogLevel::Info,
                "Starting System Audit..."@,
            )
        },
        DashboardKey::DeselectAll => if on_dashboard {
            with_log(
                DashView { options_state: assign(s.options_state, items, Some(false)), ..s },
                now,
                LogLevel::Info,
                "Deselected all in category"@,
            )
        } else {
            s
        },
        DashboardKey::RunCategory => if on_dashboard && !executing {
            with_log(
                DashView {
                    options_state: assign(s.options_state, items, Some(true)),
                    current_view: ViewMode::Audit,
                    ..s
                },
                now,
                LogLevel::Info,
                "Executing current category..."@,
            )
        } else {
            s
        },
        DashboardKey::Rollback => if on_dashboard {
            with_log(s, now, LogLevel::Warning, "Rollback menu integration pending"@)
        } else {
            s
        },
        DashboardKey::Other => s,
    }
}

/// What the program does after `key`.
pub open spec fn dash_effect(s: DashView, key: DashboardKey, executing: bool) -> EffectView {
    let on_dashboard = s.current_view == ViewMode::Dashboard;
    match key {
        DashboardKey::Quit => EffectView::Exit,
        DashboardKey::Apply => if on_dashboard && !executing && batch(s.categories, s.options_state).len()
            > 0 {
            EffectView::RunBatch(batch(s.categories, s.options_state))
        } else {
            EffectView::Stay
        },
        DashboardKey::SelectAll => if on_dashboard {
            EffectView::Stay
        } else {
            EffectView::RunAudit
        },
        DashboardKey::RunCategory => if on_dashboard && !executing {
            EffectView::RunBatch(
                options_of(s).map_values(
                    |o: OptItem| (s.categories[s.selected_category].0@, o),
                ),
            )
        } else {
            EffectView::Stay
        },
        _ => EffectView::Stay,
    }
}

/// The dashboard state.
pub struct AppState {
    pub logs: Vec<LogEntry>,
    pub is_laptop: bool,
    pub admin_status: bool,
    pub current_view: ViewMode,
    pub categories: Vec<(&'static str, Vec<OptItem>)>,
    pub selected_category: usize,
    pub selected_option: usize,
    pub options_state: Selection,
}

impl View for AppState {
    type V = DashView;

    open spec fn view(&self) -> DashView {
        DashView {
            logs: self.logs@.map_values(|e: LogEntry| e@),
            is_laptop: self.is_laptop,
            admin_status: self.admin_status,
            current_view: self.current_view,
            categories: self.categories@.map_values(|c: (&'static str, Vec<OptItem>)| (c.0, c.1@)),
            selected_category: self.selected_category as int,
            selected_option: self.selected_option as int,
            options_state: self.options_state@,
        }
    }
}

/// `assign` keeps what `m` holds and gives every option of `items` a flag.
proof fn lemma_assign_dom(m: Map<Seq<char>, bool>, items: Seq<OptItem>, value: Option<bool>)
    ensures
        forall|k: Seq<char>| m.dom().contains(k) ==> #[trigger] assign(m, items, value).dom().contains(k),
        forall|j: int|
            0 <= j < items.len() ==> assign(m, items, value).dom().contains(#[trigger] items[j].id@),
    decreases items.len(),
{
    if items.len() > 0 {
        lemma_assign_dom(m, items.drop_last(), value);
        assert(assign(m, items, value) == assign(m, items.drop_last(), value).insert(
            items.last().id@,
            match value {
                Some(b) => b,
                None => items.last().default,
            },
        ));
        assert forall|j: int| 0 <= j < items.len() implies assign(m, items, value).dom().contains(
            #[trigger] items[j].id@,
        ) by {
            if j < items.len() - 1 {
                assert(items.drop_last()[j] == items[j]);
            }
        }
    }
}

/// `catalog_defaults` gives every option of every category a flag.
proof fn lemma_catalog_defaults_dom(cats: Seq<(&'static str, Seq<OptItem>)>)
    ensures
        forall|c: int, j: int|
            0 <= c < cats.len() && 0 <= j < cats[c].1.len() ==> catalog_defaults(cats).dom().contains(
                #[trigger] cats[c].1[j].id@,
            ),
    decreases cats.len(),
{
    if cats.len() > 0 {
        lemma_catalog_defaults_dom(cats.drop_last());
        lemma_assign_dom(catalog_defaults(cats.drop_last()), cats.last().1, None);
        assert(catalog_defaults(cats) == assign(catalog_defaults(cats.drop_last()), cats.last().1, None));
        assert forall|c: int, j: int|
            0 <= c < cats.len() && 0 <= j < cats[c].1.len() implies catalog_defaults(cats).dom().contains(
            #[trigger] cats[c].1[j].id@,
        ) by {
            if c < cats.len() - 1 {
                assert(cats.drop_last()[c] == cats[c]);
                assert(catalog_defaults(cats.drop_last()).dom().contains(cats[c].1[j].id@));
            }
        }
    }
}

impl AppState {
    /// The state is well formed: the selection is, and the dashboard is
    /// consistent.
    pub open spec fn wf(&self) -> bool {
        self.options_state.wf() && dash_consistent(self@)
    }

    /// A new dashboard, each option with its default flag.
    pub fn new(is_laptop: bool, admin_status: bool) -> (r: Self)
        ensures
            r.wf(),
            r@ == dash_initial(is_laptop, admin_status),
    {
        let categories = vec![
            ("Telemetry", telemetry_section()),
            ("Privacy", privacy_section()),
            ("Performance", performance_section(is_laptop)),
            ("Scheduler", scheduler_section()),
            ("AppX Bloat", appx_section()),
            ("CPU/Mem", cpu_section(is_laptop)),
            ("DPC Latency", dpc_section()),
            ("Security", security_section()),
            ("Network", network_advanced_section()),
            ("DNS", dns_section()),
            ("Cleanup", cleanup_section()),
        ];
        let ghost cats = dashboard_categories(is_laptop);
        assert(categories@.map_values(|c: (&'static str, Vec<OptItem>)| (c.0, c.1@)) =~= cats);
        let mut options_state = Selection::new();
        let mut c: usize = 0;
        while c < categories.len()
            invariant
                cats == dashboard_categories(is_laptop),
                categories@.map_values(|c: (&'static str, Vec<OptItem>)| (c.0, c.1@)) == cats,
                c <= categories@.len(),
                options_state.wf(),
                options_state@ == catalog_defaults(cats.take(c as int)),
            decreases categories.len() - c,
        {
            assert(cats[c as int].1 == categories@[c as int].1@);
            let items = &categories[c].1;
            let ghost before = options_state@;
            let mut j: usize = 0;
            while j < items.len()
                invariant
                    j <= items@.len(),
                    options_state.wf(),
                    options_state@ == assign(before, items@.take(j as int), None),
                decreases items.len() - j,
            {
                options_state.insert(items[j].id, items[j].default);
                assert(items@.take(j + 1).drop_last() =~= items@.take(j as int));
                j = j + 1;
            }
            assert(items@.take(j as int) =~= items@);
            assert(cats.take(c + 1).drop_last() =~= cats.take(c as int));
            c = c + 1;
        }
        assert(cats.take(c as int) =~= cats);
        let r = AppState {
            logs: Vec::new(),
            is_laptop,
            admin_status,
            current_view: ViewMode::Dashboard,
            categories,
            selected_category: 0,
            selected_option: 0,
            options_state,
        };
        assert(r@.logs =~= Seq::<LogRecord>::empty());
        proof {
            lemma_catalog_defaults_dom(cats);
        }
        r
    }

    /// Adds an entry stamped `timestamp`; the oldest entry goes when the log is
    /// full.
    pub fn add_log(&mut self, timestamp: String, level: LogLevel, message: &str, details: Option<&str>)
        requires
            old(self).wf(),
        ensures
            final(self).wf(),
            final(self)@ == after_log(old(self)@, entry_of(timestamp@, level, message@, text_of(details))),
    {
        let ghost before = self.logs@;
        if self.logs.len() >= MAX_DASHBOARD_LOGS {
            self.logs.remove(0);
        }
        let details_text = match details {
            Some(d) => Some(owned(d)),
            None => None,
        };
        self.logs.push(LogEntry { timestamp, level, message: owned(message), details: details_text });
        assert(self@.logs =~= logged(
            before.map_values(|e: LogEntry| e@),
            entry_of(timestamp@, level, message@, text_of(details)),
        ));
    }
}

/// The selected options of `items` come before those of the next item.
proof fn lemma_picked_step(name: Seq<char>, items: Seq<OptItem>, m: Map<Seq<char>, bool>, j: int)
    requires
        0 <= j < items.len(),
    ensures
        picked(name, items.take(j + 1), m) == picked(name, items.take(j), m) + if selected(
            m,
            items[j].id@,
        ) {
            seq![(name, items[j])]
        } else {
            Seq::empty()
        },
{
    assert(items.take(j + 1).drop_last() =~= items.take(j));
}

/// Every key keeps the dashboard consistent.
pub proof fn lemma_dash_step_consistent(s: DashView, key: DashboardKey, executing: bool, now: Seq<char>)
    requires
        dash_consistent(s),
    ensures
        dash_consistent(dash_state(s, key, executing, now)),
{
    lemma_assign_dom(s.options_state, options_of(s), Some(true));
    lemma_assign_dom(s.options_state, options_of(s), Some(false));
    if s.selected_category > 0 {
        assert(s.categories[s.selected_category - 1].1.len() > 0);
    }
    if s.selected_category < s.categories.len() - 1 {
        assert(s.categories[s.selected_category + 1].1.len() > 0);
    }
}

impl AppState {
    /// Flags every option of the selected category.
    pub fn select_all_in_category(&mut self)
        requires
            old(self).wf(),
        ensures
            final(self).wf(),
            final(self)@ == (DashView {
                options_state: assign(old(self)@.options_state, options_of(old(self)@), Some(true)),
                ..old(self)@
            }),
    {
        self.set_category_flags(true);
    }

    /// Clears the flag of every option of the selected category.
    pub fn deselect_all_in_category(&mut self)
        requires
            old(self).wf(),
        ensures
            final(self).wf(),
            final(self)@ == (DashView {
                options_state: assign(old(self)@.options_state, options_of(old(self)@), Some(false)),
                ..old(self)@
            }),
    {
        self.set_category_flags(false);
    }

    /// Gives every option of the selected category the flag `value`.
    fn set_category_flags(&mut self, value: bool)
        requires
            old(self).wf(),
        ensures
            final(self).wf(),
            final(self)@ == (DashView {
                options_state: assign(old(self)@.options_state, options_of(old(self)@), Some(value)),
                ..old(self)@
            }),
    {
        let ghost s = self@;
        proof {
            lemma_assign_dom(s.options_state, options_of(s), Some(value));
        }
        let c = self.selected_category;
        assert(self.categories@[c as int].1@ == options_of(s));
        let mut j: usize = 0;
        while j < self.categories[c].1.len()
            invariant
                c == self.selected_category,
                c < self.categories@.len(),
                self.categories == old(self).categories,
                self.categories@[c as int].1@ == options_of(s),
                j <= options_of(s).len(),
                self.options_state.wf(),
                self.options_state@ == assign(s.options_state, options_of(s).take(j as int), Some(value)),
                self@ == (DashView { options_state: self.options_state@, ..s }),
            decreases options_of(s).len() - j,
        {
            let id = self.categories[c].1[j].id;
            self.options_state.insert(id, value);
            assert(options_of(s).take(j + 1).drop_last() =~= options_of(s).take(j as int));
            j = j + 1;
        }
        assert(options_of(s).take(j as int) =~= options_of(s));
    }

    /// The selected options of all categories, each with its category name.
    pub fn selected_batch(&self) -> (r: Vec<(String, OptItem)>)
        requires
            self.wf(),
        ensures
            r@.map_values(|p: (String, OptItem)| (p.0@, p.1)) == batch(self@.categories, self@.options_state),
    {
        let ghost cats = self@.categories;
        let ghost m = self@.options_state;
        let mut out: Vec<(String, OptItem)> = Vec::new();
        let mut c: usize = 0;
        while c < self.categories.len()
            invariant
                cats == self@.categories,
                m == self@.options_state,
                self.options_state.wf(),
                c <= cats.len(),
                out@.map_values(|p: (String, OptItem)| (p.0@, p.1)) == batch(cats.take(c as int), m),
            decreases cats.len() - c,
        {
            let name = self.categories[c].0;
            let items = &self.categories[c].1;
            assert(cats[c as int] == (name, items@));
            let ghost base = out@.map_values(|p: (String, OptItem)| (p.0@, p.1));
            let mut j: usize = 0;
            while j < items.len()
                invariant
                    m == self@.options_state,
                    self.options_state.wf(),
                    j <= items@.len(),
                    out@.map_values(|p: (String, OptItem)| (p.0@, p.1)) == base + picked(name@, items@.take(j as int), m),
                decreases items.len() - j,
            {
                let ghost prev = out@;
                let flag = match self.options_state.get(items[j].id) {
                    Some(b) => b,
                    None => false,
                };
                proof {
                    lemma_picked_step(name@, items@, m, j as int);
                }
                if flag {
                    out.push((owned(name), items[j]));
                    assert(out@.map_values(|p: (String, OptItem)| (p.0@, p.1)) =~= prev.map_values(
                        |p: (String, OptItem)| (p.0@, p.1),
                    ).push((name@, items@[j as int])));
                }
                assert(out@.map_values(|p: (String, OptItem)| (p.0@, p.1)) =~= base + picked(
                    name@,
                    items@.take(j + 1),
                    m,
                ));
                j = j + 1;
            }
            assert(items@.take(j as int) =~= items@);
            assert(cats.take(c + 1).drop_last() =~= cats.take(c as int));
            assert(batch(cats.take(c + 1), m) == batch(cats.take(c as int), m) + picked(name@, items@, m));
            c = c + 1;
        }
        assert(cats.take(c as int) =~= cats);
        out
    }

    /// Reacts to `key`, stamping any entry logged with `now`; `is_executing`
    /// tells whether a batch is running.
    pub fn handle_key_at(&mut self, key: DashboardKey, is_executing: bool, now: String) -> (r: DashboardEffect)
        requires
            old(self).wf(),
        ensures
            final(self).wf(),
            final(self)@ == dash_state(old(self)@, key, is_executing, now@),
            r@ == dash_effect(old(self)@, key, is_executing),
    {
        let ghost s = self@;
        proof {
            lemma_dash_step_consistent(s, key, is_executing, now@);
        }
        let on_dashboard = self.current_view == ViewMode::Dashboard;
        let c = self.selected_category;
        assert(self.categories@[c as int].1@ == options_of(s));
        match key {
            DashboardKey::Quit => DashboardEffect::Exit,
            DashboardKey::Escape => {
                if !on_dashboard {
                    self.current_view = ViewMode::Dashboard;
                    self.add_log(now, LogLevel::Info, "Returned to Dashboard", None);
                }
                DashboardEffect::Stay
            },
            DashboardKey::Up => {
                if on_dashboard && self.selected_option > 0 {
                    self.selected_option = self.selected_option - 1;
                }
                DashboardEffect::Stay
            },
            DashboardKey::Down => {
                if on_dashboard && self.selected_option < self.categories[c].1.len() - 1 {
                    self.selected_option = self.selected_option + 1;
                }
                DashboardEffect::Stay
            },
            DashboardKey::Left => {
                if on_dashboard && self.selected_category > 0 {
                    self.selected_category = self.selected_category - 1;
                    self.selected_option = 0;
                }
                DashboardEffect::Stay
            },
            DashboardKey::Right => {
                if on_dashboard && self.selected_category < self.categories.len() - 1 {
                    self.selected_category = self.selected_category + 1;
                    self.selected_option = 0;
                }
                DashboardEffect::Stay
            },
            DashboardKey::Toggle => {
                if on_dashboard {
                    let id = self.categories[c].1[self.selected_option].id;
                    let current = match self.options_state.get(id) {
                        Some(b) => b,
                        None => false,
                    };
                    self.options_state.insert(id, !current);
                }
                DashboardEffect::Stay
            },
            DashboardKey::Apply => {
                if on_dashboard && !is_executing {
                    let to_execute = self.selected_batch();
                    if to_execute.len() > 0 {
                        self.current_view = ViewMode::Audit;
                        DashboardEffect::RunBatch(to_execute)
                    } else {
                        self.add_log(now, LogLevel::Warning, "No options selected", None);
                        DashboardEffect::Stay
                    }
                } else {
                    DashboardEffect::Stay
                }
            },
            DashboardKey::SelectAll => {
                if on_dashboard {
                    self.select_all_in_category();
                    self.add_log(now, LogLevel::Info, "Selected all in category", None);
                    DashboardEffect::Stay
                } else {
                    self.current_view = ViewMode::Audit;
                    self.add_log(now, LogLevel::Info, "Starting System Audit...", None);
                    DashboardEffect::RunAudit
                }
            },
            DashboardKey::DeselectAll => {
                if on_dashboard {
                    self.deselect_all_in_category();
                    self.add_log(now, LogLevel::Info, "Deselected all in category", None);
                }
                DashboardEffect::Stay
            },
            DashboardKey::RunCategory => {
                if on_dashboard && !is_executing {
                    self.select_all_in_category();
                    self.add_log(now, LogLevel::Info, "Executing current category...", None);
                    let name = self.categories[c].0;
                    let mut to_execute: Vec<(String, OptItem)> = Vec::new();
                    let mut j: usize = 0;
                    while j < self.categories[c].1.len()
                        invariant
                            c < self.categories@.len(),
                            self.categories@[c as int].1@ == options_of(s),
                            self.categories@[c as int].0 == name,
                            c < s.categories.len(),
                            name == s.categories[c as int].0,
                            j <= options_of(s).len(),
                            to_execute@.map_values(|p: (String, OptItem)| (p.0@, p.1))
                                == options_of(s).take(j as int).map_values(|o: OptItem| (name@, o)),
                        decreases options_of(s).len() - j,
                    {
                        let ghost prev = to_execute@;
                        let item = self.categories[c].1[j];
                        to_execute.push((owned(name), item));
                        assert(to_execute@.map_values(|p: (String, OptItem)| (p.0@, p.1))
                            =~= prev.map_values(|p: (String, OptItem)| (p.0@, p.1)).push((name@, item)));
                        assert(options_of(s).take(j + 1).map_values(|o: OptItem| (name@, o))
                            =~= options_of(s).take(j as int).map_values(|o: OptItem| (name@, o)).push(
                            (name@, options_of(s)[j as int]),
                        ));
                        j = j + 1;
                    }
                    assert(options_of(s).take(j as int) =~= options_of(s));
                    self.current_view = ViewMode::Audit;
                    DashboardEffect::RunBatch(to_execute)
                } else {
                    DashboardEffect::Stay
                }
            },
            DashboardKey::Rollback => {
                if on_dashboard {
                    self.add_log(now, LogLevel::Warning, "Rollback menu integration pending", None);
                }
                DashboardEffect::Stay
            },
            DashboardKey::Other => DashboardEffect::Stay,
        }
    }
}

/// On the dashboard, toggling the option under the cursor twice gives back
/// the state.
pub proof fn lemma_dash_toggle_twice(s: DashView, executing: bool, now: Seq<char>)
    requires
        dash_consistent(s),
    ensures
        dash_state(dash_state(s, DashboardKey::Toggle, executing, now), DashboardKey::Toggle, executing, now) == s,
{
    if s.current_view == ViewMode::Dashboard {
        let id = options_of(s)[s.selected_option].id@;
        assert(s.options_state.dom().contains(s.categories[s.selected_category].1[s.selected_option].id@));
        let once = dash_state(s, DashboardKey::Toggle, executing, now);
        assert(once.options_state.insert(id, !selected(once.options_state, id)) =~= s.options_state);
    }
}

/// On the dashboard, moving down and back up leaves the cursor where it was
/// when there was an option below it.
pub proof fn lemma_dash_down_then_up(s: DashView, executing: bool, now: Seq<char>)
    requires
        dash_consistent(s),
        s.current_view == ViewMode::Dashboard,
        s.selected_option < options_of(s).len() - 1,
    ensures
        dash_state(dash_state(s, DashboardKey::Down, executing, now), DashboardKey::Up, executing, now) == s,
{
}

} // verus!
