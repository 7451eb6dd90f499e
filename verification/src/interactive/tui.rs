//! The state machine of the modular terminal interface: tabs of options, a
//! cursor, the selected flags and the execution log.
use crate::interactive::sections::{categories, category_views, get_all_sections};
use crate::interactive::selection::{selected, Selection};
use crate::interactive::types::{OptItem, RiskLevel};
use crate::text::{owned, push_str};
use vstd::prelude::*;

verus! {

/// How many log lines the interface keeps.
pub const MAX_LOGS: usize = 100;

/// An event that changes the state of the interface.
#[derive(Debug, Clone)]
pub enum Action {
    Tick,
    Quit,
    NextTab,
    PrevTab,
    NextItem,
    PrevItem,
    ToggleSelected,
    Execute,
    AddLog(String),
}

/// The state of the interface as mathematical values.
pub struct TuiView {
    pub should_quit: bool,
    pub active_tab: int,
    pub selected_index: int,
    pub tabs: Seq<Seq<char>>,
    pub tab_options: Seq<Seq<OptItem>>,
    pub options_state: Map<Seq<char>, bool>,
    pub logs: Seq<Seq<char>>,
    pub is_admin: bool,
}

/// The options of the active tab.
pub open spec fn current(s: TuiView) -> Seq<OptItem> {
    s.tab_options[s.active_tab]
}

/// The state is consistent: at least one tab, one option list per tab, the
/// active tab and the cursor in range, every option with a flag, and at most
/// [`MAX_LOGS`] log lines.
pub open spec fn consistent(s: TuiView) -> bool {
    &&& s.tabs.len() > 0
    &&& s.tab_options.len() == s.tabs.len()
    &&& 0 <= s.active_tab < s.tabs.len()
    &&& (s.selected_index == 0 || 0 <= s.selected_index < current(s).len())
    &&& s.logs.len() <= MAX_LOGS
    &&& forall|t: int, j: int|
        0 <= t < s.tab_options.len() && 0 <= j < s.tab_options[t].len()
            ==> s.options_state.dom().contains(#[trigger] s.tab_options[t][j].id@)
}

/// The log after appending `line`, the oldest line dropped when there are more
/// than [`MAX_LOGS`].
pub open spec fn appended_log(logs: Seq<Seq<char>>, line: Seq<char>) -> Seq<Seq<char>> {
    if logs.push(line).len() > MAX_LOGS {
        logs.push(line).drop_first()
    } else {
        logs.push(line)
    }
}

/// The state after `a`.
pub open spec fn step(s: TuiView, a: Action) -> TuiView {
    match a {
        Action::Tick => s,
        Action::Execute => s,
        Action::Quit => TuiView { should_quit: true, ..s },
        Action::NextTab => TuiView {
            active_tab: (s.active_tab + 1) % (s.tabs.len() as int),
            selected_index: 0,
            ..s
        },
        Action::PrevTab => TuiView {
            active_tab: if s.active_tab == 0 {
                s.tabs.len() - 1
            } else {
                s.active_tab - 1
            },
            selected_index: 0,
            ..s
        },
        Action::NextItem => if current(s).len() > 0 {
            TuiView { selected_index: (s.selected_index + 1) % (current(s).len() as int), ..s }
        } else {
            s
        },
        Action::PrevItem => if current(s).len() > 0 {
            TuiView {
                selected_index: if s.selected_index == 0 {
                    current(s).len() - 1
                } else {
                    s.selected_index - 1
                },
                ..s
            }
        } else {
            s
        },
        Action::ToggleSelected => if 0 <= s.selected_index < current(s).len() {
            let id = current(s)[s.selected_index].id@;
            TuiView { options_state: s.options_state.insert(id, !selected(s.options_state, id)), ..s }
        } else {
            s
        },
        Action::AddLog(line) => TuiView { logs: appended_log(s.logs, line@), ..s },
    }
}

/// `s` with the cursor on the first option.
pub open spec fn cursor_reset(s: TuiView) -> TuiView {
    TuiView { selected_index: 0, ..s }
}

/// The flags of the options of `items`, inserted in order into `m`: each
/// option gets its default.
pub open spec fn with_defaults(m: Map<Seq<char>, bool>, items: Seq<OptItem>) -> Map<Seq<char>, bool>
    decreases items.len(),
{
    if items.len() == 0 {
        m
    } else {
        with_defaults(m, items.drop_last()).insert(items.last().id@, items.last().default)
    }
}

/// The default flags of all options of `tabs`, tab after tab.
pub open spec fn default_selection(tabs: Seq<Seq<OptItem>>) -> Map<Seq<char>, bool>
    decreases tabs.len(),
{
    if tabs.len() == 0 {
        Map::empty()
    } else {
        with_defaults(default_selection(tabs.drop_last()), tabs.last())
    }
}

/// The state of a new interface.
pub open spec fn initial(is_admin: bool) -> TuiView {
    TuiView {
        should_quit: false,
        active_tab: 0,
        selected_index: 0,
        tabs: categories().map_values(|c: (&'static str, Seq<OptItem>)| c.0@),
        tab_options: categories().map_values(|c: (&'static str, Seq<OptItem>)| c.1),
        options_state: default_selection(
            categories().map_values(|c: (&'static str, Seq<OptItem>)| c.1),
        ),
        logs: Seq::empty(),
        is_admin,
    }
}

/// The state of the modular terminal interface.
pub struct AppState {
    pub should_quit: bool,
    pub active_tab: usize,
    pub selected_index: usize,
    pub tabs: Vec<String>,
    pub tab_options: Vec<Vec<OptItem>>,
    pub options_state: Selection,
    pub logs: Vec<String>,
    pub is_admin: bool,
}

impl View for AppState {
    type V = TuiView;

    open spec fn view(&self) -> TuiView {
        TuiView {
            should_quit: self.should_quit,
            active_tab: self.active_tab as int,
            selected_index: self.selected_index as int,
            tabs: self.tabs@.map_values(|t: String| t@),
            tab_options: self.tab_options@.map_values(|v: Vec<OptItem>| v@),
            options_state: self.options_state@,
            logs: self.logs@.map_values(|l: String| l@),
            is_admin: self.is_admin,
        }
    }
}

/// `with_defaults` keeps what `m` holds and adds every option of `items`.
proof fn lemma_with_defaults_dom(m: Map<Seq<char>, bool>, items: Seq<OptItem>)
    ensures
        forall|k: Seq<char>| m.dom().contains(k) ==> #[trigger] with_defaults(m, items).dom().contains(k),
        forall|j: int|
            0 <= j < items.len() ==> with_defaults(m, items).dom().contains(#[trigger] items[j].id@),
    decreases items.len(),
{
    if items.len() > 0 {
        lemma_with_defaults_dom(m, items.drop_last());
        assert(with_defaults(m, items) == with_defaults(m, items.drop_last()).insert(
            items.last().id@,
            items.last().default,
        ));
        assert forall|j: int| 0 <= j < items.len() implies with_defaults(m, items).dom().contains(
            #[trigger] items[j].id@,
        ) by {
            if j < items.len() - 1 {
                assert(items.drop_last()[j] == items[j]);
            }
        }
    }
}

/// `default_selection` gives every option of every tab a flag.
proof fn lemma_default_selection_dom(tabs: Seq<Seq<OptItem>>)
    ensures
        forall|t: int, j: int|
            0 <= t < tabs.len() && 0 <= j < tabs[t].len() ==> default_selection(tabs).dom().contains(
                #[trigger] tabs[t][j].id@,
            ),
    decreases tabs.len(),
{
    if tabs.len() > 0 {
        lemma_default_selection_dom(tabs.drop_last());
        lemma_with_defaults_dom(default_selection(tabs.drop_last()), tabs.last());
        assert(default_selection(tabs) == with_defaults(default_selection(tabs.drop_last()), tabs.last()));
        assert forall|t: int, j: int|
            0 <= t < tabs.len() && 0 <= j < tabs[t].len() implies default_selection(tabs).dom().contains(
            #[trigger] tabs[t][j].id@,
        ) by {
            if t < tabs.len() - 1 {
                assert(tabs.drop_last()[t] == tabs[t]);
                assert(default_selection(tabs.drop_last()).dom().contains(tabs[t][j].id@));
            }
        }
    }
}

impl AppState {
    /// The state is well formed: the selection is, and the state is consistent.
    pub open spec fn wf(&self) -> bool {
        self.options_state.wf() && consistent(self@)
    }

    /// A new interface over all categories, each option with its default flag.
    pub fn new(is_admin: bool) -> (r: Self)
        ensures
            r.wf(),
            r@ == initial(is_admin),
    {
        let sections = get_all_sections();
        let ghost cats = categories().map_values(|c: (&'static str, Seq<OptItem>)| c.1);
        let mut tabs: Vec<String> = Vec::new();
        let mut tab_options: Vec<Vec<OptItem>> = Vec::new();
        let mut options_state = Selection::new();
        let mut c: usize = 0;
        while c < sections.len()
            invariant
                category_views(sections@) == categories(),
                cats == categories().map_values(|c: (&'static str, Seq<OptItem>)| c.1),
                c <= sections@.len(),
                tabs@.len() == c,
                tab_options@.len() == c,
                forall|t: int| 0 <= t < c ==> #[trigger] tabs@[t]@ == sections@[t].0@,
                forall|t: int| 0 <= t < c ==> #[trigger] tab_options@[t]@ == sections@[t].1@,
                options_state.wf(),
                options_state@ == default_selection(cats.take(c as int)),
            decreases sections.len() - c,
        {
            assert(category_views(sections@).len() == sections@.len());
            assert(cats.len() == sections@.len());
            assert(category_views(sections@)[c as int].1 == sections@[c as int].1@);
            assert(cats[c as int] == sections@[c as int].1@);
            let items = &sections[c].1;
            let ghost before = options_state@;
            let mut j: usize = 0;
            while j < items.len()
                invariant
                    j <= items@.len(),
                    options_state.wf(),
                    options_state@ == with_defaults(before, items@.take(j as int)),
                decreases items.len() - j,
            {
                options_state.insert(items[j].id, items[j].default);
                assert(items@.take(j + 1).drop_last() =~= items@.take(j as int));
                j = j + 1;
            }
            assert(items@.take(j as int) =~= items@);
            assert(cats.take(c + 1).drop_last() =~= cats.take(c as int));
            tabs.push(owned(sections[c].0));
            tab_options.push(sections[c].1.clone());
            c = c + 1;
        }
        assert(cats.take(c as int) =~= cats);
        let r = AppState {
            should_quit: false,
            active_tab: 0,
            selected_index: 0,
            tabs,
            tab_options,
            options_state,
            logs: Vec::new(),
            is_admin,
        };
        assert(r@.tabs =~= initial(is_admin).tabs);
        assert(r@.tab_options =~= initial(is_admin).tab_options);
        assert(r@.logs =~= Seq::<Seq<char>>::empty());
        proof {
            lemma_default_selection_dom(cats);
        }
        r
    }

    /// The options of the active tab.
    pub fn current_options(&self) -> (r: &[OptItem])
        requires
            self.wf(),
        ensures
            r@ == current(self@),
    {
        self.tab_options[self.active_tab].as_slice()
    }

    /// Applies `action`.
    pub fn update(&mut self, action: Action)
        requires
            old(self).wf(),
        ensures
            final(self).wf(),
            final(self)@ == step(old(self)@, action),
    {
        let ghost s = self@;
        assert(s.tabs.len() == self.tabs@.len());
        assert(s.tab_options.len() == self.tab_options@.len());
        proof {
            lemma_step_consistent(s, action);
        }
        match action {
            Action::Tick => {},
            Action::Execute => {},
            Action::Quit => {
                self.should_quit = true;
            },
            Action::NextTab => {
                assert(s.active_tab < s.tabs.len());
                assert(self.active_tab < self.tabs.len());
                self.active_tab = (self.active_tab + 1) % self.tabs.len();
                self.selected_index = 0;
            },
            Action::PrevTab => {
                if self.active_tab == 0 {
                    self.active_tab = self.tabs.len() - 1;
                } else {
                    self.active_tab = self.active_tab - 1;
                }
                self.selected_index = 0;
            },
            Action::NextItem => {
                let len = self.tab_options[self.active_tab].len();
                if len > 0 {
                    self.selected_index = (self.selected_index + 1) % len;
                }
            },
            Action::PrevItem => {
                let len = self.tab_options[self.active_tab].len();
                if len > 0 {
                    if self.selected_index == 0 {
                        self.selected_index = len - 1;
                    } else {
                        self.selected_index = self.selected_index - 1;
                    }
                }
            },
            Action::ToggleSelected => {
                let len = self.tab_options[self.active_tab].len();
                if self.selected_index < len {
                    let id: &'static str = self.tab_options[self.active_tab][self.selected_index].id;
                    let current = match self.options_state.get(id) {
                        Some(b) => b,
                        None => false,
                    };
                    self.options_state.insert(id, !current);
                }
            },
            Action::AddLog(line) => {
                self.logs.push(line);
                if self.logs.len() > MAX_LOGS {
                    self.logs.remove(0);
                }
                assert(self@.logs =~= appended_log(s.logs, line@));
            },
        }
    }
}

/// Stepping forward by one modulo `n` from below `n`.
proof fn lemma_mod_next(a: int, n: int)
    requires
        0 <= a < n,
    ensures
        (a + 1) % n == if a + 1 < n {
            a + 1
        } else {
            0
        },
{
    if a + 1 < n {
        vstd::arithmetic::div_mod::lemma_small_mod((a + 1) as nat, n as nat);
    } else {
        vstd::arithmetic::div_mod::lemma_mod_self_0(n);
    }
}

/// The selected options of `items`, as identifier and label.
pub open spec fn chosen(items: Seq<OptItem>, m: Map<Seq<char>, bool>) -> Seq<(&'static str, &'static str)>
    decreases items.len(),
{
    if items.len() == 0 {
        Seq::empty()
    } else {
        chosen(items.drop_last(), m) + if selected(m, items.last().id@) {
            seq![(items.last().id, items.last().label)]
        } else {
            Seq::empty()
        }
    }
}

/// The selected options of all tabs, tab after tab.
pub open spec fn chosen_in(tabs: Seq<Seq<OptItem>>, m: Map<Seq<char>, bool>) -> Seq<(&'static str, &'static str)>
    decreases tabs.len(),
{
    if tabs.len() == 0 {
        Seq::empty()
    } else {
        chosen_in(tabs.drop_last(), m) + chosen(tabs.last(), m)
    }
}

/// The upper-case name of a risk level, as the details pane shows it.
pub open spec fn risk_name(risk: RiskLevel) -> Seq<char> {
    match risk {
        RiskLevel::Safe => "SAFE"@,
        RiskLevel::Low => "LOW"@,
        RiskLevel::Medium => "MEDIUM"@,
        RiskLevel::High => "HIGH"@,
        RiskLevel::Critical => "CRITICAL"@,
        RiskLevel::Performance => "PERFORMANCE"@,
        RiskLevel::Conditional => "CONDITIONAL"@,
        RiskLevel::Warning => "WARNING"@,
    }
}

/// The upper-case name of a risk level.
pub fn risk_label(risk: RiskLevel) -> (r: &'static str)
    ensures
        r@ == risk_name(risk),
{
    match risk {
        RiskLevel::Safe => "SAFE",
        RiskLevel::Low => "LOW",
        RiskLevel::Medium => "MEDIUM",
        RiskLevel::High => "HIGH",
        RiskLevel::Critical => "CRITICAL",
        RiskLevel::Performance => "PERFORMANCE",
        RiskLevel::Conditional => "CONDITIONAL",
        RiskLevel::Warning => "WARNING",
    }
}

/// The line of an option in the list: a check box, then the label.
pub open spec fn option_line(is_selected: bool, label: Seq<char>) -> Seq<char> {
    (if is_selected {
        " [X] "@
    } else {
        " [ ] "@
    }) + label
}

/// The label of the privilege mode in the header.
pub fn mode_label(is_admin: bool) -> (r: &'static str)
    ensures
        r@ == (if is_admin {
            " ADMIN "@
        } else {
            " USER "@
        }),
{
    if is_admin {
        " ADMIN "
    } else {
        " USER "
    }
}

impl AppState {
    /// The options to apply: the selected options of every tab, in order, as
    /// identifier and label.
    pub fn selected_options(&self) -> (r: Vec<(&'static str, &'static str)>)
        requires
            self.wf(),
        ensures
            r@ == chosen_in(self@.tab_options, self@.options_state),
    {
        let ghost tabs = self@.tab_options;
        let ghost m = self@.options_state;
        let mut r: Vec<(&'static str, &'static str)> = Vec::new();
        let mut t: usize = 0;
        while t < self.tab_options.len()
            invariant
                self.wf(),
                tabs == self@.tab_options,
                m == self@.options_state,
                t <= tabs.len(),
                r@ == chosen_in(tabs.take(t as int), m),
            decreases tabs.len() - t,
        {
            let items = &self.tab_options[t];
            assert(tabs[t as int] == items@);
            let ghost base = r@;
            let mut j: usize = 0;
            while j < items.len()
                invariant
                    self.wf(),
                    m == self@.options_state,
                    j <= items@.len(),
                    r@ == base + chosen(items@.take(j as int), m),
                decreases items.len() - j,
            {
                let on = match self.options_state.get(items[j].id) {
                    Some(b) => b,
                    None => false,
                };
                if on {
                    r.push((items[j].id, items[j].label));
                }
                assert(items@.take(j + 1).drop_last() =~= items@.take(j as int));
                assert(r@ =~= base + chosen(items@.take(j + 1), m));
                j = j + 1;
            }
            assert(items@.take(j as int) =~= items@);
            assert(tabs.take(t + 1).drop_last() =~= tabs.take(t as int));
            t = t + 1;
        }
        assert(tabs.take(t as int) =~= tabs);
        r
    }

    /// The lines of the options of the active tab, each with its check box.
    pub fn option_lines(&self) -> (r: Vec<String>)
        requires
            self.wf(),
        ensures
            r@.len() == current(self@).len(),
            forall|i: int|
                0 <= i < r@.len() ==> (#[trigger] r@[i])@ == option_line(
                    selected(self@.options_state, current(self@)[i].id@),
                    current(self@)[i].label@,
                ),
    {
        let options = self.current_options();
        let mut r: Vec<String> = Vec::new();
        let mut i: usize = 0;
        while i < options.len()
            invariant
                self.wf(),
                options@ == current(self@),
                i <= options@.len(),
                r@.len() == i,
                forall|k: int|
                    0 <= k < i ==> (#[trigger] r@[k])@ == option_line(
                        selected(self@.options_state, current(self@)[k].id@),
                        current(self@)[k].label@,
                    ),
            decreases options.len() - i,
        {
            let on = match self.options_state.get(options[i].id) {
                Some(b) => b,
                None => false,
            };
            let mut line = if on {
                owned(" [X] ")
            } else {
                owned(" [ ] ")
            };
            push_str(&mut line, options[i].label);
            r.push(line);
            i = i + 1;
        }
        r
    }
}

/// Moving to the next tab and back leaves the active tab where it was, with the
/// cursor on the first option.
pub proof fn lemma_next_then_prev_tab(s: TuiView)
    requires
        consistent(s),
    ensures
        step(step(s, Action::NextTab), Action::PrevTab) == cursor_reset(s),
{
    lemma_mod_next(s.active_tab, s.tabs.len() as int);
}

/// Moving to the previous tab and back leaves the active tab where it was,
/// with the cursor on the first option.
pub proof fn lemma_prev_then_next_tab(s: TuiView)
    requires
        consistent(s),
    ensures
        step(step(s, Action::PrevTab), Action::NextTab) == cursor_reset(s),
{
    let p = step(s, Action::PrevTab);
    lemma_mod_next(p.active_tab, s.tabs.len() as int);
}

/// Toggling the option under the cursor twice gives back the state.
pub proof fn lemma_toggle_twice(s: TuiView)
    requires
        consistent(s),
    ensures
        step(step(s, Action::ToggleSelected), Action::ToggleSelected) == s,
{
    if 0 <= s.selected_index < current(s).len() {
        let id = current(s)[s.selected_index].id@;
        assert(s.options_state.dom().contains(s.tab_options[s.active_tab][s.selected_index].id@));
        let once = step(s, Action::ToggleSelected);
        assert(once.options_state.insert(id, !selected(once.options_state, id)) =~= s.options_state);
    }
}

/// Every action keeps the state consistent.
pub proof fn lemma_step_consistent(s: TuiView, a: Action)
    requires
        consistent(s),
    ensures
        consistent(step(s, a)),
{
    lemma_mod_next(s.active_tab, s.tabs.len() as int);
    if current(s).len() > 0 {
        lemma_mod_next(if s.selected_index < current(s).len() { s.selected_index } else { 0 }, current(s).len() as int);
    }
}

} // verus!
