//! The usage screen: its period presets, project naming, scrolling and
//! the requests it sends.
use vstd::prelude::*;
use crate::action::Action;
use crate::event::AppEvent;
use crate::models::keystone::Project;
use crate::models::nova::Hypervisor;
use crate::module::{clones_equal, copy_list, error_text, format_error};
use crate::ui::key::Key;
pub mod period;
pub mod summary;

use crate::text::{byte_prefix, byte_prefix_exec, byte_prefix_len, bytes_exceed, cat, str_eq, utf8_bytes};

verus! {

/// The period a usage report covers.
#[derive(Debug, Clone, Copy, PartialEq, Eq, Structural)]
pub enum DateRangePreset {
    ThisMonth,
    LastMonth,
    Last7Days,
}

/// The preset after `p`: this month, last month, last 7 days, and round.
pub open spec fn next_preset(p: DateRangePreset) -> DateRangePreset {
    match p {
        DateRangePreset::ThisMonth => DateRangePreset::LastMonth,
        DateRangePreset::LastMonth => DateRangePreset::Last7Days,
        DateRangePreset::Last7Days => DateRangePreset::ThisMonth,
    }
}

/// The preset before `p` in the same cycle.
pub open spec fn prev_preset(p: DateRangePreset) -> DateRangePreset {
    match p {
        DateRangePreset::ThisMonth => DateRangePreset::Last7Days,
        DateRangePreset::LastMonth => DateRangePreset::ThisMonth,
        DateRangePreset::Last7Days => DateRangePreset::LastMonth,
    }
}

impl DateRangePreset {
    /// The preset's name on screen.
    pub fn label(&self) -> (r: &'static str)
        ensures
            r@ == match *self {
                DateRangePreset::ThisMonth => "This Month"@,
                DateRangePreset::LastMonth => "Last Month"@,
                DateRangePreset::Last7Days => "Last 7 Days"@,
            },
    {
        match self {
            DateRangePreset::ThisMonth => "This Month",
            DateRangePreset::LastMonth => "Last Month",
            DateRangePreset::Last7Days => "Last 7 Days",
        }
    }

    /// The following preset.
    pub fn next(&self) -> (r: Self)
        ensures
            r == next_preset(*self),
    {
        match self {
            DateRangePreset::ThisMonth => DateRangePreset::LastMonth,
            DateRangePreset::LastMonth => DateRangePreset::Last7Days,
            DateRangePreset::Last7Days => DateRangePreset::ThisMonth,
        }
    }

    /// The preceding preset.
    pub fn prev(&self) -> (r: Self)
        ensures
            r == prev_preset(*self),
    {
        match self {
            DateRangePreset::ThisMonth => DateRangePreset::Last7Days,
            DateRangePreset::LastMonth => DateRangePreset::ThisMonth,
            DateRangePreset::Last7Days => DateRangePreset::LastMonth,
        }
    }
}

/// The month before `month` of `year` (January steps back into December
/// of the year before), as `(year, month)`.
pub fn previous_month(year: i32, month: u32) -> (r: (i32, u32))
    requires
        1 <= month <= 12,
        year > i32::MIN,
    ensures
        r == if month == 1 { ((year - 1) as i32, 12u32) } else { (year, (month - 1) as u32) },
        1 <= r.1 <= 12,
{
    if month == 1 {
        (year - 1, 12)
    } else {
        (year, month - 1)
    }
}

/// Stepping back undoes stepping forward and the reverse, and three steps
/// forward return to the start: the presets form one cycle of three.
pub proof fn lemma_preset_cycle(p: DateRangePreset)
    ensures
        prev_preset(next_preset(p)) == p,
        next_preset(prev_preset(p)) == p,
        next_preset(next_preset(next_preset(p))) == p,
        next_preset(p) != p,
{
}

/// The name shown for a project ID: the cached project's name, else the
/// ID itself, cut to its first eight bytes and `...` when longer.
pub open spec fn project_display_name(projects: Seq<Project>, tenant_id: Seq<char>) -> Seq<char>
    decreases projects.len(),
{
    if projects.len() == 0 {
        if utf8_bytes(tenant_id) > 8 {
            byte_prefix(tenant_id, 8) + "..."@
        } else {
            tenant_id
        }
    } else if projects[0].id@ == tenant_id {
        projects[0].name@
    } else {
        project_display_name(projects.drop_first(), tenant_id)
    }
}

/// Whether a project with the given ID is among `projects`.
pub open spec fn project_known(projects: Seq<Project>, tenant_id: Seq<char>) -> bool {
    exists|k: int| 0 <= k < projects.len() && (#[trigger] projects[k]).id@ == tenant_id
}

/// The name shown for a project ID in the usage table.
pub fn resolve_project_name(projects: &[Project], tenant_id: &str) -> (r: String)
    requires
        !project_known(projects@, tenant_id@) && utf8_bytes(tenant_id@) > 8 ==> byte_prefix_len(tenant_id@, 8) is Some,
    ensures
        r@ == project_display_name(projects@, tenant_id@),
{
    let n = projects.len();
    let mut j: usize = 0;
    proof {
        assert(projects@.skip(0) =~= projects@);
    }
    while j < n
        invariant
            n == projects@.len(),
            j <= n,
            project_display_name(projects@, tenant_id@) == project_display_name(
                projects@.skip(j as int),
                tenant_id@,
            ),
            forall|k: int| 0 <= k < j ==> (#[trigger] projects@[k]).id@ != tenant_id@,
            !project_known(projects@, tenant_id@) && utf8_bytes(tenant_id@) > 8 ==> byte_prefix_len(tenant_id@, 8) is Some,
        decreases n - j,
    {
        let ghost rest = projects@.skip(j as int);
        proof {
            assert(rest[0] == projects@[j as int]);
            assert(rest.drop_first() =~= projects@.skip(j + 1));
        }
        if str_eq(projects[j].id.as_str(), tenant_id) {
            return projects[j].name.clone();
        }
        j = j + 1;
    }
    proof {
        assert(projects@.skip(n as int).len() == 0);
    }
    if bytes_exceed(tenant_id, 8) {
        let head = byte_prefix_exec(tenant_id, 8);
        cat(head.as_str(), "...")
    } else {
        String::from_str(tenant_id)
    }
}

/// The reporting window of each preset, as RFC 3339 start and end times,
/// computed from the clock by whoever owns it.
pub struct UsagePeriods {
    pub this_month: (String, String),
    pub last_month: (String, String),
    pub last_7_days: (String, String),
}

impl UsagePeriods {
    /// The window of preset `p`.
    pub open spec fn period(&self, p: DateRangePreset) -> (String, String) {
        match p {
            DateRangePreset::ThisMonth => self.this_month,
            DateRangePreset::LastMonth => self.last_month,
            DateRangePreset::Last7Days => self.last_7_days,
        }
    }
}

/// The request for the usage of preset `p`'s window.
pub open spec fn usage_request(periods: UsagePeriods, p: DateRangePreset) -> Action {
    Action::FetchUsage { start: periods.period(p).0, end: periods.period(p).1 }
}

/// The usage screen: the usage records of the chosen period (of a type
/// `U` the screen only stores and counts), the hypervisors and projects
/// shown beside them, and the scroll position.
pub struct UsageModule<U> {
    tenant_usages: Vec<U>,
    hypervisors: Vec<Hypervisor>,
    cached_projects: Vec<Project>,
    date_range: DateRangePreset,
    loading: bool,
    mounted: bool,
    error_message: Option<String>,
    scroll_offset: usize,
    outbox: Vec<Action>,
}

impl<U> UsageModule<U> {
    /// The usage records shown.
    pub closed spec fn usages_spec(&self) -> Seq<U> {
        self.tenant_usages@
    }

    /// The hypervisors shown.
    pub closed spec fn hypervisors_spec(&self) -> Seq<Hypervisor> {
        self.hypervisors@
    }

    /// The projects used for naming.
    pub closed spec fn projects_spec(&self) -> Seq<Project> {
        self.cached_projects@
    }

    /// The chosen period.
    pub closed spec fn range_spec(&self) -> DateRangePreset {
        self.date_range
    }

    /// Whether a load is outstanding.
    pub closed spec fn loading_spec(&self) -> bool {
        self.loading
    }

    /// Whether the screen has loaded its data once.
    pub closed spec fn mounted_spec(&self) -> bool {
        self.mounted
    }

    /// The last error shown.
    pub closed spec fn error_spec(&self) -> Option<Seq<char>> {
        match self.error_message {
            Some(e) => Some(e@),
            None => None,
        }
    }

    /// The first usage row shown.
    pub closed spec fn scroll_spec(&self) -> nat {
        self.scroll_offset as nat
    }

    /// The requests waiting to be sent, oldest first.
    pub closed spec fn outbox_spec(&self) -> Seq<Action> {
        self.outbox@
    }

    /// A screen that has not loaded anything yet, showing this month.
    pub fn new() -> (r: Self)
        ensures
            r.usages_spec().len() == 0,
            r.hypervisors_spec().len() == 0,
            r.projects_spec().len() == 0,
            r.range_spec() == DateRangePreset::ThisMonth,
            !r.loading_spec(),
            !r.mounted_spec(),
            r.error_spec() is None,
            r.scroll_spec() == 0,
            r.outbox_spec().len() == 0,
    {
        UsageModule {
            tenant_usages: Vec::new(),
            hypervisors: Vec::new(),
            cached_projects: Vec::new(),
            date_range: DateRangePreset::ThisMonth,
            loading: false,
            mounted: false,
            error_message: None,
            scroll_offset: 0,
            outbox: Vec::new(),
        }
    }

    /// The chosen period.
    pub fn date_range(&self) -> (r: DateRangePreset)
        ensures
            r == self.range_spec(),
    {
        self.date_range
    }

    /// The usage records shown.
    pub fn tenant_usages(&self) -> (r: &[U])
        ensures
            r@ == self.usages_spec(),
    {
        self.tenant_usages.as_slice()
    }

    /// The hypervisors shown.
    pub fn hypervisors(&self) -> (r: &[Hypervisor])
        ensures
            r@ == self.hypervisors_spec(),
    {
        self.hypervisors.as_slice()
    }

    /// The first usage row shown.
    pub fn scroll_offset(&self) -> (r: usize)
        ensures
            r == self.scroll_spec(),
    {
        self.scroll_offset
    }

    /// The last error shown.
    pub fn error_message(&self) -> (r: Option<&str>)
        ensures
            match r {
                Some(s) => self.error_spec() == Some(s@),
                None => self.error_spec() is None,
            },
    {
        match &self.error_message {
            Some(e) => Some(e.as_str()),
            None => None,
        }
    }

    /// Whether a load is outstanding.
    pub fn is_loading(&self) -> (r: bool)
        ensures
            r == self.loading_spec(),
    {
        self.loading
    }

    /// Whether the first key has already loaded the screen.
    pub fn is_mounted(&self) -> (r: bool)
        ensures
            r == self.mounted_spec(),
    {
        self.mounted
    }

    /// Hand over the requests waiting to be sent, oldest first.
    pub fn take_actions(&mut self) -> (r: Vec<Action>)
        ensures
            r@ == old(self).outbox_spec(),
            final(self).outbox_spec().len() == 0,
            final(self).usages_spec() == old(self).usages_spec(),
            final(self).range_spec() == old(self).range_spec(),
            final(self).scroll_spec() == old(self).scroll_spec(),
            final(self).mounted_spec() == old(self).mounted_spec(),
            final(self).loading_spec() == old(self).loading_spec(),
    {
        let mut out: Vec<Action> = Vec::new();
        std::mem::swap(&mut out, &mut self.outbox);
        out
    }

    /// The name shown for a project ID in the usage table.
    pub fn project_name(&self, tenant_id: &str) -> (r: String)
        requires
            !project_known(self.projects_spec(), tenant_id@) && utf8_bytes(tenant_id@) > 8 ==> byte_prefix_len(
                tenant_id@,
                8,
            ) is Some,
        ensures
            r@ == project_display_name(self.projects_spec(), tenant_id@),
    {
        resolve_project_name(self.cached_projects.as_slice(), tenant_id)
    }

    /// Queue the request for the chosen period's usage.
    fn fetch_usage(&mut self, periods: &UsagePeriods)
        ensures
            final(self).outbox_spec() == old(self).outbox_spec().push(usage_request(*periods, old(self).range_spec())),
            final(self).usages_spec() == old(self).usages_spec(),
            final(self).hypervisors_spec() == old(self).hypervisors_spec(),
            final(self).projects_spec() == old(self).projects_spec(),
            final(self).range_spec() == old(self).range_spec(),
            final(self).loading_spec() == old(self).loading_spec(),
            final(self).mounted_spec() == old(self).mounted_spec(),
            final(self).error_spec() == old(self).error_spec(),
            final(self).scroll_spec() == old(self).scroll_spec(),
    {
        let period = match self.date_range {
            DateRangePreset::ThisMonth => &periods.this_month,
            DateRangePreset::LastMonth => &periods.last_month,
            DateRangePreset::Last7Days => &periods.last_7_days,
        };
        self.outbox.push(Action::FetchUsage { start: period.0.clone(), end: period.1.clone() });
    }

    /// React to a key. The first key only starts loading (the usage of the
    /// chosen period, the hypervisors and the projects). After that: `[`
    /// and `]` step the period back and forth and reload, `j`/Down and
    /// `k`/Up scroll within the records, `r` reloads, Left goes to the
    /// sidebar and Esc goes back. `periods` holds each preset's window.
    pub fn handle_key(&mut self, key: Key, periods: &UsagePeriods) -> (r: Option<Action>)
        ensures
            final(self).usages_spec() == old(self).usages_spec(),
            final(self).hypervisors_spec() == old(self).hypervisors_spec(),
            final(self).projects_spec() == old(self).projects_spec(),
            final(self).error_spec() == old(self).error_spec(),
            final(self).mounted_spec(),
            !old(self).mounted_spec() ==> {
                &&& r is None
                &&& final(self).loading_spec()
                &&& final(self).range_spec() == old(self).range_spec()
                &&& final(self).scroll_spec() == old(self).scroll_spec()
                &&& final(self).outbox_spec() == old(self).outbox_spec() + seq![
                    usage_request(*periods, old(self).range_spec()),
                    Action::FetchHypervisors,
                    Action::FetchProjects,
                ]
            },
            old(self).mounted_spec() ==> {
                let n = old(self).usages_spec().len();
                let max_offset = if n > 0 { (n - 1) as nat } else { 0 };
                if key == Key::Char('[') || key == Key::Char(']') {
                    let range = if key == Key::Char('[') {
                        prev_preset(old(self).range_spec())
                    } else {
                        next_preset(old(self).range_spec())
                    };
                    &&& r is None
                    &&& final(self).range_spec() == range
                    &&& final(self).scroll_spec() == 0
                    &&& final(self).loading_spec()
                    &&& final(self).outbox_spec() == old(self).outbox_spec().push(usage_request(*periods, range))
                } else if key == Key::Char('r') {
                    &&& r is None
                    &&& final(self).range_spec() == old(self).range_spec()
                    &&& final(self).scroll_spec() == old(self).scroll_spec()
                    &&& final(self).loading_spec()
                    &&& final(self).outbox_spec() == old(self).outbox_spec().push(
                        usage_request(*periods, old(self).range_spec()),
                    )
                } else {
                    &&& final(self).range_spec() == old(self).range_spec()
                    &&& final(self).loading_spec() == old(self).loading_spec()
                    &&& final(self).outbox_spec() == old(self).outbox_spec()
                    &&& final(self).scroll_spec() == if key == Key::Char('j') || key == Key::Down {
                        if old(self).scroll_spec() < max_offset { old(self).scroll_spec() + 1 } else { old(self).scroll_spec() }
                    } else if key == Key::Char('k') || key == Key::Up {
                        if old(self).scroll_spec() > 0 { (old(self).scroll_spec() - 1) as nat } else { 0 }
                    } else {
                        old(self).scroll_spec()
                    }
                    &&& r == if key == Key::Left {
                        Some(Action::FocusSidebar)
                    } else if key == Key::Esc {
                        Some(Action::Back)
                    } else {
                        None
                    }
                }
            },
    {
        if !self.mounted {
            self.mounted = true;
            self.loading = true;
            self.fetch_usage(periods);
            self.outbox.push(Action::FetchHypervisors);
            self.outbox.push(Action::FetchProjects);
            return None;
        }
        match key {
            Key::Left => Some(Action::FocusSidebar),
            Key::Char('[') => {
                self.date_range = self.date_range.prev();
                self.scroll_offset = 0;
                self.loading = true;
                self.fetch_usage(periods);
                None
            },
            Key::Char(']') => {
                self.date_range = self.date_range.next();
                self.scroll_offset = 0;
                self.loading = true;
                self.fetch_usage(periods);
                None
            },
            Key::Char('j') | Key::Down => {
                let max_offset = if self.tenant_usages.len() > 0 { self.tenant_usages.len() - 1 } else { 0 };
                if self.scroll_offset < max_offset {
                    self.scroll_offset = self.scroll_offset + 1;
                }
                None
            },
            Key::Char('k') | Key::Up => {
                if self.scroll_offset > 0 {
                    self.scroll_offset = self.scroll_offset - 1;
                }
                None
            },
            Key::Char('r') => {
                self.loading = true;
                self.fetch_usage(periods);
                None
            },
            Key::Esc => Some(Action::Back),
            _ => None,
        }
    }

    /// The project or cloud changed: drop what was loaded, and ask again
    /// for the hypervisors and projects (the usage itself is reloaded by
    /// `refresh_action`).
    pub fn on_context_changed(&mut self)
        ensures
            final(self).usages_spec().len() == 0,
            final(self).hypervisors_spec().len() == 0,
            final(self).projects_spec().len() == 0,
            final(self).loading_spec(),
            final(self).error_spec() is None,
            final(self).outbox_spec() == old(self).outbox_spec() + seq![Action::FetchHypervisors, Action::FetchProjects],
            final(self).range_spec() == old(self).range_spec(),
            final(self).scroll_spec() == old(self).scroll_spec(),
            final(self).mounted_spec() == old(self).mounted_spec(),
    {
        self.tenant_usages.clear();
        self.hypervisors.clear();
        self.cached_projects.clear();
        self.loading = true;
        self.error_message = None;
        self.outbox.push(Action::FetchHypervisors);
        self.outbox.push(Action::FetchProjects);
    }

    /// Take in the usage records of the chosen period.
    pub fn handle_usage_loaded(&mut self, usages: Vec<U>)
        ensures
            final(self).usages_spec() == usages@,
            !final(self).loading_spec(),
            final(self).error_spec() is None,
            final(self).hypervisors_spec() == old(self).hypervisors_spec(),
            final(self).projects_spec() == old(self).projects_spec(),
            final(self).range_spec() == old(self).range_spec(),
            final(self).scroll_spec() == old(self).scroll_spec(),
            final(self).mounted_spec() == old(self).mounted_spec(),
            final(self).outbox_spec() == old(self).outbox_spec(),
    {
        self.tenant_usages = usages;
        self.loading = false;
        self.error_message = None;
    }

    /// Take in loaded hypervisors or projects, or show a failed request;
    /// other events change nothing.
    pub fn handle_event(&mut self, event: &AppEvent)
        ensures
            final(self).usages_spec() == old(self).usages_spec(),
            final(self).range_spec() == old(self).range_spec(),
            final(self).scroll_spec() == old(self).scroll_spec(),
            final(self).mounted_spec() == old(self).mounted_spec(),
            final(self).outbox_spec() == old(self).outbox_spec(),
            match event {
                AppEvent::HypervisorsLoaded(hvs) => {
                    &&& final(self).hypervisors_spec() == hvs@
                    &&& final(self).projects_spec() == old(self).projects_spec()
                    &&& final(self).loading_spec() == old(self).loading_spec()
                    &&& final(self).error_spec() == old(self).error_spec()
                },
                AppEvent::ProjectsLoaded(projects) => {
                    &&& final(self).projects_spec() == projects@
                    &&& final(self).hypervisors_spec() == old(self).hypervisors_spec()
                    &&& final(self).loading_spec() == old(self).loading_spec()
                    &&& final(self).error_spec() == old(self).error_spec()
                },
                AppEvent::ApiError { operation, message } => {
                    &&& final(self).error_spec() == Some(error_text(operation@, message@))
                    &&& !final(self).loading_spec()
                    &&& final(self).hypervisors_spec() == old(self).hypervisors_spec()
                    &&& final(self).projects_spec() == old(self).projects_spec()
                },
                _ => {
                    &&& final(self).hypervisors_spec() == old(self).hypervisors_spec()
                    &&& final(self).projects_spec() == old(self).projects_spec()
                    &&& final(self).loading_spec() == old(self).loading_spec()
                    &&& final(self).error_spec() == old(self).error_spec()
                },
            },
    {
        match event {
            AppEvent::HypervisorsLoaded(hvs) => {
                proof {
                    assert forall|a: Hypervisor, b: Hypervisor| #[trigger] cloned(a, b) implies a == b by {}
                }
                self.hypervisors = copy_list(hvs);
            },
            AppEvent::ProjectsLoaded(projects) => {
                proof {
                    assert forall|a: Project, b: Project| #[trigger] cloned(a, b) implies a == b by {}
                }
                self.cached_projects = copy_list(projects);
            },
            AppEvent::ApiError { operation, message } => {
                self.error_message = Some(format_error(operation, message));
                self.loading = false;
            },
            _ => {},
        }
    }

    /// The key help.
    pub fn help_hint(&self) -> (r: &'static str)
        ensures
            r@ == "[/]:Period  j/k:Scroll  r:Refresh"@,
    {
        "[/]:Period  j/k:Scroll  r:Refresh"
    }

    /// The request that reloads this screen: the chosen period's usage.
    pub fn refresh_action(&self, periods: &UsagePeriods) -> (r: Option<Action>)
        ensures
            r == Some(usage_request(*periods, self.range_spec())),
    {
        let period = match self.date_range {
            DateRangePreset::ThisMonth => &periods.this_month,
            DateRangePreset::LastMonth => &periods.last_month,
            DateRangePreset::Last7Days => &periods.last_7_days,
        };
        Some(Action::FetchUsage { start: period.0.clone(), end: period.1.clone() })
    }
}

} // verus!
