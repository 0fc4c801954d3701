pub mod view_model;

use vstd::prelude::*;
use crate::action::Action;
use crate::event::AppEvent;
use crate::models::keystone::Project;
use crate::module::{copy_list, error_text, format_error, confirm_answer, ConfirmHandler, PendingAction, ViewState};
use crate::port::types::ProjectCreateParams;
use crate::text::{cat, cat3, lemma_text_le_antisym, lemma_text_le_total, lemma_text_le_trans, opt_view, str_eq, text_le, text_le_exec};
use crate::ui::form::{FormAction, as_bool, as_text, bool_field, form_lookup, text_field, FormValue, FormWidget, SelectOption};
use crate::ui::confirm::{is_typed, ConfirmDialog};
use crate::ui::key::Key;
use crate::ui::resource_list::{kept_selection, nav_key, nav_target, rows_view, ResourceList, Row, RowView};
use self::view_model::{project_create_defs, project_row_spec, project_to_row};

verus! {

/// Views of dropdown options: value and shown text.
pub open spec fn options_view(opts: Seq<SelectOption>) -> Seq<(Seq<char>, Seq<char>)> {
    opts.map_values(|o: SelectOption| (o.value@, o.display@))
}

/// Whether some project belongs to domain `d`.
pub open spec fn has_domain(projects: Seq<Project>, d: Seq<char>) -> bool {
    exists|i: int| 0 <= i < projects.len() && opt_view(#[trigger] projects[i].domain_id) == Some(d)
}

/// Whether a list of texts holds `d`.
pub open spec fn seq_has(s: Seq<Seq<char>>, d: Seq<char>) -> bool {
    exists|i: int| 0 <= i < s.len() && #[trigger] s[i] == d
}

/// Views of a list of strings.
pub open spec fn names(v: Seq<String>) -> Seq<Seq<char>> {
    v.map_values(|s: String| s@)
}

/// `a` comes strictly before `b`.
pub open spec fn text_lt(a: Seq<char>, b: Seq<char>) -> bool {
    text_le(a, b) && a != b
}

/// Texts in strictly increasing order.
pub open spec fn strictly_sorted(s: Seq<Seq<char>>) -> bool {
    forall|i: int, j: int| 0 <= i < j < s.len() ==> text_lt(#[trigger] s[i], #[trigger] s[j])
}

/// The domain choices of the project form: each domain some project
/// belongs to, once, in `str` order, shown as itself.
pub open spec fn domain_choices_ok(opts: Seq<(Seq<char>, Seq<char>)>, projects: Seq<Project>) -> bool {
    &&& forall|i: int| 0 <= i < opts.len() ==> (#[trigger] opts[i]).0 == opts[i].1
    &&& strictly_sorted(opts.map_values(|o: (Seq<char>, Seq<char>)| o.0))
    &&& forall|d: Seq<char>| has_domain(projects, d) <==> seq_has(opts.map_values(|o: (Seq<char>, Seq<char>)| o.0), d)
}

/// The strict order of texts is transitive.
proof fn lemma_text_lt_trans(a: Seq<char>, b: Seq<char>, c: Seq<char>)
    requires
        text_lt(a, b),
        text_lt(b, c),
    ensures
        text_lt(a, c),
{
    lemma_text_le_trans(a, b, c);
    if a == c {
        lemma_text_le_antisym(b, c);
    }
}

/// The domains held after one more project is taken in.
proof fn lemma_has_domain_step(projects: Seq<Project>, k: int, d: Seq<char>)
    requires
        0 <= k < projects.len(),
    ensures
        has_domain(projects.subrange(0, k + 1), d) <==> (has_domain(projects.subrange(0, k), d)
            || opt_view(projects[k].domain_id) == Some(d)),
{
    let pre = projects.subrange(0, k);
    let next = projects.subrange(0, k + 1);
    if has_domain(next, d) {
        let i = choose|i: int| 0 <= i < next.len() && opt_view(#[trigger] next[i].domain_id) == Some(d);
        if i < k {
            assert(pre[i] == next[i]);
        }
    }
    if has_domain(pre, d) {
        let i = choose|i: int| 0 <= i < pre.len() && opt_view(#[trigger] pre[i].domain_id) == Some(d);
        assert(next[i] == pre[i]);
    }
    if opt_view(projects[k].domain_id) == Some(d) {
        assert(next[k] == projects[k]);
    }
}

/// The domain IDs of the projects, once each, in `str` order.
fn sorted_domains(projects: &Vec<Project>) -> (r: Vec<String>)
    ensures
        strictly_sorted(names(r@)),
        forall|d: Seq<char>| has_domain(projects@, d) <==> seq_has(names(r@), d),
{
    let n = projects.len();
    let mut out: Vec<String> = Vec::new();
    let mut k: usize = 0;
    while k < n
        invariant
            n == projects@.len(),
            k <= n,
            strictly_sorted(names(out@)),
            forall|d: Seq<char>| has_domain(projects@.subrange(0, k as int), d) <==> seq_has(names(out@), d),
        decreases n - k,
    {
        let ghost pre = projects@.subrange(0, k as int);
        let ghost next = projects@.subrange(0, k + 1);
        let ghost v = names(out@);
        proof {
            assert forall|d: Seq<char>| has_domain(next, d) <==> (has_domain(pre, d) || opt_view(projects@[k as int].domain_id) == Some(d)) by {
                lemma_has_domain_step(projects@, k as int, d);
            }
        }
        match &projects[k].domain_id {
            Some(d) => {
                let len = out.len();
                let mut j: usize = 0;
                while j < len && !text_le_exec(d.as_str(), out[j].as_str())
                    invariant
                        len == out@.len(),
                        v == names(out@),
                        j <= len,
                        forall|q: int| 0 <= q < j ==> text_lt(#[trigger] v[q], d@),
                    decreases len - j,
                {
                    proof {
                        assert(v[j as int] == out@[j as int]@);
                        lemma_text_le_total(d@, v[j as int]);
                        if v[j as int] == d@ {
                            lemma_text_le_total(d@, d@);
                        }
                    }
                    j = j + 1;
                }
                let dup = j < len && str_eq(out[j].as_str(), d.as_str());
                if !dup {
                    proof {
                        if j < len {
                            assert(v[j as int] == out@[j as int]@);
                            assert(text_lt(d@, v[j as int]));
                        }
                    }
                    out.insert(j, d.clone());
                    proof {
                        let w = names(out@);
                        assert(w =~= v.insert(j as int, d@));
                        assert forall|a: int, b: int| 0 <= a < b < w.len() implies text_lt(#[trigger] w[a], #[trigger] w[b]) by {
                            if b < j {
                                assert(w[a] == v[a] && w[b] == v[b]);
                            } else if b == j {
                                assert(w[a] == v[a]);
                            } else if a < j {
                                assert(w[b] == v[b - 1]);
                                assert(w[a] == v[a]);
                                if b - 1 > j {
                                    assert(text_lt(v[j as int], v[b - 1]));
                                    lemma_text_lt_trans(d@, v[j as int], v[b - 1]);
                                }
                                lemma_text_lt_trans(w[a], d@, w[b]);
                            } else if a == j {
                                assert(w[b] == v[b - 1]);
                                if b - 1 > j {
                                    assert(text_lt(v[j as int], v[b - 1]));
                                    lemma_text_lt_trans(d@, v[j as int], v[b - 1]);
                                }
                            } else {
                                assert(w[a] == v[a - 1]);
                                assert(w[b] == v[b - 1]);
                            }
                        }
                        assert forall|e: Seq<char>| has_domain(next, e) <==> seq_has(w, e) by {
                            if seq_has(v, e) {
                                let i = choose|i: int| 0 <= i < v.len() && #[trigger] v[i] == e;
                                if i < j {
                                    assert(w[i] == e);
                                } else {
                                    assert(w[i + 1] == e);
                                }
                            }
                            if e == d@ {
                                assert(w[j as int] == e);
                            }
                            if seq_has(w, e) {
                                let i = choose|i: int| 0 <= i < w.len() && #[trigger] w[i] == e;
                                if i < j {
                                    assert(v[i] == e);
                                } else if i > j {
                                    assert(v[i - 1] == e);
                                }
                            }
                        }
                    }
                } else {
                    proof {
                        assert(v[j as int] == out@[j as int]@);
                        assert forall|e: Seq<char>| has_domain(next, e) <==> seq_has(v, e) by {
                            if e == d@ {
                                assert(v[j as int] == e);
                            }
                        }
                    }
                }
            },
            None => {},
        }
        k = k + 1;
    }
    proof {
        assert(projects@.subrange(0, n as int) =~= projects@);
    }
    out
}

/// The domain choices of the project form, built from loaded projects.
pub fn domain_options(projects: &Vec<Project>) -> (r: Vec<SelectOption>)
    ensures
        domain_choices_ok(options_view(r@), projects@),
{
    let ids = sorted_domains(projects);
    let mut r: Vec<SelectOption> = Vec::new();
    let mut i: usize = 0;
    while i < ids.len()
        invariant
            i <= ids@.len(),
            r@.len() == i,
            forall|q: int| 0 <= q < i ==> (#[trigger] r@[q]).value@ == ids@[q]@ && r@[q].display@ == ids@[q]@,
        decreases ids@.len() - i,
    {
        r.push(SelectOption::new(ids[i].as_str(), ids[i].as_str()));
        i = i + 1;
    }
    proof {
        let ov = options_view(r@);
        assert(ov.map_values(|o: (Seq<char>, Seq<char>)| o.0) =~= names(ids@));
    }
    r
}

/// Whether `p` is what a submitted project form with `values` asks for.
pub open spec fn project_form_params(values: Seq<(String, FormValue)>, p: ProjectCreateParams) -> bool {
    &&& p.name@ == match as_text(form_lookup(values, "Name"@)) {
        Some(s) => s,
        None => Seq::empty(),
        }
    &&& match p.description {
        Some(d) => as_text(form_lookup(values, "Description"@)) == Some(d@) && d@.len() > 0,
        None => match as_text(form_lookup(values, "Description"@)) {
            Some(s) => s.len() == 0,
            None => true,
        },
        }
    &&& p.domain_id@ == match as_text(form_lookup(values, "Domain"@)) {
        Some(s) => s,
        None => "default"@,
        }
    &&& p.enabled == as_bool(form_lookup(values, "Enabled"@))
}

/// The parameters a submitted project form asks for: the name (empty when
/// missing), the description when one was typed, the domain (`default`
/// when missing), and the enabled box when given.
pub fn project_params_from_form(values: &Vec<(String, FormValue)>) -> (p: ProjectCreateParams)
    ensures
        project_form_params(values@, p),
{
    let name = match text_field(values, "Name") {
        Some(s) => s,
        None => String::new(),
    };
    let description = match text_field(values, "Description") {
        Some(s) => if s.unicode_len() == 0 {
            None
        } else {
            Some(s)
        },
        None => None,
    };
    let domain_id = match text_field(values, "Domain") {
        Some(s) => s,
        None => String::from_str("default"),
    };
    let enabled = bool_field(values, "Enabled");
    ProjectCreateParams { name, description, domain_id, enabled }
}

/// The rows of a list of projects.
pub open spec fn project_rows_spec(items: Seq<Project>) -> Seq<RowView> {
    items.map_values(|x: Project| project_row_spec(x))
}

/// The table rows of a list of projects.
fn project_rows(items: &Vec<Project>) -> (r: Vec<Row>)
    ensures
        rows_view(r@) == project_rows_spec(items@),
{
    let mut rows: Vec<Row> = Vec::new();
    let mut i: usize = 0;
    while i < items.len()
        invariant
            i <= items@.len(),
            rows_view(rows@) == project_rows_spec(items@.subrange(0, i as int)),
        decreases items@.len() - i,
    {
        let row = project_to_row(&items[i]);
        let ghost before = rows@;
        rows.push(row);
        proof {
            assert(rows_view(rows@) =~= rows_view(before).push(row@));
            assert(project_rows_spec(items@.subrange(0, i + 1)) =~= project_rows_spec(items@.subrange(0, i as int)).push(project_row_spec(items@[i as int])));
        }
        i = i + 1;
    }
    proof {
        assert(items@.subrange(0, items@.len() as int) =~= items@);
    }
    rows
}

/// The first project with the given ID.
pub open spec fn find_project(items: Seq<Project>, id: Seq<char>) -> Option<Project>
    decreases items.len(),
{
    if items.len() == 0 {
        None
    } else if items[0].id@ == id {
        Some(items[0])
    } else {
        find_project(items.drop_first(), id)
    }
}

/// The project screen: the projects, their table, the domain choices of
/// the create form, the form, the delete confirmation, and the requests
/// waiting to be sent.
pub struct ProjectModule {
    view_state: ViewState,
    projects: Vec<Project>,
    cached_domain_opts: Vec<SelectOption>,
    loading: bool,
    error_message: Option<String>,
    confirm: ConfirmHandler,
    resource_list: ResourceList,
    form: Option<FormWidget>,
    outbox: Vec<Action>,
}

impl ProjectModule {
    /// The view shown.
    pub closed spec fn view_state_spec(&self) -> ViewState {
        self.view_state
    }

    /// The projects held.
    pub closed spec fn projects_spec(&self) -> Seq<Project> {
        self.projects@
    }

    /// Whether a load is outstanding.
    pub closed spec fn loading_spec(&self) -> bool {
        self.loading
    }

    /// The last error shown.
    pub closed spec fn error_spec(&self) -> Option<Seq<char>> {
        match self.error_message {
            Some(e) => Some(e@),
            None => None,
        }
    }

    /// Whether the form is open.
    pub closed spec fn form_open_spec(&self) -> bool {
        self.form is Some
    }

    /// Whether a confirmation dialog is open.
    pub closed spec fn confirm_spec(&self) -> bool {
        self.confirm.dialog is Some
    }

    /// The action the open confirmation guards.
    pub closed spec fn pending_spec(&self) -> Option<PendingAction> {
        self.confirm.pending
    }

    /// The open confirmation dialog.
    pub closed spec fn dialog_spec(&self) -> Option<ConfirmDialog> {
        self.confirm.dialog
    }

    /// The requests waiting to be sent, oldest first.
    pub closed spec fn outbox_spec(&self) -> Seq<Action> {
        self.outbox@
    }

    /// The selected row.
    pub closed spec fn selected_spec(&self) -> nat {
        self.resource_list.selected_spec()
    }

    /// The number of rows in the table.
    pub closed spec fn table_len_spec(&self) -> nat {
        self.resource_list.len_spec()
    }

    /// The domain choices offered by the create form.
    pub closed spec fn domain_opts_spec(&self) -> Seq<(Seq<char>, Seq<char>)> {
        options_view(self.cached_domain_opts@)
    }

    /// The table is empty or shows one row per project.
    pub closed spec fn inv(&self) -> bool {
        &&& self.resource_list.inv()
        &&& (self.resource_list.len_spec() == 0 || (self.resource_list.rows_spec() == project_rows_spec(self.projects@) && self.resource_list.len_spec() == self.projects@.len()))
    }

    /// An empty screen showing its list.
    pub fn new() -> (r: Self)
        ensures
            r.inv(),
            r.view_state_spec() == ViewState::List,
            r.projects_spec() == Seq::<Project>::empty(),
            !r.loading_spec(),
            r.error_spec() is None,
            !r.form_open_spec(),
            !r.confirm_spec(),
            r.domain_opts_spec() == Seq::<(Seq<char>, Seq<char>)>::empty(),
            r.outbox_spec() == Seq::<Action>::empty(),
            r.selected_spec() == 0,
            r.pending_spec() is None,
            r.table_len_spec() == 0,
    {
        ProjectModule {
            view_state: ViewState::List,
            projects: Vec::new(),
            cached_domain_opts: Vec::new(),
            loading: false,
            error_message: None,
            confirm: ConfirmHandler::new(),
            resource_list: ResourceList::new(),
            form: None,
            outbox: Vec::new(),
        }
    }

    /// The view shown.
    pub fn view_state(&self) -> (r: &ViewState)
        ensures
            *r == self.view_state_spec(),
    {
        &self.view_state
    }

    /// The projects.
    pub fn projects(&self) -> (r: &[Project])
        ensures
            r@ == self.projects_spec(),
    {
        self.projects.as_slice()
    }

    /// Index of the selected project.
    pub fn selected_index(&self) -> (r: usize)
        ensures
            r == self.selected_spec(),
    {
        self.resource_list.selected_index()
    }

    /// The last error shown.
    pub fn error_message(&self) -> (r: Option<&str>)
        ensures
            match r {
                Some(s) => self.error_spec() == Some(s@),
                None => self.error_spec() is None,
            },
    {
        match &self.error_message {
            Some(e) => Some(e.as_str()),
            None => None,
        }
    }

    /// Whether a load is outstanding.
    pub fn is_loading(&self) -> (r: bool)
        ensures
            r == self.loading_spec(),
    {
        self.loading
    }

    /// Whether the form is open.
    pub fn form_is_open(&self) -> (r: bool)
        ensures
            r == self.form_open_spec(),
    {
        self.form.is_some()
    }

    /// Whether a confirmation dialog is open.
    pub fn confirm_is_active(&self) -> (r: bool)
        ensures
            r == self.confirm_spec(),
    {
        self.confirm.is_active()
    }

    /// Hand over the requests waiting to be sent, oldest first.
    pub fn take_actions(&mut self) -> (r: Vec<Action>)
        requires
            old(self).inv(),
        ensures
            final(self).inv(),
            r@ == old(self).outbox_spec(),
            final(self).outbox_spec() == Seq::<Action>::empty(),
            final(self).projects_spec() == old(self).projects_spec(),
            final(self).view_state_spec() == old(self).view_state_spec(),
            final(self).selected_spec() == old(self).selected_spec(),
    {
        let mut out: Vec<Action> = Vec::new();
        std::mem::swap(&mut out, &mut self.outbox);
        out
    }

    /// The request that reloads this screen.
    pub fn refresh_action(&self) -> (r: Option<Action>)
        ensures
            r == Some(Action::FetchProjects),
    {
        Some(Action::FetchProjects)
    }

    /// Whether a dialog or form takes every key.
    pub fn is_modal(&self) -> (r: bool)
        ensures
            r == self.confirm_spec() || self.form_open_spec(),
    {
        self.confirm.is_active() || self.form.is_some()
    }

    /// The key help shown in the status bar.
    pub fn help_hint(&self) -> (r: &'static str)
        ensures
            r@ == match self.view_state_spec() {
                ViewState::List => "Enter:Detail c:Create d:Delete r:Refresh"@,
                ViewState::Detail(_) => "Esc:Back"@,
                ViewState::Create => "Esc:Cancel Tab:Next Enter:Submit"@,
            },
    {
        match &self.view_state {
            ViewState::List => "Enter:Detail c:Create d:Delete r:Refresh",
            ViewState::Detail(_) => "Esc:Back",
            ViewState::Create => "Esc:Cancel Tab:Next Enter:Submit",
        }
    }

    /// The title over the content: none on the list, the project's name
    /// (`...` when unknown) on its detail, `Create Project` on the form.
    pub fn content_title(&self) -> (r: Option<String>)
        ensures
            match self.view_state_spec() {
                ViewState::List => r is None,
                ViewState::Detail(id) => r is Some && r->0@ == "Project: "@ + match find_project(self.projects_spec(), id@) {
                    Some(x) => x.name@,
                    None => "..."@,
                },
                ViewState::Create => r is Some && r->0@ == "Create Project"@,
            },
    {
        match &self.view_state {
            ViewState::List => None,
            ViewState::Detail(id) => {
                let n = self.projects.len();
                let mut j: usize = 0;
                proof {
                    assert(self.projects@.skip(0) =~= self.projects@);
                }
                while j < n
                    invariant
                        n == self.projects@.len(),
                        j <= n,
                        self.view_state_spec() == ViewState::Detail(*id),
                        find_project(self.projects@, id@) == find_project(self.projects@.skip(j as int), id@),
                    decreases n - j,
                {
                    let ghost rest = self.projects@.skip(j as int);
                    proof {
                        assert(rest[0] == self.projects@[j as int]);
                        assert(rest.drop_first() =~= self.projects@.skip(j + 1));
                    }
                    if str_eq(self.projects[j].id.as_str(), id.as_str()) {
                        return Some(cat("Project: ", self.projects[j].name.as_str()));
                    }
                    j = j + 1;
                }
                Some(cat("Project: ", "..."))
            },
            ViewState::Create => Some(String::from_str("Create Project")),
        }
    }

    /// What a confirmed dialog asks for.
    pub fn resolve_action(pending: PendingAction) -> (r: Option<Action>)
        ensures
            r == match pending {
                PendingAction::DeleteProject { id, .. } => Some(Action::DeleteProject { id }),
                _ => None,
            },
    {
        match pending {
            PendingAction::DeleteProject { id, .. } => Some(Action::DeleteProject { id }),
            _ => None,
        }
    }

    /// The confirmation state: the open dialog and the action it guards.
    pub closed spec fn confirm_state(&self) -> ConfirmHandler {
        self.confirm
    }

    /// This screen with its confirmation state replaced by `c`.
    pub closed spec fn with_confirm(&self, c: ConfirmHandler) -> Self {
        Self { confirm: c, ..*self }
    }

    /// Answer the open confirmation dialog with a key press, a confirmed
    /// dialog resolved by `resolve_action` (see `confirm_answer`); nothing
    /// but the dialog and its pending action changes. `None` when no
    /// dialog is open, so that the key goes to the view.
    pub fn handle_confirm_key(&mut self, key: Key) -> (r: Option<Option<Action>>)
        ensures
            confirm_answer(old(self).confirm_state(), final(self).confirm_state(), key, r, Self::resolve_action),
            *final(self) == old(self).with_confirm(final(self).confirm_state()),
            old(self).inv() ==> final(self).inv(),
    {
        self.confirm.handle_key(key, Self::resolve_action)
    }

    /// Close the form and go back to the list.
    pub fn close_form(&mut self)
        requires
            old(self).inv(),
        ensures
            final(self).inv(),
            !final(self).form_open_spec(),
            final(self).view_state_spec() == ViewState::List,
            final(self).projects_spec() == old(self).projects_spec(),
            final(self).outbox_spec() == old(self).outbox_spec(),
            final(self).selected_spec() == old(self).selected_spec(),
            final(self).loading_spec() == old(self).loading_spec(),
            final(self).error_spec() == old(self).error_spec(),
            final(self).confirm_spec() == old(self).confirm_spec(),
    {
        self.form = None;
        self.view_state = ViewState::List;
    }

    /// A cancelled form: close it and leave form mode.
    pub fn cancel_create(&mut self) -> (r: Option<Action>)
        requires
            old(self).inv(),
        ensures
            final(self).inv(),
            r == Some(Action::ExitFormMode),
            !final(self).form_open_spec(),
            final(self).view_state_spec() == ViewState::List,
            final(self).outbox_spec() == old(self).outbox_spec(),
    {
        self.close_form();
        Some(Action::ExitFormMode)
    }

    /// Open the create form (its domain field, when there is one, offers
    /// the loaded domains).
    pub fn open_create_form(&mut self)
        requires
            old(self).inv(),
        ensures
            final(self).inv(),
            final(self).form_open_spec(),
            final(self).view_state_spec() == ViewState::Create,
            final(self).projects_spec() == old(self).projects_spec(),
            final(self).outbox_spec() == old(self).outbox_spec(),
            final(self).selected_spec() == old(self).selected_spec(),
            final(self).loading_spec() == old(self).loading_spec(),
            final(self).error_spec() == old(self).error_spec(),
            final(self).confirm_spec() == old(self).confirm_spec(),
            final(self).pending_spec() == old(self).pending_spec(),
            final(self).domain_opts_spec() == old(self).domain_opts_spec(),
    {
        let defs = project_create_defs();
        let mut form = FormWidget::new("Create Project", defs);
        if self.cached_domain_opts.len() > 0 {
            form.set_field_options("Domain", self.cached_domain_opts.clone());
        }
        self.form = Some(form);
        self.view_state = ViewState::Create;
    }

    /// React to a key on the list: navigation moves the selection, Enter
    /// opens the selected project, `c` opens the create form, `d` asks to
    /// type the selected project's name to delete it, `r` reloads, Left
    /// goes to the sidebar and Esc goes back.
    pub fn handle_list_key(&mut self, key: Key) -> (r: Option<Action>)
        requires
            old(self).inv(),
        ensures
            final(self).inv(),
            final(self).projects_spec() == old(self).projects_spec(),
            final(self).outbox_spec() == old(self).outbox_spec(),
            final(self).selected_spec() == nav_target(key, old(self).selected_spec(), old(self).table_len_spec()),
            nav_key(key) ==> r is None && final(self).view_state_spec() == old(self).view_state_spec()
                && final(self).confirm_spec() == old(self).confirm_spec(),
            !nav_key(key) && key == Key::Enter ==> r is None && final(self).confirm_spec() == old(self).confirm_spec()
                && final(self).view_state_spec() == if old(self).selected_spec() < old(self).projects_spec().len() {
                ViewState::Detail(old(self).projects_spec()[old(self).selected_spec() as int].id)
            } else {
                old(self).view_state_spec()
            },
            !nav_key(key) && key == Key::Char('c') ==> r == Some(Action::EnterFormMode) && final(self).form_open_spec()
                && final(self).view_state_spec() == ViewState::Create,
            !nav_key(key) && key == Key::Char('d') ==> r is None && final(self).view_state_spec() == old(self).view_state_spec()
                && if old(self).selected_spec() < old(self).projects_spec().len() {
                let p = old(self).projects_spec()[old(self).selected_spec() as int];
                &&& final(self).pending_spec() == Some(PendingAction::DeleteProject { id: p.id, name: p.name })
                &&& final(self).dialog_spec() matches Some(d) && is_typed(
                    d,
                    "Delete project '"@ + p.name@ + "'?"@,
                    p.name@,
                    Seq::empty(),
                )
            } else {
                final(self).confirm_spec() == old(self).confirm_spec()
            },
            !nav_key(key) && key != Key::Enter && key != Key::Char('c') && key != Key::Char('d') ==> {
                &&& final(self).view_state_spec() == old(self).view_state_spec()
                &&& final(self).confirm_spec() == old(self).confirm_spec()
                &&& r == if key == Key::Char('r') {
                    Some(Action::FetchProjects)
                } else if key == Key::Left {
                    Some(Action::FocusSidebar)
                } else if key == Key::Esc {
                    Some(Action::Back)
                } else {
                    None
                }
            },
    {
        if self.resource_list.handle_nav_key(key) {
            return None;
        }
        match key {
            Key::Enter => {
                let i = self.resource_list.selected_index();
                if i < self.projects.len() {
                    self.view_state = ViewState::Detail(self.projects[i].id.clone());
                }
                None
            },
            Key::Char('c') => {
                self.open_create_form();
                Some(Action::EnterFormMode)
            },
            Key::Char('d') => {
                let i = self.resource_list.selected_index();
                if i < self.projects.len() {
                    let id = self.projects[i].id.clone();
                    let name = self.projects[i].name.clone();
                    let dialog = ConfirmDialog::type_to_confirm(cat3("Delete project '", name.as_str(), "'?"), name.clone());
                    proof {
                        assert(crate::text::strs_view(dialog.details@) =~= Seq::<Seq<char>>::empty());
                    }
                    self.confirm.open(dialog, PendingAction::DeleteProject { id, name });
                }
                None
            },
            Key::Char('r') => Some(Action::FetchProjects),
            Key::Left => Some(Action::FocusSidebar),
            Key::Esc => Some(Action::Back),
            _ => None,
        }
    }

    /// React to a key on the detail view: Esc, `q` or Left go back to the
    /// list.
    pub fn handle_detail_key(&mut self, key: Key) -> (r: Option<Action>)
        requires
            old(self).inv(),
        ensures
            final(self).inv(),
            r is None,
            final(self).view_state_spec() == if key == Key::Esc || key == Key::Char('q') || key == Key::Left {
                ViewState::List
            } else {
                old(self).view_state_spec()
            },
            final(self).projects_spec() == old(self).projects_spec(),
            final(self).outbox_spec() == old(self).outbox_spec(),
    {
        match key {
            Key::Esc | Key::Char('q') | Key::Left => {
                self.view_state = ViewState::List;
                None
            },
            _ => None,
        }
    }

    /// Replace the projects with a loaded list and clear the error.
    fn take_projects(&mut self, items: &Vec<Project>)
        requires
            old(self).inv(),
        ensures
            final(self).inv(),
            final(self).projects_spec() == items@,
            final(self).table_len_spec() == items@.len(),
            final(self).selected_spec() == kept_selection(old(self).selected_spec(), items@.len()),
            !final(self).loading_spec(),
            final(self).error_spec() is None,
            final(self).view_state_spec() == old(self).view_state_spec(),
            final(self).outbox_spec() == old(self).outbox_spec(),
            final(self).form_open_spec() == old(self).form_open_spec(),
            final(self).confirm_spec() == old(self).confirm_spec(),
    {
        proof {
            assert forall|a: Project, b: Project| #[trigger] cloned(a, b) implies a == b by {}
        }
        let copy = copy_list(items);
        let rows = project_rows(&copy);
        self.projects = copy;
        self.loading = false;
        self.error_message = None;
        proof {
            assert(rows_view(rows@).len() == rows@.len());
        }
        self.resource_list.set_rows(rows);
    }

    /// What the create form made of a key: a submitted form closes and
    /// queues the creation, a cancelled one closes; either leaves form
    /// mode. Without an open form, the form view is left.
    pub fn handle_create_key(&mut self, outcome: FormAction) -> (r: Option<Action>)
        requires
            old(self).inv(),
        ensures
            final(self).inv(),
            !old(self).form_open_spec() ==> {
                &&& r is None
                &&& !final(self).form_open_spec()
                &&& final(self).view_state_spec() == ViewState::List
                &&& final(self).projects_spec() == old(self).projects_spec()
                &&& final(self).outbox_spec() == old(self).outbox_spec()
                &&& final(self).selected_spec() == old(self).selected_spec()
                &&& final(self).loading_spec() == old(self).loading_spec()
                &&& final(self).error_spec() == old(self).error_spec()
                &&& final(self).confirm_spec() == old(self).confirm_spec()
            },
            old(self).form_open_spec() ==> match outcome {
                FormAction::Submit(values) => {
                    &&& r == Some(Action::ExitFormMode)
                    &&& !final(self).form_open_spec()
                    &&& final(self).view_state_spec() == ViewState::List
                    &&& final(self).outbox_spec().len() == old(self).outbox_spec().len() + 1
                    &&& final(self).outbox_spec().drop_last() == old(self).outbox_spec()
                    &&& final(self).outbox_spec().last() matches Action::CreateProject(p) && project_form_params(values@, p)
                },
                FormAction::Cancel => {
                    &&& r == Some(Action::ExitFormMode)
                    &&& !final(self).form_open_spec()
                    &&& final(self).view_state_spec() == ViewState::List
                    &&& final(self).outbox_spec() == old(self).outbox_spec()
                },
                FormAction::Pending => {
                    &&& r is None
                    &&& *final(self) == *old(self)
                },
            },
    {
        if self.form.is_none() {
            self.close_form();
            return None;
        }
        match outcome {
            FormAction::Submit(values) => self.submit_create(&values),
            FormAction::Cancel => self.cancel_create(),
            FormAction::Pending => None,
        }
    }

    /// Take in an event: a loaded list replaces the projects, clears the
    /// error and rebuilds the domain choices; a created project returns to
    /// the list and queues a reload; a deleted one queues a reload; a failed
    /// request shows its error.
    pub fn handle_event(&mut self, event: &AppEvent)
        requires
            old(self).inv(),
        ensures
            final(self).inv(),
            final(self).confirm_spec() == old(self).confirm_spec(),
            match event {
                AppEvent::ProjectsLoaded(x) => final(self).projects_spec() == x@
                    && final(self).table_len_spec() == x@.len()
                    && final(self).selected_spec() == kept_selection(old(self).selected_spec(), x@.len()),
                _ => final(self).projects_spec() == old(self).projects_spec()
                    && final(self).selected_spec() == old(self).selected_spec(),
            },
            final(self).loading_spec() == match event {
                AppEvent::ProjectsLoaded(_) => false,
                AppEvent::ApiError { .. } => false,
                _ => old(self).loading_spec(),
            },
            final(self).error_spec() == match event {
                AppEvent::ProjectsLoaded(_) => None,
                AppEvent::ApiError { operation, message } => Some(error_text(operation@, message@)),
                _ => old(self).error_spec(),
            },
            final(self).form_open_spec() == match event {
                _ => old(self).form_open_spec(),
            },
            final(self).view_state_spec() == match event {
                AppEvent::ProjectCreated(_) => ViewState::List,
                _ => old(self).view_state_spec(),
            },
            final(self).outbox_spec() == match event {
                AppEvent::ProjectCreated(_) => old(self).outbox_spec().push(Action::FetchProjects),
                AppEvent::ProjectDeleted { .. } => old(self).outbox_spec().push(Action::FetchProjects),
                _ => old(self).outbox_spec(),
            },
            match event { AppEvent::ProjectsLoaded(x) => domain_choices_ok(final(self).domain_opts_spec(), x@), _ => final(self).domain_opts_spec() == old(self).domain_opts_spec() },
    {
        match event {
            AppEvent::ProjectsLoaded(items) => {
                self.take_projects(items);
                self.cached_domain_opts = domain_options(items);
            },
            AppEvent::ProjectCreated(_) => {
                self.view_state = ViewState::List;
                self.outbox.push(Action::FetchProjects);
            },
            AppEvent::ProjectDeleted { .. } => {
                self.outbox.push(Action::FetchProjects);
            },
            AppEvent::ApiError { operation, message } => {
                self.error_message = Some(format_error(operation, message));
                self.loading = false;
            },
            _ => {},
        }
    }
    /// A submitted create form: close it, queue the create request, and
    /// leave form mode.
    pub fn submit_create(&mut self, values: &Vec<(String, FormValue)>) -> (r: Option<Action>)
        requires
            old(self).inv(),
        ensures
            final(self).inv(),
            r == Some(Action::ExitFormMode),
            !final(self).form_open_spec(),
            final(self).view_state_spec() == ViewState::List,
            final(self).outbox_spec().len() == old(self).outbox_spec().len() + 1,
            final(self).outbox_spec().drop_last() == old(self).outbox_spec(),
            final(self).outbox_spec().last() matches Action::CreateProject(p) && project_form_params(values@, p),
    {
        let params = project_params_from_form(values);
        self.close_form();
        self.outbox.push(Action::CreateProject(params));
        proof {
            assert(self.outbox@.drop_last() =~= old(self).outbox@);
        }
        Some(Action::ExitFormMode)
    }

    /// After a switch of project or cloud: drop the projects, mark a load
    /// outstanding, and go back to the list.
    pub fn on_context_changed(&mut self)
        requires
            old(self).inv(),
        ensures
            final(self).inv(),
            final(self).projects_spec() == Seq::<Project>::empty(),
            final(self).loading_spec(),
            final(self).error_spec() is None,
            final(self).table_len_spec() == 0,
            final(self).view_state_spec() == ViewState::List,
            final(self).outbox_spec() == old(self).outbox_spec(),
    {
        self.projects.clear();
        self.loading = true;
        self.error_message = None;
        self.resource_list.set_rows(Vec::new());
        self.view_state = ViewState::List;
    }
}

} // verus!
