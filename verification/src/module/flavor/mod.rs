pub mod view_model;

use vstd::prelude::*;
use crate::action::Action;
use crate::event::AppEvent;
use crate::models::nova::Flavor;
use crate::module::{copy_list, error_text, format_error, confirm_answer, ConfirmHandler, PendingAction, ViewState};
use crate::port::types::FlavorCreateParams;
use crate::text::{cat, cat3};
use crate::ui::confirm::ConfirmDialog;
use crate::ui::form::{FormAction, as_bool, as_number, as_text, bool_field, form_lookup, text_field, u32_field, FormValue, FormWidget};
use crate::ui::key::Key;
use crate::ui::resource_list::{kept_selection, nav_key, nav_target, rows_view, ResourceList, Row, RowView};
use self::view_model::{flavor_create_defs, flavor_row_spec, flavor_to_row};

verus! {

/// The rows of a list of flavors.
pub open spec fn flavor_rows_spec(flavors: Seq<Flavor>) -> Seq<RowView> {
    flavors.map_values(|f: Flavor| flavor_row_spec(f))
}

/// The table rows of a list of flavors.
fn flavor_rows(flavors: &Vec<Flavor>) -> (r: Vec<Row>)
    ensures
        rows_view(r@) == flavor_rows_spec(flavors@),
{
    let mut rows: Vec<Row> = Vec::new();
    let mut i: usize = 0;
    while i < flavors.len()
        invariant
            i <= flavors@.len(),
            rows_view(rows@) == flavor_rows_spec(flavors@.subrange(0, i as int)),
        decreases flavors@.len() - i,
    {
        let row = flavor_to_row(&flavors[i]);
        let ghost before = rows@;
        rows.push(row);
        proof {
            assert(rows_view(rows@) =~= rows_view(before).push(row@));
            assert(flavor_rows_spec(flavors@.subrange(0, i + 1)) =~= flavor_rows_spec(
                flavors@.subrange(0, i as int),
            ).push(flavor_row_spec(flavors@[i as int])));
        }
        i = i + 1;
    }
    proof {
        assert(flavors@.subrange(0, flavors@.len() as int) =~= flavors@);
    }
    rows
}

/// Whether `p` is what a submitted flavor form with `values` asks for.
pub open spec fn flavor_form_params(values: Seq<(String, FormValue)>, p: FlavorCreateParams) -> bool {
    &&& p.name@ == match as_text(form_lookup(values, "Name"@)) {
        Some(s) => s,
        None => Seq::empty(),
        }
    &&& p.vcpus as nat == match as_number(form_lookup(values, "vCPU"@), u32::MAX as nat) {
        Some(n) => n,
        None => 1,
        }
    &&& p.ram_mb as nat == match as_number(form_lookup(values, "RAM (MB)"@), u32::MAX as nat) {
        Some(n) => n,
        None => 512,
        }
    &&& p.disk_gb as nat == match as_number(form_lookup(values, "Disk (GB)"@), u32::MAX as nat) {
        Some(n) => n,
        None => 10,
        }
    &&& p.is_public == match as_bool(form_lookup(values, "Public"@)) {
        Some(b) => b,
        None => true,
        }
}

/// The parameters a submitted flavor form asks for: the name (empty when
/// missing), vCPUs, RAM and disk (1, 512 and 10 when missing or not a
/// number), and public (true when missing).
pub fn flavor_params_from_form(values: &Vec<(String, FormValue)>) -> (p: FlavorCreateParams)
    ensures
        flavor_form_params(values@, p),
{
    let name = match text_field(values, "Name") {
        Some(s) => s,
        None => String::new(),
    };
    let vcpus = match u32_field(values, "vCPU") {
        Some(n) => n,
        None => 1,
    };
    let ram_mb = match u32_field(values, "RAM (MB)") {
        Some(n) => n,
        None => 512,
    };
    let disk_gb = match u32_field(values, "Disk (GB)") {
        Some(n) => n,
        None => 10,
    };
    let is_public = match bool_field(values, "Public") {
        Some(b) => b,
        None => true,
    };
    FlavorCreateParams { name, vcpus, ram_mb, disk_gb, is_public }
}

/// The first flavor with the given ID.
pub open spec fn find_flavor(flavors: Seq<Flavor>, id: Seq<char>) -> Option<Flavor>
    decreases flavors.len(),
{
    if flavors.len() == 0 {
        None
    } else if flavors[0].id@ == id {
        Some(flavors[0])
    } else {
        find_flavor(flavors.drop_first(), id)
    }
}

/// The flavor screen: the flavors, their table, the create form, the
/// delete confirmation, and the requests waiting to be sent.
pub struct FlavorModule {
    view_state: ViewState,
    flavors: Vec<Flavor>,
    loading: bool,
    error_message: Option<String>,
    is_admin: bool,
    confirm: ConfirmHandler,
    resource_list: ResourceList,
    form: Option<FormWidget>,
    outbox: Vec<Action>,
}

impl FlavorModule {
    /// The view shown.
    pub closed spec fn view_state_spec(&self) -> ViewState {
        self.view_state
    }

    /// The flavors held.
    pub closed spec fn flavors_spec(&self) -> Seq<Flavor> {
        self.flavors@
    }

    /// Whether a load is outstanding.
    pub closed spec fn loading_spec(&self) -> bool {
        self.loading
    }

    /// The last error shown.
    pub closed spec fn error_spec(&self) -> Option<Seq<char>> {
        match self.error_message {
            Some(e) => Some(e@),
            None => None,
        }
    }

    /// Whether the user may create and delete flavors.
    pub closed spec fn admin_spec(&self) -> bool {
        self.is_admin
    }

    /// Whether the create form is open.
    pub closed spec fn form_open_spec(&self) -> bool {
        self.form is Some
    }

    /// Whether a confirmation dialog is open.
    pub closed spec fn confirm_spec(&self) -> bool {
        self.confirm.dialog is Some
    }

    /// The action the open confirmation guards.
    pub closed spec fn pending_spec(&self) -> Option<PendingAction> {
        self.confirm.pending
    }

    /// The requests waiting to be sent, oldest first.
    pub closed spec fn outbox_spec(&self) -> Seq<Action> {
        self.outbox@
    }

    /// The selected row.
    pub closed spec fn selected_spec(&self) -> nat {
        self.resource_list.selected_spec()
    }

    /// The table shows one row per flavor.
    pub closed spec fn inv(&self) -> bool {
        &&& self.resource_list.inv()
        &&& self.resource_list.rows_spec() == flavor_rows_spec(self.flavors@)
        &&& self.resource_list.len_spec() == self.flavors@.len()
    }

    /// An empty screen showing its list, for a non-admin user.
    pub fn new() -> (r: Self)
        ensures
            r.inv(),
            r.view_state_spec() == ViewState::List,
            r.flavors_spec() == Seq::<Flavor>::empty(),
            !r.loading_spec(),
            r.error_spec() is None,
            !r.admin_spec(),
            !r.form_open_spec(),
            !r.confirm_spec(),
            r.outbox_spec() == Seq::<Action>::empty(),
            r.selected_spec() == 0,
            r.pending_spec() is None,
    {
        let r = FlavorModule {
            view_state: ViewState::List,
            flavors: Vec::new(),
            loading: false,
            error_message: None,
            is_admin: false,
            confirm: ConfirmHandler::new(),
            resource_list: ResourceList::new(),
            form: None,
            outbox: Vec::new(),
        };
        proof {
            assert(flavor_rows_spec(r.flavors@) =~= Seq::<RowView>::empty());
        }
        r
    }

    /// The view shown.
    pub fn view_state(&self) -> (r: &ViewState)
        ensures
            *r == self.view_state_spec(),
    {
        &self.view_state
    }

    /// The flavors.
    pub fn flavors(&self) -> (r: &[Flavor])
        ensures
            r@ == self.flavors_spec(),
    {
        self.flavors.as_slice()
    }

    /// Index of the selected flavor.
    pub fn selected_index(&self) -> (r: usize)
        ensures
            r == self.selected_spec(),
    {
        self.resource_list.selected_index()
    }

    /// Whether the user may create and delete flavors.
    pub fn is_admin(&self) -> (r: bool)
        ensures
            r == self.admin_spec(),
    {
        self.is_admin
    }

    /// Whether the create form is open.
    pub fn form_is_open(&self) -> (r: bool)
        ensures
            r == self.form_open_spec(),
    {
        self.form.is_some()
    }

    /// Whether a confirmation dialog is open.
    pub fn confirm_is_active(&self) -> (r: bool)
        ensures
            r == self.confirm_spec(),
    {
        self.confirm.is_active()
    }

    /// The last error shown.
    pub fn error_message(&self) -> (r: Option<&str>)
        ensures
            match r {
                Some(s) => self.error_spec() == Some(s@),
                None => self.error_spec() is None,
            },
    {
        match &self.error_message {
            Some(e) => Some(e.as_str()),
            None => None,
        }
    }

    /// Hand over the requests waiting to be sent, oldest first.
    pub fn take_actions(&mut self) -> (r: Vec<Action>)
        requires
            old(self).inv(),
        ensures
            final(self).inv(),
            r@ == old(self).outbox_spec(),
            final(self).outbox_spec() == Seq::<Action>::empty(),
            final(self).flavors_spec() == old(self).flavors_spec(),
            final(self).view_state_spec() == old(self).view_state_spec(),
            final(self).selected_spec() == old(self).selected_spec(),
            final(self).admin_spec() == old(self).admin_spec(),
    {
        let mut out: Vec<Action> = Vec::new();
        std::mem::swap(&mut out, &mut self.outbox);
        out
    }

    /// Let the user create and delete flavors, or not.
    pub fn set_admin(&mut self, is_admin: bool)
        ensures
            final(self).admin_spec() == is_admin,
            final(self).inv() == old(self).inv(),
            final(self).flavors_spec() == old(self).flavors_spec(),
            final(self).view_state_spec() == old(self).view_state_spec(),
            final(self).outbox_spec() == old(self).outbox_spec(),
    {
        self.is_admin = is_admin;
    }

    /// Whether a dialog or the form takes every key.
    pub fn is_modal(&self) -> (r: bool)
        ensures
            r == (self.confirm_spec() || self.form_open_spec()),
    {
        self.confirm.is_active() || self.form.is_some()
    }

    /// The request that reloads this screen.
    pub fn refresh_action(&self) -> (r: Option<Action>)
        ensures
            r == Some(Action::FetchFlavors),
    {
        Some(Action::FetchFlavors)
    }

    /// The key help shown in the status bar.
    pub fn help_hint(&self) -> (r: &'static str)
        ensures
            r@ == match self.view_state_spec() {
                ViewState::List => if self.admin_spec() {
                    "c:Create d:Delete r:Refresh"@
                } else {
                    "r:Refresh"@
                },
                ViewState::Create => "Esc:Cancel Tab:Next Enter:Submit"@,
                ViewState::Detail(_) => ""@,
            },
    {
        match &self.view_state {
            ViewState::List => if self.is_admin {
                "c:Create d:Delete r:Refresh"
            } else {
                "r:Refresh"
            },
            ViewState::Create => "Esc:Cancel Tab:Next Enter:Submit",
            ViewState::Detail(_) => "",
        }
    }

    /// The title over the content: none on the list, the flavor's name
    /// (`...` when unknown) on its detail, `Create Flavor` on the form.
    pub fn content_title(&self) -> (r: Option<String>)
        ensures
            match self.view_state_spec() {
                ViewState::List => r is None,
                ViewState::Detail(id) => r is Some && r->0@ == "Flavor: "@ + match find_flavor(
                    self.flavors_spec(),
                    id@,
                ) {
                    Some(f) => f.name@,
                    None => "..."@,
                },
                ViewState::Create => r is Some && r->0@ == "Create Flavor"@,
            },
    {
        match &self.view_state {
            ViewState::List => None,
            ViewState::Detail(id) => {
                let n = self.flavors.len();
                let mut j: usize = 0;
                proof {
                    assert(self.flavors@.skip(0) =~= self.flavors@);
                }
                while j < n
                    invariant
                        n == self.flavors@.len(),
                        j <= n,
                        self.view_state_spec() == ViewState::Detail(*id),
                        find_flavor(self.flavors@, id@) == find_flavor(self.flavors@.skip(j as int), id@),
                    decreases n - j,
                {
                    let ghost rest = self.flavors@.skip(j as int);
                    proof {
                        assert(rest[0] == self.flavors@[j as int]);
                        assert(rest.drop_first() =~= self.flavors@.skip(j + 1));
                    }
                    if crate::text::str_eq(self.flavors[j].id.as_str(), id.as_str()) {
                        return Some(cat("Flavor: ", self.flavors[j].name.as_str()));
                    }
                    j = j + 1;
                }
                Some(cat("Flavor: ", "..."))
            },
            ViewState::Create => Some(String::from_str("Create Flavor")),
        }
    }

    /// What a confirmed dialog asks for: a delete confirmation deletes the
    /// flavor; nothing else applies here.
    pub fn resolve_action(pending: PendingAction) -> (r: Option<Action>)
        ensures
            r == match pending {
                PendingAction::Delete { id, .. } => Some(Action::DeleteFlavor { id }),
                _ => None,
            },
    {
        match pending {
            PendingAction::Delete { id, .. } => Some(Action::DeleteFlavor { id }),
            _ => None,
        }
    }

    /// The confirmation state: the open dialog and the action it guards.
    pub closed spec fn confirm_state(&self) -> ConfirmHandler {
        self.confirm
    }

    /// This screen with its confirmation state replaced by `c`.
    pub closed spec fn with_confirm(&self, c: ConfirmHandler) -> Self {
        Self { confirm: c, ..*self }
    }

    /// Answer the open confirmation dialog with a key press, a confirmed
    /// dialog resolved by `resolve_action` (see `confirm_answer`); nothing
    /// but the dialog and its pending action changes. `None` when no
    /// dialog is open, so that the key goes to the view.
    pub fn handle_confirm_key(&mut self, key: Key) -> (r: Option<Option<Action>>)
        ensures
            confirm_answer(old(self).confirm_state(), final(self).confirm_state(), key, r, Self::resolve_action),
            *final(self) == old(self).with_confirm(final(self).confirm_state()),
            old(self).inv() ==> final(self).inv(),
    {
        self.confirm.handle_key(key, Self::resolve_action)
    }

    /// Open the create form.
    pub fn open_create_form(&mut self)
        requires
            old(self).inv(),
        ensures
            final(self).inv(),
            final(self).form_open_spec(),
            final(self).view_state_spec() == ViewState::Create,
            final(self).flavors_spec() == old(self).flavors_spec(),
            final(self).outbox_spec() == old(self).outbox_spec(),
            final(self).admin_spec() == old(self).admin_spec(),
            final(self).confirm_spec() == old(self).confirm_spec(),
            final(self).selected_spec() == old(self).selected_spec(),
    {
        let defs = flavor_create_defs();
        self.form = Some(FormWidget::new("Create Flavor", defs));
        self.view_state = ViewState::Create;
    }

    /// Close the form and go back to the list.
    pub fn close_form(&mut self)
        requires
            old(self).inv(),
        ensures
            final(self).inv(),
            !final(self).form_open_spec(),
            final(self).view_state_spec() == ViewState::List,
            final(self).flavors_spec() == old(self).flavors_spec(),
            final(self).outbox_spec() == old(self).outbox_spec(),
            final(self).admin_spec() == old(self).admin_spec(),
            final(self).confirm_spec() == old(self).confirm_spec(),
            final(self).selected_spec() == old(self).selected_spec(),
            final(self).loading_spec() == old(self).loading_spec(),
            final(self).error_spec() == old(self).error_spec(),
    {
        self.form = None;
        self.view_state = ViewState::List;
    }

    /// What the create form made of a key: a submitted form closes and
    /// queues the creation, a cancelled one closes; either leaves form
    /// mode. Without an open form, the form view is left.
    pub fn handle_create_key(&mut self, outcome: FormAction) -> (r: Option<Action>)
        requires
            old(self).inv(),
        ensures
            final(self).inv(),
            !old(self).form_open_spec() ==> {
                &&& r is None
                &&& !final(self).form_open_spec()
                &&& final(self).view_state_spec() == ViewState::List
                &&& final(self).flavors_spec() == old(self).flavors_spec()
                &&& final(self).outbox_spec() == old(self).outbox_spec()
                &&& final(self).admin_spec() == old(self).admin_spec()
                &&& final(self).confirm_spec() == old(self).confirm_spec()
                &&& final(self).selected_spec() == old(self).selected_spec()
                &&& final(self).loading_spec() == old(self).loading_spec()
                &&& final(self).error_spec() == old(self).error_spec()
            },
            old(self).form_open_spec() ==> match outcome {
                FormAction::Submit(values) => {
                    &&& r == Some(Action::ExitFormMode)
                    &&& !final(self).form_open_spec()
                    &&& final(self).view_state_spec() == ViewState::List
                    &&& final(self).outbox_spec().len() == old(self).outbox_spec().len() + 1
                    &&& final(self).outbox_spec().drop_last() == old(self).outbox_spec()
                    &&& final(self).outbox_spec().last() matches Action::CreateFlavor(p) && flavor_form_params(values@, p)
                    &&& final(self).flavors_spec() == old(self).flavors_spec()
                },
                FormAction::Cancel => {
                    &&& r == Some(Action::ExitFormMode)
                    &&& !final(self).form_open_spec()
                    &&& final(self).view_state_spec() == ViewState::List
                    &&& final(self).outbox_spec() == old(self).outbox_spec()
                    &&& final(self).flavors_spec() == old(self).flavors_spec()
                },
                FormAction::Pending => {
                    &&& r is None
                    &&& *final(self) == *old(self)
                },
            },
    {
        if self.form.is_none() {
            self.close_form();
            return None;
        }
        match outcome {
            FormAction::Submit(values) => self.submit_create(&values),
            FormAction::Cancel => self.cancel_create(),
            FormAction::Pending => None,
        }
    }

    /// A submitted create form: close it, queue the create request, and
    /// leave form mode.
    pub fn submit_create(&mut self, values: &Vec<(String, FormValue)>) -> (r: Option<Action>)
        requires
            old(self).inv(),
        ensures
            final(self).inv(),
            r == Some(Action::ExitFormMode),
            !final(self).form_open_spec(),
            final(self).view_state_spec() == ViewState::List,
            final(self).outbox_spec().len() == old(self).outbox_spec().len() + 1,
            final(self).outbox_spec().drop_last() == old(self).outbox_spec(),
            final(self).outbox_spec().last() matches Action::CreateFlavor(p) && flavor_form_params(values@, p),
            final(self).flavors_spec() == old(self).flavors_spec(),
    {
        let params = flavor_params_from_form(values);
        self.close_form();
        self.outbox.push(Action::CreateFlavor(params));
        proof {
            assert(self.outbox@.drop_last() =~= old(self).outbox@);
        }
        Some(Action::ExitFormMode)
    }

    /// A cancelled create form: close it and leave form mode.
    pub fn cancel_create(&mut self) -> (r: Option<Action>)
        requires
            old(self).inv(),
        ensures
            final(self).inv(),
            r == Some(Action::ExitFormMode),
            !final(self).form_open_spec(),
            final(self).view_state_spec() == ViewState::List,
            final(self).outbox_spec() == old(self).outbox_spec(),
            final(self).flavors_spec() == old(self).flavors_spec(),
    {
        self.close_form();
        Some(Action::ExitFormMode)
    }

    /// React to a key on the list: navigation; for an admin `c` opens the
    /// create form and `d` asks to delete the selected flavor; `r`
    /// reloads, Left goes to the sidebar, Esc goes back.
    pub fn handle_list_key(&mut self, key: Key) -> (r: Option<Action>)
        requires
            old(self).inv(),
        ensures
            final(self).inv(),
            final(self).flavors_spec() == old(self).flavors_spec(),
            final(self).outbox_spec() == old(self).outbox_spec(),
            final(self).admin_spec() == old(self).admin_spec(),
            final(self).selected_spec() == nav_target(key, old(self).selected_spec(), old(self).flavors_spec().len()),
            nav_key(key) ==> r is None && final(self).form_open_spec() == old(self).form_open_spec()
                && final(self).confirm_spec() == old(self).confirm_spec(),
            !nav_key(key) && key == Key::Char('c') && old(self).admin_spec() ==> r == Some(Action::EnterFormMode)
                && final(self).form_open_spec() && final(self).view_state_spec() == ViewState::Create,
            !nav_key(key) && key == Key::Char('d') && old(self).admin_spec() ==> r is None && (
            if old(self).selected_spec() < old(self).flavors_spec().len() {
                final(self).confirm_spec() && final(self).pending_spec() == Some(
                    PendingAction::Delete {
                        id: old(self).flavors_spec()[old(self).selected_spec() as int].id,
                        name: old(self).flavors_spec()[old(self).selected_spec() as int].name,
                    },
                )
            } else {
                final(self).confirm_spec() == old(self).confirm_spec()
            }),
            !nav_key(key) && !((key == Key::Char('c') || key == Key::Char('d')) && old(self).admin_spec()) ==> {
                &&& final(self).form_open_spec() == old(self).form_open_spec()
                &&& final(self).confirm_spec() == old(self).confirm_spec()
                &&& r == if key == Key::Char('r') {
                    Some(Action::FetchFlavors)
                } else if key == Key::Left {
                    Some(Action::FocusSidebar)
                } else if key == Key::Esc {
                    Some(Action::Back)
                } else {
                    None
                }
            },
    {
        if self.resource_list.handle_nav_key(key) {
            return None;
        }
        match key {
            Key::Char('c') => {
                if !self.is_admin {
                    return None;
                }
                self.open_create_form();
                Some(Action::EnterFormMode)
            },
            Key::Char('d') => {
                if !self.is_admin {
                    return None;
                }
                let i = self.resource_list.selected_index();
                if i < self.flavors.len() {
                    let id = self.flavors[i].id.clone();
                    let name = self.flavors[i].name.clone();
                    let message = cat3("Delete flavor '", name.as_str(), "'?");
                    self.confirm.open(
                        ConfirmDialog::yes_no(message),
                        PendingAction::Delete { id, name },
                    );
                }
                None
            },
            Key::Char('r') => Some(Action::FetchFlavors),
            Key::Left => Some(Action::FocusSidebar),
            Key::Esc => Some(Action::Back),
            _ => None,
        }
    }

    /// Take in an event: a loaded list replaces the flavors and clears
    /// the error; a created flavor closes the form and queues a reload; a
    /// deleted one queues a reload; a failed request shows its error.
    pub fn handle_event(&mut self, event: &AppEvent)
        requires
            old(self).inv(),
        ensures
            final(self).inv(),
            final(self).admin_spec() == old(self).admin_spec(),
            final(self).confirm_spec() == old(self).confirm_spec(),
            final(self).flavors_spec() == match event {
                AppEvent::FlavorsLoaded(f) => f@,
                _ => old(self).flavors_spec(),
            },
            final(self).selected_spec() == match event {
                AppEvent::FlavorsLoaded(f) => kept_selection(old(self).selected_spec(), f@.len()),
                _ => old(self).selected_spec(),
            },
            final(self).loading_spec() == match event {
                AppEvent::FlavorsLoaded(_) => false,
                AppEvent::ApiError { .. } => false,
                _ => old(self).loading_spec(),
            },
            final(self).error_spec() == match event {
                AppEvent::FlavorsLoaded(_) => None,
                AppEvent::ApiError { operation, message } => Some(error_text(operation@, message@)),
                _ => old(self).error_spec(),
            },
            final(self).form_open_spec() == match event {
                AppEvent::FlavorCreated(_) => false,
                _ => old(self).form_open_spec(),
            },
            final(self).view_state_spec() == match event {
                AppEvent::FlavorCreated(_) => ViewState::List,
                _ => old(self).view_state_spec(),
            },
            final(self).outbox_spec() == match event {
                AppEvent::FlavorCreated(_) => old(self).outbox_spec().push(Action::FetchFlavors),
                AppEvent::FlavorDeleted { .. } => old(self).outbox_spec().push(Action::FetchFlavors),
                _ => old(self).outbox_spec(),
            },
    {
        match event {
            AppEvent::FlavorsLoaded(flavors) => {
                proof {
                    assert forall|a: Flavor, b: Flavor| #[trigger] cloned(a, b) implies a == b by {}
                }
                self.flavors = copy_list(flavors);
                self.loading = false;
                self.error_message = None;
                let rows = flavor_rows(&self.flavors);
                proof {
                    assert(rows_view(rows@).len() == rows@.len());
                }
                self.resource_list.set_rows(rows);
            },
            AppEvent::FlavorCreated(_) => {
                self.close_form();
                self.outbox.push(Action::FetchFlavors);
            },
            AppEvent::FlavorDeleted { .. } => {
                self.outbox.push(Action::FetchFlavors);
            },
            AppEvent::ApiError { operation, message } => {
                self.error_message = Some(format_error(operation, message));
                self.loading = false;
            },
            _ => {},
        }
    }
}

} // verus!
