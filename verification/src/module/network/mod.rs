pub mod view_model;

use vstd::prelude::*;
use crate::action::Action;
use crate::event::AppEvent;
use crate::models::neutron::Network;
use crate::module::{copy_list, copy_list_by, error_text, format_error, ViewState};
use crate::port::types::{NetworkCreateParams, Subnet};
use crate::text::{cat, str_eq};
use crate::ui::form::{FormAction, as_bool, as_number, as_text, bool_field, form_lookup, text_field, u32_field, FormValue, FormWidget};
use crate::ui::key::Key;
use crate::ui::resource_list::{kept_selection, nav_key, nav_target, rows_view, ResourceList, Row, RowView};
use self::view_model::{network_create_defs, network_row_spec, network_to_row};

verus! {

/// The rows of a list of networks, with or without the project column.
pub open spec fn network_rows_spec(networks: Seq<Network>, show_tenant: bool) -> Seq<RowView> {
    networks.map_values(|n: Network| network_row_spec(n, show_tenant))
}

/// Two network lists hold equal networks, position by position.
pub open spec fn networks_eqv(a: Seq<Network>, b: Seq<Network>) -> bool {
    a.len() == b.len() && forall|i: int| 0 <= i < a.len() ==> (#[trigger] a[i]).eqv(&b[i])
}

/// The table rows of a list of networks.
fn network_rows(networks: &Vec<Network>, show_tenant: bool) -> (r: Vec<Row>)
    ensures
        rows_view(r@) == network_rows_spec(networks@, show_tenant),
{
    let mut rows: Vec<Row> = Vec::new();
    let mut i: usize = 0;
    while i < networks.len()
        invariant
            i <= networks@.len(),
            rows_view(rows@) == network_rows_spec(networks@.subrange(0, i as int), show_tenant),
        decreases networks@.len() - i,
    {
        let row = network_to_row(&networks[i], show_tenant);
        let ghost before = rows@;
        rows.push(row);
        proof {
            assert(rows_view(rows@) =~= rows_view(before).push(row@));
            assert(network_rows_spec(networks@.subrange(0, i + 1), show_tenant) =~= network_rows_spec(
                networks@.subrange(0, i as int),
                show_tenant,
            ).push(network_row_spec(networks@[i as int], show_tenant)));
        }
        i = i + 1;
    }
    proof {
        assert(networks@.subrange(0, networks@.len() as int) =~= networks@);
    }
    rows
}

/// Whether `p` is what a submitted network form with `values` asks for.
pub open spec fn network_form_params(values: Seq<(String, FormValue)>, p: NetworkCreateParams) -> bool {
    &&& p.name@ == match as_text(form_lookup(values, "Name"@)) {
        Some(s) => s,
        None => Seq::empty(),
        }
    &&& p.admin_state_up == match as_bool(form_lookup(values, "Admin State Up"@)) {
        Some(b) => b,
        None => true,
        }
    &&& p.shared == as_bool(form_lookup(values, "Shared"@))
    &&& p.external == as_bool(form_lookup(values, "External"@))
    &&& match p.mtu {
        Some(m) => as_number(form_lookup(values, "MTU"@), u32::MAX as nat) == Some(m as nat),
        None => as_number(form_lookup(values, "MTU"@), u32::MAX as nat) is None,
        }
    &&& p.port_security_enabled is None
}

/// The parameters a submitted network form asks for: the name (empty
/// when missing), admin state (up when missing), the shared and external
/// boxes and the MTU when given.
pub fn network_params_from_form(values: &Vec<(String, FormValue)>) -> (p: NetworkCreateParams)
    ensures
        network_form_params(values@, p),
{
    let name = match text_field(values, "Name") {
        Some(s) => s,
        None => String::new(),
    };
    let admin_state_up = match bool_field(values, "Admin State Up") {
        Some(b) => b,
        None => true,
    };
    let shared = bool_field(values, "Shared");
    let external = bool_field(values, "External");
    let mtu = u32_field(values, "MTU");
    NetworkCreateParams { name, admin_state_up, shared, external, mtu, port_security_enabled: None }
}

/// The first network with the given ID.
pub open spec fn find_network(networks: Seq<Network>, id: Seq<char>) -> Option<Network>
    decreases networks.len(),
{
    if networks.len() == 0 {
        None
    } else if networks[0].id@ == id {
        Some(networks[0])
    } else {
        find_network(networks.drop_first(), id)
    }
}

/// The network screen: the networks, their table, the subnets of the
/// network shown in detail, the create form, and the requests waiting to
/// be sent.
pub struct NetworkModule {
    view_state: ViewState,
    networks: Vec<Network>,
    subnets: Vec<Subnet>,
    loading: bool,
    error_message: Option<String>,
    resource_list: ResourceList,
    form: Option<FormWidget>,
    all_tenants: bool,
    outbox: Vec<Action>,
}

impl NetworkModule {
    /// The view shown.
    pub closed spec fn view_state_spec(&self) -> ViewState {
        self.view_state
    }

    /// The networks held.
    pub closed spec fn networks_spec(&self) -> Seq<Network> {
        self.networks@
    }

    /// The subnets of the network shown in detail.
    pub closed spec fn subnets_spec(&self) -> Seq<Subnet> {
        self.subnets@
    }

    /// Whether a load is outstanding.
    pub closed spec fn loading_spec(&self) -> bool {
        self.loading
    }

    /// The last error shown.
    pub closed spec fn error_spec(&self) -> Option<Seq<char>> {
        match self.error_message {
            Some(e) => Some(e@),
            None => None,
        }
    }

    /// Whether the create form is open.
    pub closed spec fn form_open_spec(&self) -> bool {
        self.form is Some
    }

    /// Whether networks of all projects are shown.
    pub closed spec fn all_tenants_spec(&self) -> bool {
        self.all_tenants
    }

    /// The requests waiting to be sent, oldest first.
    pub closed spec fn outbox_spec(&self) -> Seq<Action> {
        self.outbox@
    }

    /// The selected row.
    pub closed spec fn selected_spec(&self) -> nat {
        self.resource_list.selected_spec()
    }

    /// The number of rows in the table.
    pub closed spec fn table_len_spec(&self) -> nat {
        self.resource_list.len_spec()
    }

    /// The table is empty (after a switch of the project column, until the
    /// next load) or shows one row per network.
    pub closed spec fn inv(&self) -> bool {
        &&& self.resource_list.inv()
        &&& (self.resource_list.len_spec() == 0 || (self.resource_list.rows_spec()
            == network_rows_spec(self.networks@, self.all_tenants) && self.resource_list.len_spec()
            == self.networks@.len()))
    }

    /// An empty screen showing its list.
    pub fn new() -> (r: Self)
        ensures
            r.inv(),
            r.view_state_spec() == ViewState::List,
            r.networks_spec() == Seq::<Network>::empty(),
            r.subnets_spec() == Seq::<Subnet>::empty(),
            !r.loading_spec(),
            r.error_spec() is None,
            !r.form_open_spec(),
            !r.all_tenants_spec(),
            r.outbox_spec() == Seq::<Action>::empty(),
            r.selected_spec() == 0,
            r.table_len_spec() == 0,
    {
        NetworkModule {
            view_state: ViewState::List,
            networks: Vec::new(),
            subnets: Vec::new(),
            loading: false,
            error_message: None,
            resource_list: ResourceList::new(),
            form: None,
            all_tenants: false,
            outbox: Vec::new(),
        }
    }

    /// The view shown.
    pub fn view_state(&self) -> (r: &ViewState)
        ensures
            *r == self.view_state_spec(),
    {
        &self.view_state
    }

    /// The networks.
    pub fn networks(&self) -> (r: &[Network])
        ensures
            r@ == self.networks_spec(),
    {
        self.networks.as_slice()
    }

    /// The subnets of the network shown in detail.
    pub fn subnets(&self) -> (r: &[Subnet])
        ensures
            r@ == self.subnets_spec(),
    {
        self.subnets.as_slice()
    }

    /// Index of the selected network.
    pub fn selected_index(&self) -> (r: usize)
        ensures
            r == self.selected_spec(),
    {
        self.resource_list.selected_index()
    }

    /// The last error shown.
    pub fn error_message(&self) -> (r: Option<&str>)
        ensures
            match r {
                Some(s) => self.error_spec() == Some(s@),
                None => self.error_spec() is None,
            },
    {
        match &self.error_message {
            Some(e) => Some(e.as_str()),
            None => None,
        }
    }

    /// Whether the create form is open.
    pub fn form_is_open(&self) -> (r: bool)
        ensures
            r == self.form_open_spec(),
    {
        self.form.is_some()
    }

    /// Whether a load is outstanding.
    pub fn is_loading(&self) -> (r: bool)
        ensures
            r == self.loading_spec(),
    {
        self.loading
    }

    /// Hand over the requests waiting to be sent, oldest first.
    pub fn take_actions(&mut self) -> (r: Vec<Action>)
        requires
            old(self).inv(),
        ensures
            final(self).inv(),
            r@ == old(self).outbox_spec(),
            final(self).outbox_spec() == Seq::<Action>::empty(),
            final(self).networks_spec() == old(self).networks_spec(),
            final(self).view_state_spec() == old(self).view_state_spec(),
            final(self).selected_spec() == old(self).selected_spec(),
    {
        let mut out: Vec<Action> = Vec::new();
        std::mem::swap(&mut out, &mut self.outbox);
        out
    }

    /// The request that reloads this screen.
    pub fn refresh_action(&self) -> (r: Option<Action>)
        ensures
            r == Some(Action::FetchNetworks),
    {
        Some(Action::FetchNetworks)
    }

    /// Whether the form takes every key.
    pub fn is_modal(&self) -> (r: bool)
        ensures
            r == self.form_open_spec(),
    {
        self.form.is_some()
    }

    /// Show or hide the project column; the table starts over empty.
    pub fn set_all_tenants(&mut self, v: bool)
        requires
            old(self).inv(),
        ensures
            final(self).inv(),
            final(self).all_tenants_spec() == v,
            final(self).table_len_spec() == 0,
            final(self).selected_spec() == 0,
            final(self).networks_spec() == old(self).networks_spec(),
            final(self).view_state_spec() == old(self).view_state_spec(),
            final(self).outbox_spec() == old(self).outbox_spec(),
    {
        self.all_tenants = v;
        self.resource_list = ResourceList::new();
    }

    /// After a switch of project or cloud: drop everything held, mark a
    /// load outstanding, and go back to the list.
    pub fn on_context_changed(&mut self)
        requires
            old(self).inv(),
        ensures
            final(self).inv(),
            final(self).networks_spec() == Seq::<Network>::empty(),
            final(self).subnets_spec() == Seq::<Subnet>::empty(),
            final(self).loading_spec(),
            final(self).error_spec() is None,
            final(self).table_len_spec() == 0,
            final(self).view_state_spec() == ViewState::List,
            final(self).outbox_spec() == old(self).outbox_spec(),
            final(self).form_open_spec() == old(self).form_open_spec(),
    {
        self.networks.clear();
        self.subnets.clear();
        self.loading = true;
        self.error_message = None;
        self.resource_list.set_rows(Vec::new());
        self.view_state = ViewState::List;
    }

    /// The key help shown in the status bar.
    pub fn help_hint(&self) -> (r: &'static str)
        ensures
            r@ == match self.view_state_spec() {
                ViewState::List => "Enter:Detail c:Create r:Refresh"@,
                ViewState::Detail(_) => "Esc:Back"@,
                ViewState::Create => "Esc:Cancel Tab:Next Enter:Submit"@,
            },
    {
        match &self.view_state {
            ViewState::List => "Enter:Detail c:Create r:Refresh",
            ViewState::Detail(_) => "Esc:Back",
            ViewState::Create => "Esc:Cancel Tab:Next Enter:Submit",
        }
    }

    /// The title over the content: none on the list, the network's name
    /// (`...` when unknown) on its detail, `Create Network` on the form.
    pub fn content_title(&self) -> (r: Option<String>)
        ensures
            match self.view_state_spec() {
                ViewState::List => r is None,
                ViewState::Detail(id) => r is Some && r->0@ == "Network: "@ + match find_network(
                    self.networks_spec(),
                    id@,
                ) {
                    Some(n) => n.name@,
                    None => "..."@,
                },
                ViewState::Create => r is Some && r->0@ == "Create Network"@,
            },
    {
        match &self.view_state {
            ViewState::List => None,
            ViewState::Detail(id) => {
                let n = self.networks.len();
                let mut j: usize = 0;
                proof {
                    assert(self.networks@.skip(0) =~= self.networks@);
                }
                while j < n
                    invariant
                        n == self.networks@.len(),
                        j <= n,
                        self.view_state_spec() == ViewState::Detail(*id),
                        find_network(self.networks@, id@) == find_network(
                            self.networks@.skip(j as int),
                            id@,
                        ),
                    decreases n - j,
                {
                    let ghost rest = self.networks@.skip(j as int);
                    proof {
                        assert(rest[0] == self.networks@[j as int]);
                        assert(rest.drop_first() =~= self.networks@.skip(j + 1));
                    }
                    if str_eq(self.networks[j].id.as_str(), id.as_str()) {
                        return Some(cat("Network: ", self.networks[j].name.as_str()));
                    }
                    j = j + 1;
                }
                Some(cat("Network: ", "..."))
            },
            ViewState::Create => Some(String::from_str("Create Network")),
        }
    }

    /// Open the create form.
    pub fn open_create_form(&mut self)
        requires
            old(self).inv(),
        ensures
            final(self).inv(),
            final(self).form_open_spec(),
            final(self).view_state_spec() == ViewState::Create,
            final(self).networks_spec() == old(self).networks_spec(),
            final(self).outbox_spec() == old(self).outbox_spec(),
            final(self).selected_spec() == old(self).selected_spec(),
    {
        let defs = network_create_defs();
        self.form = Some(FormWidget::new("Create Network", defs));
        self.view_state = ViewState::Create;
    }

    /// Close the form and go back to the list.
    pub fn close_form(&mut self)
        requires
            old(self).inv(),
        ensures
            final(self).inv(),
            !final(self).form_open_spec(),
            final(self).view_state_spec() == ViewState::List,
            final(self).networks_spec() == old(self).networks_spec(),
            final(self).subnets_spec() == old(self).subnets_spec(),
            final(self).outbox_spec() == old(self).outbox_spec(),
            final(self).selected_spec() == old(self).selected_spec(),
            final(self).loading_spec() == old(self).loading_spec(),
            final(self).error_spec() == old(self).error_spec(),
            final(self).all_tenants_spec() == old(self).all_tenants_spec(),
    {
        self.form = None;
        self.view_state = ViewState::List;
    }

    /// What the create form made of a key: a submitted form closes and
    /// queues the creation, a cancelled one closes; either leaves form
    /// mode. Without an open form, the form view is left.
    pub fn handle_create_key(&mut self, outcome: FormAction) -> (r: Option<Action>)
        requires
            old(self).inv(),
        ensures
            final(self).inv(),
            !old(self).form_open_spec() ==> {
                &&& r is None
                &&& !final(self).form_open_spec()
                &&& final(self).view_state_spec() == ViewState::List
                &&& final(self).networks_spec() == old(self).networks_spec()
                &&& final(self).subnets_spec() == old(self).subnets_spec()
                &&& final(self).outbox_spec() == old(self).outbox_spec()
                &&& final(self).selected_spec() == old(self).selected_spec()
                &&& final(self).loading_spec() == old(self).loading_spec()
                &&& final(self).error_spec() == old(self).error_spec()
                &&& final(self).all_tenants_spec() == old(self).all_tenants_spec()
            },
            old(self).form_open_spec() ==> match outcome {
                FormAction::Submit(values) => {
                    &&& r == Some(Action::ExitFormMode)
                    &&& !final(self).form_open_spec()
                    &&& final(self).view_state_spec() == ViewState::List
                    &&& final(self).outbox_spec().len() == old(self).outbox_spec().len() + 1
                    &&& final(self).outbox_spec().drop_last() == old(self).outbox_spec()
                    &&& final(self).outbox_spec().last() matches Action::CreateNetwork(p) && network_form_params(values@, p)
                },
                FormAction::Cancel => {
                    &&& r == Some(Action::ExitFormMode)
                    &&& !final(self).form_open_spec()
                    &&& final(self).view_state_spec() == ViewState::List
                    &&& final(self).outbox_spec() == old(self).outbox_spec()
                },
                FormAction::Pending => {
                    &&& r is None
                    &&& *final(self) == *old(self)
                },
            },
    {
        if self.form.is_none() {
            self.close_form();
            return None;
        }
        match outcome {
            FormAction::Submit(values) => self.submit_create(&values),
            FormAction::Cancel => self.cancel_create(),
            FormAction::Pending => None,
        }
    }

    /// A submitted create form: close it, queue the create request, and
    /// leave form mode.
    pub fn submit_create(&mut self, values: &Vec<(String, FormValue)>) -> (r: Option<Action>)
        requires
            old(self).inv(),
        ensures
            final(self).inv(),
            r == Some(Action::ExitFormMode),
            !final(self).form_open_spec(),
            final(self).view_state_spec() == ViewState::List,
            final(self).outbox_spec().len() == old(self).outbox_spec().len() + 1,
            final(self).outbox_spec().drop_last() == old(self).outbox_spec(),
            final(self).outbox_spec().last() matches Action::CreateNetwork(p) && network_form_params(values@, p),
    {
        let params = network_params_from_form(values);
        self.close_form();
        self.outbox.push(Action::CreateNetwork(params));
        proof {
            assert(self.outbox@.drop_last() =~= old(self).outbox@);
        }
        Some(Action::ExitFormMode)
    }

    /// A cancelled create form: close it and leave form mode.
    pub fn cancel_create(&mut self) -> (r: Option<Action>)
        requires
            old(self).inv(),
        ensures
            final(self).inv(),
            r == Some(Action::ExitFormMode),
            !final(self).form_open_spec(),
            final(self).view_state_spec() == ViewState::List,
            final(self).outbox_spec() == old(self).outbox_spec(),
    {
        self.close_form();
        Some(Action::ExitFormMode)
    }

    /// React to a key on the list: navigation; Enter shows the selected
    /// network and asks for its subnets; `c` opens the create form; `r`
    /// reloads, Left goes to the sidebar, Esc goes back.
    pub fn handle_list_key(&mut self, key: Key) -> (r: Option<Action>)
        requires
            old(self).inv(),
        ensures
            final(self).inv(),
            final(self).networks_spec() == old(self).networks_spec(),
            final(self).selected_spec() == nav_target(key, old(self).selected_spec(), old(self).table_len_spec()),
            nav_key(key) ==> r is None && final(self).view_state_spec() == old(self).view_state_spec()
                && final(self).outbox_spec() == old(self).outbox_spec(),
            !nav_key(key) && key == Key::Enter ==> r is None && if old(self).selected_spec() < old(self).networks_spec().len() {
                let id = old(self).networks_spec()[old(self).selected_spec() as int].id;
                &&& final(self).view_state_spec() == ViewState::Detail(id)
                &&& final(self).subnets_spec() == Seq::<Subnet>::empty()
                &&& final(self).outbox_spec() == old(self).outbox_spec().push(Action::FetchSubnets { network_id: id })
            } else {
                final(self).view_state_spec() == old(self).view_state_spec()
                    && final(self).outbox_spec() == old(self).outbox_spec()
            },
            !nav_key(key) && key == Key::Char('c') ==> r == Some(Action::EnterFormMode)
                && final(self).form_open_spec() && final(self).view_state_spec() == ViewState::Create
                && final(self).outbox_spec() == old(self).outbox_spec(),
            !nav_key(key) && key != Key::Enter && key != Key::Char('c') ==> {
                &&& final(self).view_state_spec() == old(self).view_state_spec()
                &&& final(self).outbox_spec() == old(self).outbox_spec()
                &&& r == if key == Key::Char('r') {
                    Some(Action::FetchNetworks)
                } else if key == Key::Left {
                    Some(Action::FocusSidebar)
                } else if key == Key::Esc {
                    Some(Action::Back)
                } else {
                    None
                }
            },
    {
        if self.resource_list.handle_nav_key(key) {
            return None;
        }
        match key {
            Key::Enter => {
                let i = self.resource_list.selected_index();
                if i < self.networks.len() {
                    let id = self.networks[i].id.clone();
                    self.subnets.clear();
                    self.view_state = ViewState::Detail(id.clone());
                    self.outbox.push(Action::FetchSubnets { network_id: id });
                }
                None
            },
            Key::Char('c') => {
                self.open_create_form();
                Some(Action::EnterFormMode)
            },
            Key::Char('r') => Some(Action::FetchNetworks),
            Key::Left => Some(Action::FocusSidebar),
            Key::Esc => Some(Action::Back),
            _ => None,
        }
    }

    /// React to a key on the detail view: Esc, `q` or Left go back to the
    /// list.
    pub fn handle_detail_key(&mut self, key: Key) -> (r: Option<Action>)
        requires
            old(self).inv(),
        ensures
            final(self).inv(),
            r is None,
            final(self).view_state_spec() == if key == Key::Esc || key == Key::Char('q') || key == Key::Left {
                ViewState::List
            } else {
                old(self).view_state_spec()
            },
            final(self).networks_spec() == old(self).networks_spec(),
            final(self).outbox_spec() == old(self).outbox_spec(),
    {
        match key {
            Key::Esc | Key::Char('q') | Key::Left => {
                self.view_state = ViewState::List;
                None
            },
            _ => None,
        }
    }

    /// Replace the networks with a loaded list and clear the error.
    fn take_networks(&mut self, networks: &Vec<Network>)
        requires
            old(self).inv(),
        ensures
            final(self).inv(),
            networks_eqv(final(self).networks_spec(), networks@),
            final(self).table_len_spec() == networks@.len(),
            final(self).selected_spec() == kept_selection(old(self).selected_spec(), networks@.len()),
            !final(self).loading_spec(),
            final(self).error_spec() is None,
            final(self).all_tenants_spec() == old(self).all_tenants_spec(),
            final(self).subnets_spec() == old(self).subnets_spec(),
            final(self).form_open_spec() == old(self).form_open_spec(),
            final(self).view_state_spec() == old(self).view_state_spec(),
            final(self).outbox_spec() == old(self).outbox_spec(),
    {
        let show_tenant = self.all_tenants;
        let copy = copy_list_by(networks, Ghost(|a: Network, b: Network| a.eqv(&b)));
        let rows = network_rows(&copy, show_tenant);
        self.networks = copy;
        self.loading = false;
        self.error_message = None;
        proof {
            assert(rows_view(rows@).len() == rows@.len());
        }
        self.resource_list.set_rows(rows);
    }

    /// Take in an event: a loaded list replaces the networks and clears
    /// the error; subnets are kept when they belong to the network shown
    /// in detail; a created network closes the form and queues a reload; a
    /// failed request shows its error.
    pub fn handle_event(&mut self, event: &AppEvent)
        requires
            old(self).inv(),
        ensures
            final(self).inv(),
            match event {
                AppEvent::NetworksLoaded(n) => networks_eqv(final(self).networks_spec(), n@)
                    && final(self).table_len_spec() == n@.len()
                    && final(self).selected_spec() == kept_selection(old(self).selected_spec(), n@.len()),
                _ => final(self).networks_spec() == old(self).networks_spec()
                    && final(self).selected_spec() == old(self).selected_spec(),
            },
            final(self).subnets_spec() == match event {
                AppEvent::SubnetsLoaded { network_id, subnets } => match old(self).view_state_spec() {
                    ViewState::Detail(current) => if current@ == network_id@ {
                        subnets@
                    } else {
                        old(self).subnets_spec()
                    },
                    _ => old(self).subnets_spec(),
                },
                _ => old(self).subnets_spec(),
            },
            final(self).loading_spec() == match event {
                AppEvent::NetworksLoaded(_) => false,
                AppEvent::ApiError { .. } => false,
                _ => old(self).loading_spec(),
            },
            final(self).error_spec() == match event {
                AppEvent::NetworksLoaded(_) => None,
                AppEvent::ApiError { operation, message } => Some(error_text(operation@, message@)),
                _ => old(self).error_spec(),
            },
            final(self).form_open_spec() == match event {
                AppEvent::NetworkCreated(_) => false,
                _ => old(self).form_open_spec(),
            },
            final(self).view_state_spec() == match event {
                AppEvent::NetworkCreated(_) => ViewState::List,
                _ => old(self).view_state_spec(),
            },
            final(self).outbox_spec() == match event {
                AppEvent::NetworkCreated(_) => old(self).outbox_spec().push(Action::FetchNetworks),
                _ => old(self).outbox_spec(),
            },
            final(self).all_tenants_spec() == old(self).all_tenants_spec(),
    {
        match event {
            AppEvent::NetworksLoaded(networks) => {
                self.take_networks(networks);
            },
            AppEvent::SubnetsLoaded { network_id, subnets } => {
                let same = match &self.view_state {
                    ViewState::Detail(current) => str_eq(current.as_str(), network_id.as_str()),
                    _ => false,
                };
                if same {
                    proof {
                        assert forall|a: Subnet, b: Subnet| #[trigger] cloned(a, b) implies a == b by {}
                    }
                    self.subnets = copy_list(subnets);
                }
            },
            AppEvent::NetworkCreated(_) => {
                self.close_form();
                self.outbox.push(Action::FetchNetworks);
            },
            AppEvent::ApiError { operation, message } => {
                self.error_message = Some(format_error(operation, message));
                self.loading = false;
            },
            _ => {},
        }
    }
}

} // verus!
