pub mod view_model;

use vstd::prelude::*;
use crate::action::Action;
use crate::event::AppEvent;
use crate::models::neutron::{SecurityGroup, SecurityGroupRule};
use crate::module::{copy_list_by, error_text, format_error, confirm_answer, ConfirmHandler, PendingAction, ViewState};
use crate::port::types::{RuleDirection, SecurityGroupCreateParams, SecurityGroupRuleCreateParams};
use crate::text::{byte_prefix, byte_prefix_exec, byte_prefix_len, bytes_exceed, cat, cat3, keep_non_empty, utf8_bytes, non_empty, opt_or, opt_view, str_eq};
use crate::ui::form::{FormAction, as_number, as_selected, as_text, form_lookup, selected_field, text_field, u16_field, FormValue, FormWidget};
use crate::ui::confirm::{is_yes_no, ConfirmDialog};
use crate::ui::key::Key;
use crate::ui::resource_list::{kept_selection, nav_key, nav_target, rows_view, ResourceList, Row, RowView};
use self::view_model::{sg_create_defs, sg_row_spec, sg_rule_defs, sg_to_row};

verus! {

/// Whether `p` is what a submitted security group form with `values` asks for.
pub open spec fn sg_form_params(values: Seq<(String, FormValue)>, p: SecurityGroupCreateParams) -> bool {
    &&& p.name@ == match as_text(form_lookup(values, "Name"@)) {
        Some(s) => s,
        None => Seq::empty(),
        }
    &&& opt_view(p.description) == non_empty(as_text(form_lookup(values, "Description"@)))
}

/// The parameters a submitted group form asks for: the name (empty when
/// missing) and the description when one was typed.
pub fn sg_params_from_form(values: &Vec<(String, FormValue)>) -> (p: SecurityGroupCreateParams)
    ensures
        sg_form_params(values@, p),
{
    let name = match text_field(values, "Name") {
        Some(s) => s,
        None => String::new(),
    };
    let description = keep_non_empty(text_field(values, "Description"));
    SecurityGroupCreateParams { name, description }
}

/// Whether `p` is what a submitted rule form with `values` asks for, for group `sg_id`.
pub open spec fn rule_form_params(sg_id: Seq<char>, values: Seq<(String, FormValue)>, p: SecurityGroupRuleCreateParams) -> bool {
    &&& p.security_group_id@ == sg_id
    &&& p.direction == if as_selected(form_lookup(values, "Direction"@)) == Some("egress"@) {
        RuleDirection::Egress
        } else {
        RuleDirection::Ingress
        }
    &&& opt_view(p.protocol) == non_empty(as_selected(form_lookup(values, "Protocol"@)))
    &&& match p.port_range_min {
        Some(m) => as_number(form_lookup(values, "Port Min"@), u16::MAX as nat) == Some(m as nat),
        None => as_number(form_lookup(values, "Port Min"@), u16::MAX as nat) is None,
        }
    &&& match p.port_range_max {
        Some(m) => as_number(form_lookup(values, "Port Max"@), u16::MAX as nat) == Some(m as nat),
        None => as_number(form_lookup(values, "Port Max"@), u16::MAX as nat) is None,
        }
    &&& opt_view(p.remote_ip_prefix) == non_empty(as_text(form_lookup(values, "Source CIDR"@)))
    &&& p.remote_group_id is None
    &&& p.ethertype is None
}

/// The parameters a submitted rule form asks for on group `sg_id`:
/// egress when `egress` was chosen and ingress otherwise, the protocol
/// when one was chosen, the port bounds when given as numbers, and the
/// source prefix when one was typed.
pub fn rule_params_from_form(sg_id: String, values: &Vec<(String, FormValue)>) -> (p: SecurityGroupRuleCreateParams)
    ensures
        rule_form_params(sg_id@, values@, p),
{
    let egress = match selected_field(values, "Direction") {
        Some(s) => str_eq(s.as_str(), "egress"),
        None => false,
    };
    let direction = if egress { RuleDirection::Egress } else { RuleDirection::Ingress };
    let protocol = keep_non_empty(selected_field(values, "Protocol"));
    let port_range_min = u16_field(values, "Port Min");
    let port_range_max = u16_field(values, "Port Max");
    let remote_ip_prefix = keep_non_empty(text_field(values, "Source CIDR"));
    SecurityGroupRuleCreateParams {
        security_group_id: sg_id,
        direction,
        protocol,
        port_range_min,
        port_range_max,
        remote_ip_prefix,
        remote_group_id: None,
        ethertype: None,
    }
}

/// The rows of a list of security groups.
pub open spec fn sg_rows_spec(items: Seq<SecurityGroup>, show_tenant: bool) -> Seq<RowView> {
    items.map_values(|x: SecurityGroup| sg_row_spec(x, show_tenant))
}

/// Two lists hold equal security groups, position by position.
pub open spec fn sgs_eqv(a: Seq<SecurityGroup>, b: Seq<SecurityGroup>) -> bool {
    a.len() == b.len() && forall|i: int| 0 <= i < a.len() ==> (#[trigger] a[i]).eqv(&b[i])
}

/// The table rows of a list of security groups.
fn sg_rows(items: &Vec<SecurityGroup>, show_tenant: bool) -> (r: Vec<Row>)
    ensures
        rows_view(r@) == sg_rows_spec(items@, show_tenant),
{
    let mut rows: Vec<Row> = Vec::new();
    let mut i: usize = 0;
    while i < items.len()
        invariant
            i <= items@.len(),
            rows_view(rows@) == sg_rows_spec(items@.subrange(0, i as int), show_tenant),
        decreases items@.len() - i,
    {
        let row = sg_to_row(&items[i], show_tenant);
        let ghost before = rows@;
        rows.push(row);
        proof {
            assert(rows_view(rows@) =~= rows_view(before).push(row@));
            assert(sg_rows_spec(items@.subrange(0, i + 1), show_tenant) =~= sg_rows_spec(items@.subrange(0, i as int), show_tenant).push(sg_row_spec(items@[i as int], show_tenant)));
        }
        i = i + 1;
    }
    proof {
        assert(items@.subrange(0, items@.len() as int) =~= items@);
    }
    rows
}

/// The first security group with the given ID.
pub open spec fn find_sg(items: Seq<SecurityGroup>, id: Seq<char>) -> Option<SecurityGroup>
    decreases items.len(),
{
    if items.len() == 0 {
        None
    } else if items[0].id@ == id {
        Some(items[0])
    } else {
        find_sg(items.drop_first(), id)
    }
}

/// The security group screen: the groups, their table, the group shown in
/// detail with its selected rule, the create and rule forms, the delete
/// confirmation, and the requests waiting to be sent.
pub struct SecurityGroupModule {
    view_state: ViewState,
    security_groups: Vec<SecurityGroup>,
    detail_sg_id: Option<String>,
    rule_selected: usize,
    loading: bool,
    error_message: Option<String>,
    confirm: ConfirmHandler,
    resource_list: ResourceList,
    form: Option<FormWidget>,
    all_tenants: bool,
    outbox: Vec<Action>,
}

impl SecurityGroupModule {
    /// The view shown.
    pub closed spec fn view_state_spec(&self) -> ViewState {
        self.view_state
    }

    /// The security groups held.
    pub closed spec fn security_groups_spec(&self) -> Seq<SecurityGroup> {
        self.security_groups@
    }

    /// Whether a load is outstanding.
    pub closed spec fn loading_spec(&self) -> bool {
        self.loading
    }

    /// The last error shown.
    pub closed spec fn error_spec(&self) -> Option<Seq<char>> {
        match self.error_message {
            Some(e) => Some(e@),
            None => None,
        }
    }

    /// Whether the form is open.
    pub closed spec fn form_open_spec(&self) -> bool {
        self.form is Some
    }

    /// Whether a confirmation dialog is open.
    pub closed spec fn confirm_spec(&self) -> bool {
        self.confirm.dialog is Some
    }

    /// The action the open confirmation guards.
    pub closed spec fn pending_spec(&self) -> Option<PendingAction> {
        self.confirm.pending
    }

    /// The open confirmation dialog.
    pub closed spec fn dialog_spec(&self) -> Option<ConfirmDialog> {
        self.confirm.dialog
    }

    /// The rule selected on the detail view of a held security group.
    pub open spec fn selected_rule_spec(&self) -> Option<SecurityGroupRule> {
        match self.view_state_spec() {
            ViewState::Detail(id) => match find_sg(self.security_groups_spec(), id@) {
                Some(sg) => if self.rule_selected_spec() < sg.security_group_rules@.len() {
                    Some(sg.security_group_rules@[self.rule_selected_spec() as int])
                } else {
                    None
                },
                None => None,
            },
            _ => None,
        }
    }

    /// Whether the resources of all projects are shown.
    pub closed spec fn all_tenants_spec(&self) -> bool {
        self.all_tenants
    }

    /// The requests waiting to be sent, oldest first.
    pub closed spec fn outbox_spec(&self) -> Seq<Action> {
        self.outbox@
    }

    /// The selected row.
    pub closed spec fn selected_spec(&self) -> nat {
        self.resource_list.selected_spec()
    }

    /// The number of rows in the table.
    pub closed spec fn table_len_spec(&self) -> nat {
        self.resource_list.len_spec()
    }

    /// The group a rule form adds to.
    pub closed spec fn detail_sg_spec(&self) -> Option<String> {
        self.detail_sg_id
    }

    /// Whether the open form is the rule form.
    pub closed spec fn rule_form_spec(&self) -> bool {
        match self.form {
            Some(f) => f.title@ == "Add Security Group Rule"@,
            None => false,
        }
    }

    /// The selected rule of the group shown in detail.
    pub closed spec fn rule_selected_spec(&self) -> nat {
        self.rule_selected as nat
    }

    /// The table is empty (after a switch of the project column, until the next load) or shows one row per security group.
    pub closed spec fn inv(&self) -> bool {
        &&& self.resource_list.inv()
        &&& (self.resource_list.len_spec() == 0 || (self.resource_list.rows_spec() == sg_rows_spec(self.security_groups@, self.all_tenants) && self.resource_list.len_spec() == self.security_groups@.len()))
    }

    /// An empty screen showing its list.
    pub fn new() -> (r: Self)
        ensures
            r.inv(),
            r.view_state_spec() == ViewState::List,
            r.security_groups_spec() == Seq::<SecurityGroup>::empty(),
            !r.loading_spec(),
            r.error_spec() is None,
            !r.form_open_spec(),
            !r.confirm_spec(),
            !r.all_tenants_spec(),
            r.detail_sg_spec() is None,
            r.rule_selected_spec() == 0,
            r.outbox_spec() == Seq::<Action>::empty(),
            r.selected_spec() == 0,
            r.pending_spec() is None,
            r.table_len_spec() == 0,
    {
        SecurityGroupModule {
            view_state: ViewState::List,
            security_groups: Vec::new(),
            detail_sg_id: None,
            rule_selected: 0,
            loading: false,
            error_message: None,
            confirm: ConfirmHandler::new(),
            resource_list: ResourceList::new(),
            form: None,
            all_tenants: false,
            outbox: Vec::new(),
        }
    }

    /// The view shown.
    pub fn view_state(&self) -> (r: &ViewState)
        ensures
            *r == self.view_state_spec(),
    {
        &self.view_state
    }

    /// The security groups.
    pub fn security_groups(&self) -> (r: &[SecurityGroup])
        ensures
            r@ == self.security_groups_spec(),
    {
        self.security_groups.as_slice()
    }

    /// Index of the selected security group.
    pub fn selected_index(&self) -> (r: usize)
        ensures
            r == self.selected_spec(),
    {
        self.resource_list.selected_index()
    }

    /// The last error shown.
    pub fn error_message(&self) -> (r: Option<&str>)
        ensures
            match r {
                Some(s) => self.error_spec() == Some(s@),
                None => self.error_spec() is None,
            },
    {
        match &self.error_message {
            Some(e) => Some(e.as_str()),
            None => None,
        }
    }

    /// Whether a load is outstanding.
    pub fn is_loading(&self) -> (r: bool)
        ensures
            r == self.loading_spec(),
    {
        self.loading
    }

    /// Whether the form is open.
    pub fn form_is_open(&self) -> (r: bool)
        ensures
            r == self.form_open_spec(),
    {
        self.form.is_some()
    }

    /// Whether a confirmation dialog is open.
    pub fn confirm_is_active(&self) -> (r: bool)
        ensures
            r == self.confirm_spec(),
    {
        self.confirm.is_active()
    }

    /// Hand over the requests waiting to be sent, oldest first.
    pub fn take_actions(&mut self) -> (r: Vec<Action>)
        requires
            old(self).inv(),
        ensures
            final(self).inv(),
            r@ == old(self).outbox_spec(),
            final(self).outbox_spec() == Seq::<Action>::empty(),
            final(self).security_groups_spec() == old(self).security_groups_spec(),
            final(self).view_state_spec() == old(self).view_state_spec(),
            final(self).selected_spec() == old(self).selected_spec(),
    {
        let mut out: Vec<Action> = Vec::new();
        std::mem::swap(&mut out, &mut self.outbox);
        out
    }

    /// The request that reloads this screen.
    pub fn refresh_action(&self) -> (r: Option<Action>)
        ensures
            r == Some(Action::FetchSecurityGroups),
    {
        Some(Action::FetchSecurityGroups)
    }

    /// Whether a dialog or form takes every key.
    pub fn is_modal(&self) -> (r: bool)
        ensures
            r == self.confirm_spec() || self.form_open_spec(),
    {
        self.confirm.is_active() || self.form.is_some()
    }

    /// Show or hide the project column; the table starts over empty.
    pub fn set_all_tenants(&mut self, v: bool)
        requires
            old(self).inv(),
        ensures
            final(self).inv(),
            final(self).all_tenants_spec() == v,
            final(self).table_len_spec() == 0,
            final(self).selected_spec() == 0,
            final(self).security_groups_spec() == old(self).security_groups_spec(),
            final(self).view_state_spec() == old(self).view_state_spec(),
            final(self).outbox_spec() == old(self).outbox_spec(),
    {
        self.all_tenants = v;
        self.resource_list = ResourceList::new();
    }

    /// The key help shown in the status bar.
    pub fn help_hint(&self) -> (r: &'static str)
        ensures
            r@ == match self.view_state_spec() {
                ViewState::List => "Enter:Detail c:Create d:Delete r:Refresh"@,
                ViewState::Detail(_) => "j/k:Rule a:AddRule d:DeleteRule Esc:Back"@,
                ViewState::Create => "Esc:Cancel Tab:Next Enter:Submit"@,
            },
    {
        match &self.view_state {
            ViewState::List => "Enter:Detail c:Create d:Delete r:Refresh",
            ViewState::Detail(_) => "j/k:Rule a:AddRule d:DeleteRule Esc:Back",
            ViewState::Create => "Esc:Cancel Tab:Next Enter:Submit",
        }
    }

    /// The title over the content: none on the list, the security group's name
    /// (`...` when unknown) on its detail, `Create Security Group` on the form.
    pub fn content_title(&self) -> (r: Option<String>)
        ensures
            match self.view_state_spec() {
                ViewState::List => r is None,
                ViewState::Detail(id) => r is Some && r->0@ == "Security Group: "@ + match find_sg(self.security_groups_spec(), id@) {
                    Some(x) => x.name@,
                    None => "..."@,
                },
                ViewState::Create => r is Some && r->0@ == "Create Security Group"@,
            },
    {
        match &self.view_state {
            ViewState::List => None,
            ViewState::Detail(id) => {
                let n = self.security_groups.len();
                let mut j: usize = 0;
                proof {
                    assert(self.security_groups@.skip(0) =~= self.security_groups@);
                }
                while j < n
                    invariant
                        n == self.security_groups@.len(),
                        j <= n,
                        self.view_state_spec() == ViewState::Detail(*id),
                        find_sg(self.security_groups@, id@) == find_sg(self.security_groups@.skip(j as int), id@),
                    decreases n - j,
                {
                    let ghost rest = self.security_groups@.skip(j as int);
                    proof {
                        assert(rest[0] == self.security_groups@[j as int]);
                        assert(rest.drop_first() =~= self.security_groups@.skip(j + 1));
                    }
                    if str_eq(self.security_groups[j].id.as_str(), id.as_str()) {
                        return Some(cat("Security Group: ", self.security_groups[j].name.as_str()));
                    }
                    j = j + 1;
                }
                Some(cat("Security Group: ", "..."))
            },
            ViewState::Create => Some(String::from_str("Create Security Group")),
        }
    }

    /// What a confirmed dialog asks for.
    pub fn resolve_action(pending: PendingAction) -> (r: Option<Action>)
        ensures
            r == match pending {
                PendingAction::DeleteSecurityGroup { id, .. } => Some(Action::DeleteSecurityGroup { id }),
                PendingAction::DeleteSecurityGroupRule { rule_id } => Some(Action::DeleteSecurityGroupRule { rule_id }),
                _ => None,
            },
    {
        match pending {
            PendingAction::DeleteSecurityGroup { id, .. } => Some(Action::DeleteSecurityGroup { id }),
            PendingAction::DeleteSecurityGroupRule { rule_id } => Some(Action::DeleteSecurityGroupRule { rule_id }),
            _ => None,
        }
    }

    /// The confirmation state: the open dialog and the action it guards.
    pub closed spec fn confirm_state(&self) -> ConfirmHandler {
        self.confirm
    }

    /// This screen with its confirmation state replaced by `c`.
    pub closed spec fn with_confirm(&self, c: ConfirmHandler) -> Self {
        Self { confirm: c, ..*self }
    }

    /// Answer the open confirmation dialog with a key press, a confirmed
    /// dialog resolved by `resolve_action` (see `confirm_answer`); nothing
    /// but the dialog and its pending action changes. `None` when no
    /// dialog is open, so that the key goes to the view.
    pub fn handle_confirm_key(&mut self, key: Key) -> (r: Option<Option<Action>>)
        ensures
            confirm_answer(old(self).confirm_state(), final(self).confirm_state(), key, r, Self::resolve_action),
            *final(self) == old(self).with_confirm(final(self).confirm_state()),
            old(self).inv() ==> final(self).inv(),
    {
        self.confirm.handle_key(key, Self::resolve_action)
    }

    /// Open the Create Security Group form.
    pub fn open_create_form(&mut self)
        requires
            old(self).inv(),
        ensures
            final(self).inv(),
            final(self).form_open_spec(),
            final(self).view_state_spec() == ViewState::Create,
            final(self).security_groups_spec() == old(self).security_groups_spec(),
            final(self).outbox_spec() == old(self).outbox_spec(),
            final(self).selected_spec() == old(self).selected_spec(),
            final(self).all_tenants_spec() == old(self).all_tenants_spec(),
            final(self).confirm_spec() == old(self).confirm_spec(),
            final(self).detail_sg_spec() == old(self).detail_sg_spec(),
            final(self).rule_selected_spec() == old(self).rule_selected_spec(),
    {
        let defs = sg_create_defs();
        self.form = Some(FormWidget::new("Create Security Group", defs));
        self.view_state = ViewState::Create;
    }

    /// Close the form and go back to the list.
    pub fn close_form(&mut self)
        requires
            old(self).inv(),
        ensures
            final(self).inv(),
            !final(self).form_open_spec(),
            final(self).view_state_spec() == ViewState::List,
            final(self).security_groups_spec() == old(self).security_groups_spec(),
            final(self).outbox_spec() == old(self).outbox_spec(),
            final(self).selected_spec() == old(self).selected_spec(),
            final(self).loading_spec() == old(self).loading_spec(),
            final(self).error_spec() == old(self).error_spec(),
            final(self).confirm_spec() == old(self).confirm_spec(),
            final(self).all_tenants_spec() == old(self).all_tenants_spec(),
            final(self).detail_sg_spec() == old(self).detail_sg_spec(),
            final(self).rule_selected_spec() == old(self).rule_selected_spec(),
    {
        self.form = None;
        self.view_state = ViewState::List;
    }

    /// A cancelled form: close it and leave form mode.
    pub fn cancel_create(&mut self) -> (r: Option<Action>)
        requires
            old(self).inv(),
        ensures
            final(self).inv(),
            r == Some(Action::ExitFormMode),
            !final(self).form_open_spec(),
            final(self).view_state_spec() == ViewState::List,
            final(self).outbox_spec() == old(self).outbox_spec(),
    {
        self.close_form();
        Some(Action::ExitFormMode)
    }

    /// Replace the security groups with a loaded list and clear the error.
    fn take_security_groups(&mut self, items: &Vec<SecurityGroup>)
        requires
            old(self).inv(),
        ensures
            final(self).inv(),
            sgs_eqv(final(self).security_groups_spec(), items@),
            final(self).table_len_spec() == items@.len(),
            final(self).selected_spec() == kept_selection(old(self).selected_spec(), items@.len()),
            !final(self).loading_spec(),
            final(self).error_spec() is None,
            final(self).view_state_spec() == old(self).view_state_spec(),
            final(self).outbox_spec() == old(self).outbox_spec(),
            final(self).form_open_spec() == old(self).form_open_spec(),
            final(self).confirm_spec() == old(self).confirm_spec(),
            final(self).all_tenants_spec() == old(self).all_tenants_spec(),
            final(self).detail_sg_spec() == old(self).detail_sg_spec(),
            final(self).rule_selected_spec() == old(self).rule_selected_spec(),
    {
        let copy = copy_list_by(items, Ghost(|a: SecurityGroup, b: SecurityGroup| a.eqv(&b)));
        let rows = sg_rows(&copy, self.all_tenants);
        self.security_groups = copy;
        self.loading = false;
        self.error_message = None;
        proof {
            assert(rows_view(rows@).len() == rows@.len());
        }
        self.resource_list.set_rows(rows);
    }

    /// Take in an event: a loaded list replaces the groups and clears the
    /// error; a created or deleted group or rule queues a reload; a failed
    /// request shows its error.
    pub fn handle_event(&mut self, event: &AppEvent)
        requires
            old(self).inv(),
        ensures
            final(self).inv(),
            final(self).confirm_spec() == old(self).confirm_spec(),
            match event {
                AppEvent::SecurityGroupsLoaded(x) => sgs_eqv(final(self).security_groups_spec(), x@)
                    && final(self).table_len_spec() == x@.len()
                    && final(self).selected_spec() == kept_selection(old(self).selected_spec(), x@.len()),
                _ => final(self).security_groups_spec() == old(self).security_groups_spec()
                    && final(self).selected_spec() == old(self).selected_spec(),
            },
            final(self).loading_spec() == match event {
                AppEvent::SecurityGroupsLoaded(_) => false,
                AppEvent::ApiError { .. } => false,
                _ => old(self).loading_spec(),
            },
            final(self).error_spec() == match event {
                AppEvent::SecurityGroupsLoaded(_) => None,
                AppEvent::ApiError { operation, message } => Some(error_text(operation@, message@)),
                _ => old(self).error_spec(),
            },
            final(self).form_open_spec() == match event {
                _ => old(self).form_open_spec(),
            },
            final(self).view_state_spec() == match event {
                _ => old(self).view_state_spec(),
            },
            final(self).outbox_spec() == match event {
                AppEvent::SecurityGroupCreated(_) => old(self).outbox_spec().push(Action::FetchSecurityGroups),
                AppEvent::SecurityGroupDeleted { .. } => old(self).outbox_spec().push(Action::FetchSecurityGroups),
                AppEvent::SecurityGroupRuleCreated(_) => old(self).outbox_spec().push(Action::FetchSecurityGroups),
                AppEvent::SecurityGroupRuleDeleted { .. } => old(self).outbox_spec().push(Action::FetchSecurityGroups),
                _ => old(self).outbox_spec(),
            },
            final(self).detail_sg_spec() == old(self).detail_sg_spec(),
            final(self).rule_selected_spec() == old(self).rule_selected_spec(),
    {
        match event {
            AppEvent::SecurityGroupsLoaded(items) => {
                self.take_security_groups(items);
            },
            AppEvent::SecurityGroupCreated(_) => {
                self.outbox.push(Action::FetchSecurityGroups);
            },
            AppEvent::SecurityGroupDeleted { .. } => {
                self.outbox.push(Action::FetchSecurityGroups);
            },
            AppEvent::SecurityGroupRuleCreated(_) => {
                self.outbox.push(Action::FetchSecurityGroups);
            },
            AppEvent::SecurityGroupRuleDeleted { .. } => {
                self.outbox.push(Action::FetchSecurityGroups);
            },
            AppEvent::ApiError { operation, message } => {
                self.error_message = Some(format_error(operation, message));
                self.loading = false;
            },
            _ => {},
        }
    }
    /// Position of the group shown in detail, when the detail view is on
    /// and the group is held.
    fn current_index(&self) -> (r: Option<usize>)
        ensures
            match r {
                Some(j) => j < self.security_groups@.len() && (match self.view_state {
                    ViewState::Detail(id) => find_sg(self.security_groups@, id@) == Some(
                        self.security_groups@[j as int],
                    ),
                    _ => false,
                }),
                None => match self.view_state {
                    ViewState::Detail(id) => find_sg(self.security_groups@, id@) is None,
                    _ => true,
                },
            },
    {
        match &self.view_state {
            ViewState::Detail(id) => {
                let n = self.security_groups.len();
                let mut j: usize = 0;
                proof {
                    assert(self.security_groups@.skip(0) =~= self.security_groups@);
                }
                while j < n
                    invariant
                        n == self.security_groups@.len(),
                        j <= n,
                        self.view_state == ViewState::Detail(*id),
                        find_sg(self.security_groups@, id@) == find_sg(self.security_groups@.skip(j as int), id@),
                    decreases n - j,
                {
                    let ghost rest = self.security_groups@.skip(j as int);
                    proof {
                        assert(rest[0] == self.security_groups@[j as int]);
                        assert(rest.drop_first() =~= self.security_groups@.skip(j + 1));
                    }
                    if str_eq(self.security_groups[j].id.as_str(), id.as_str()) {
                        return Some(j);
                    }
                    j = j + 1;
                }
                None
            },
            _ => None,
        }
    }

    /// Open the rule form for group `sg_id`.
    pub fn open_rule_form(&mut self, sg_id: String)
        requires
            old(self).inv(),
        ensures
            final(self).inv(),
            final(self).form_open_spec(),
            final(self).view_state_spec() == ViewState::Create,
            final(self).detail_sg_spec() == Some(sg_id),
            final(self).security_groups_spec() == old(self).security_groups_spec(),
            final(self).outbox_spec() == old(self).outbox_spec(),
            final(self).selected_spec() == old(self).selected_spec(),
            final(self).confirm_spec() == old(self).confirm_spec(),
            final(self).all_tenants_spec() == old(self).all_tenants_spec(),
            final(self).rule_selected_spec() == old(self).rule_selected_spec(),
    {
        self.detail_sg_id = Some(sg_id);
        let defs = sg_rule_defs();
        self.form = Some(FormWidget::new("Add Security Group Rule", defs));
        self.view_state = ViewState::Create;
    }

    /// Whether the open form is the rule form.
    fn is_rule_form(&self) -> (r: bool)
        ensures
            r == self.rule_form_spec(),
    {
        match &self.form {
            Some(f) => str_eq(f.title.as_str(), "Add Security Group Rule"),
            None => false,
        }
    }

    /// Leave the rule form: back to the detail view of the group it was
    /// for, or to the list when none is recorded.
    fn leave_rule_form(&mut self)
        requires
            old(self).inv(),
        ensures
            final(self).inv(),
            !final(self).form_open_spec(),
            final(self).detail_sg_spec() is None,
            final(self).view_state_spec() == match old(self).detail_sg_spec() {
                Some(id) => ViewState::Detail(id),
                None => ViewState::List,
            },
            final(self).security_groups_spec() == old(self).security_groups_spec(),
            final(self).outbox_spec() == old(self).outbox_spec(),
            final(self).confirm_spec() == old(self).confirm_spec(),
            final(self).all_tenants_spec() == old(self).all_tenants_spec(),
    {
        self.form = None;
        match self.detail_sg_id.take() {
            Some(id) => {
                self.view_state = ViewState::Detail(id);
            },
            None => {
                self.view_state = ViewState::List;
            },
        }
    }

    /// What the create form made of a key: a submitted form closes and
    /// queues the creation, a cancelled one closes; either leaves form
    /// mode. Without an open form, the form view is left.
    pub fn handle_create_key(&mut self, outcome: FormAction) -> (r: Option<Action>)
        requires
            old(self).inv(),
        ensures
            final(self).inv(),
            !old(self).form_open_spec() ==> {
                &&& r is None
                &&& !final(self).form_open_spec()
                &&& final(self).view_state_spec() == ViewState::List
                &&& final(self).security_groups_spec() == old(self).security_groups_spec()
                &&& final(self).outbox_spec() == old(self).outbox_spec()
                &&& final(self).selected_spec() == old(self).selected_spec()
                &&& final(self).loading_spec() == old(self).loading_spec()
                &&& final(self).error_spec() == old(self).error_spec()
                &&& final(self).confirm_spec() == old(self).confirm_spec()
                &&& final(self).all_tenants_spec() == old(self).all_tenants_spec()
                &&& final(self).detail_sg_spec() == old(self).detail_sg_spec()
                &&& final(self).rule_selected_spec() == old(self).rule_selected_spec()
            },
            old(self).form_open_spec() ==> match outcome {
                FormAction::Submit(values) => {
                    &&& r == Some(Action::ExitFormMode)
                    &&& !final(self).form_open_spec()
                    &&& final(self).outbox_spec().len() == old(self).outbox_spec().len() + 1
                    &&& final(self).outbox_spec().drop_last() == old(self).outbox_spec()
                    &&& old(self).rule_form_spec() ==> {
                        &&& final(self).outbox_spec().last() matches Action::CreateSecurityGroupRule(p) && rule_form_params(
                            opt_or(old(self).detail_sg_spec(), Seq::empty()),
                            values@,
                            p,
                        )
                        &&& final(self).view_state_spec() == match old(self).detail_sg_spec() {
                            Some(id) => ViewState::Detail(id),
                            None => ViewState::List,
                        }
                    }
                    &&& !old(self).rule_form_spec() ==> {
                        &&& final(self).outbox_spec().last() matches Action::CreateSecurityGroup(p) && sg_form_params(values@, p)
                        &&& final(self).view_state_spec() == ViewState::List
                    }
                    &&& final(self).security_groups_spec() == old(self).security_groups_spec()
                },
                FormAction::Cancel => {
                    &&& r == Some(Action::ExitFormMode)
                    &&& !final(self).form_open_spec()
                    &&& final(self).outbox_spec() == old(self).outbox_spec()
                    &&& final(self).view_state_spec() == if old(self).rule_form_spec() {
                        match old(self).detail_sg_spec() {
                            Some(id) => ViewState::Detail(id),
                            None => ViewState::List,
                        }
                    } else {
                        ViewState::List
                    }
                },
                FormAction::Pending => {
                    &&& r is None
                    &&& *final(self) == *old(self)
                },
            },
    {
        if self.form.is_none() {
            self.close_form();
            return None;
        }
        match outcome {
            FormAction::Submit(values) => self.submit_form(&values),
            FormAction::Cancel => self.cancel_form(),
            FormAction::Pending => None,
        }
    }

    /// A submitted form. The rule form queues the new rule for the group it
    /// was opened on (the empty ID when none is recorded) and returns to
    /// that group's detail view; the group form queues the new group and
    /// returns to the list. Either way form mode ends.
    pub fn submit_form(&mut self, values: &Vec<(String, FormValue)>) -> (r: Option<Action>)
        requires
            old(self).inv(),
        ensures
            final(self).inv(),
            r == Some(Action::ExitFormMode),
            !final(self).form_open_spec(),
            final(self).outbox_spec().len() == old(self).outbox_spec().len() + 1,
            final(self).outbox_spec().drop_last() == old(self).outbox_spec(),
            old(self).rule_form_spec() ==> {
                &&& final(self).outbox_spec().last() matches Action::CreateSecurityGroupRule(p) && rule_form_params(
                    opt_or(old(self).detail_sg_spec(), Seq::empty()),
                    values@,
                    p,
                )
                &&& final(self).view_state_spec() == match old(self).detail_sg_spec() {
                    Some(id) => ViewState::Detail(id),
                    None => ViewState::List,
                }
            },
            !old(self).rule_form_spec() ==> {
                &&& final(self).outbox_spec().last() matches Action::CreateSecurityGroup(p) && sg_form_params(values@, p)
                &&& final(self).view_state_spec() == ViewState::List
            },
            final(self).security_groups_spec() == old(self).security_groups_spec(),
    {
        if self.is_rule_form() {
            let sg_id = match &self.detail_sg_id {
                Some(id) => id.clone(),
                None => String::new(),
            };
            let params = rule_params_from_form(sg_id, values);
            self.leave_rule_form();
            self.outbox.push(Action::CreateSecurityGroupRule(params));
        } else {
            let params = sg_params_from_form(values);
            self.close_form();
            self.outbox.push(Action::CreateSecurityGroup(params));
        }
        proof {
            assert(self.outbox@.drop_last() =~= old(self).outbox@);
        }
        Some(Action::ExitFormMode)
    }

    /// A cancelled form: the rule form returns to its group's detail view,
    /// the group form to the list; form mode ends.
    pub fn cancel_form(&mut self) -> (r: Option<Action>)
        requires
            old(self).inv(),
        ensures
            final(self).inv(),
            r == Some(Action::ExitFormMode),
            !final(self).form_open_spec(),
            final(self).outbox_spec() == old(self).outbox_spec(),
            final(self).view_state_spec() == if old(self).rule_form_spec() {
                match old(self).detail_sg_spec() {
                    Some(id) => ViewState::Detail(id),
                    None => ViewState::List,
                }
            } else {
                ViewState::List
            },
    {
        if self.is_rule_form() {
            self.leave_rule_form();
        } else {
            self.close_form();
        }
        Some(Action::ExitFormMode)
    }

    /// The dialog guarding a destructive action: a yes/no question (no
    /// project or cloud switch is tracked here that would call for more).
    fn destructive_confirm(&self, message: String) -> (d: ConfirmDialog)
        ensures
            is_yes_no(d, message@, Seq::empty()),
    {
        let d = ConfirmDialog::yes_no(message);
        proof {
            assert(crate::text::strs_view(d.details@) =~= Seq::<Seq<char>>::empty());
        }
        d
    }

    /// React to a key on the list: navigation moves the selection, Enter
    /// opens the selected group (at its first rule), `c` opens the create
    /// form, `d` asks whether to delete the selected group, `r` reloads,
    /// Left goes to the sidebar and Esc goes back.
    pub fn handle_list_key(&mut self, key: Key) -> (r: Option<Action>)
        requires
            old(self).inv(),
        ensures
            final(self).inv(),
            final(self).security_groups_spec() == old(self).security_groups_spec(),
            final(self).outbox_spec() == old(self).outbox_spec(),
            final(self).selected_spec() == nav_target(key, old(self).selected_spec(), old(self).table_len_spec()),
            nav_key(key) ==> r is None && final(self).view_state_spec() == old(self).view_state_spec()
                && final(self).confirm_spec() == old(self).confirm_spec(),
            !nav_key(key) && key == Key::Enter ==> r is None && final(self).confirm_spec() == old(self).confirm_spec()
                && if old(self).selected_spec() < old(self).security_groups_spec().len() {
                &&& final(self).view_state_spec() == ViewState::Detail(old(self).security_groups_spec()[old(self).selected_spec() as int].id)
                &&& final(self).rule_selected_spec() == 0
            } else {
                final(self).view_state_spec() == old(self).view_state_spec()
            },
            !nav_key(key) && key == Key::Char('c') ==> r == Some(Action::EnterFormMode) && final(self).form_open_spec()
                && final(self).view_state_spec() == ViewState::Create,
            !nav_key(key) && key == Key::Char('d') ==> r is None && final(self).view_state_spec() == old(self).view_state_spec()
                && if old(self).selected_spec() < old(self).security_groups_spec().len() {
                let g = old(self).security_groups_spec()[old(self).selected_spec() as int];
                &&& final(self).pending_spec() == Some(PendingAction::DeleteSecurityGroup { id: g.id, name: g.name })
                &&& final(self).dialog_spec() matches Some(d) && is_yes_no(
                    d,
                    "Delete security group '"@ + g.name@ + "'?"@,
                    Seq::empty(),
                )
            } else {
                final(self).confirm_spec() == old(self).confirm_spec()
            },
            !nav_key(key) && key != Key::Enter && key != Key::Char('c') && key != Key::Char('d') ==> {
                &&& final(self).view_state_spec() == old(self).view_state_spec()
                &&& final(self).confirm_spec() == old(self).confirm_spec()
                &&& r == if key == Key::Char('r') {
                    Some(Action::FetchSecurityGroups)
                } else if key == Key::Left {
                    Some(Action::FocusSidebar)
                } else if key == Key::Esc {
                    Some(Action::Back)
                } else {
                    None
                }
            },
    {
        if self.resource_list.handle_nav_key(key) {
            return None;
        }
        match key {
            Key::Enter => {
                let i = self.resource_list.selected_index();
                if i < self.security_groups.len() {
                    self.rule_selected = 0;
                    self.view_state = ViewState::Detail(self.security_groups[i].id.clone());
                }
                None
            },
            Key::Char('c') => {
                self.open_create_form();
                Some(Action::EnterFormMode)
            },
            Key::Char('d') => {
                let i = self.resource_list.selected_index();
                if i < self.security_groups.len() {
                    let id = self.security_groups[i].id.clone();
                    let name = self.security_groups[i].name.clone();
                    let dialog = self.destructive_confirm(cat3("Delete security group '", name.as_str(), "'?"));
                    self.confirm.open(dialog, PendingAction::DeleteSecurityGroup { id, name });
                }
                None
            },
            Key::Char('r') => Some(Action::FetchSecurityGroups),
            Key::Left => Some(Action::FocusSidebar),
            Key::Esc => Some(Action::Back),
            _ => None,
        }
    }

    /// React to a key on the detail view: `j`/Down and `k`/Up move through
    /// the group's rules; Esc, `q` or Left go back to the list; `a` opens
    /// the rule form for the group shown.
    pub fn handle_detail_key(&mut self, key: Key) -> (r: Option<Action>)
        requires
            old(self).inv(),
            key == Key::Char('d') ==> match old(self).selected_rule_spec() {
                Some(rule) => utf8_bytes(rule.id@) > 8 ==> byte_prefix_len(rule.id@, 8) is Some,
                None => true,
            },
        ensures
            final(self).inv(),
            final(self).security_groups_spec() == old(self).security_groups_spec(),
            final(self).outbox_spec() == old(self).outbox_spec(),
            (key == Key::Char('j') || key == Key::Down) ==> r is None && final(self).view_state_spec()
                == old(self).view_state_spec() && final(self).rule_selected_spec() == match old(self).view_state_spec() {
                ViewState::Detail(id) => match find_sg(old(self).security_groups_spec(), id@) {
                    Some(sg) => if old(self).rule_selected_spec() + 1 < sg.security_group_rules@.len() {
                        old(self).rule_selected_spec() + 1
                    } else {
                        old(self).rule_selected_spec()
                    },
                    None => old(self).rule_selected_spec(),
                },
                _ => old(self).rule_selected_spec(),
            },
            (key == Key::Char('k') || key == Key::Up) ==> r is None && final(self).view_state_spec()
                == old(self).view_state_spec() && final(self).rule_selected_spec() == if old(self).rule_selected_spec() > 0 {
                (old(self).rule_selected_spec() - 1) as nat
            } else {
                0
            },
            (key == Key::Esc || key == Key::Char('q') || key == Key::Left) ==> r is None
                && final(self).view_state_spec() == ViewState::List,
            key == Key::Char('a') ==> match old(self).view_state_spec() {
                ViewState::Detail(id) => match find_sg(old(self).security_groups_spec(), id@) {
                    Some(sg) => r == Some(Action::EnterFormMode) && final(self).form_open_spec()
                        && final(self).detail_sg_spec() == Some(sg.id)
                        && final(self).view_state_spec() == ViewState::Create,
                    None => r is None && final(self).view_state_spec() == old(self).view_state_spec(),
                },
                _ => r is None && final(self).view_state_spec() == old(self).view_state_spec(),
            },
            key == Key::Char('d') ==> r is None && final(self).view_state_spec() == old(self).view_state_spec()
                && match old(self).selected_rule_spec() {
                Some(rule) => {
                    let short = if utf8_bytes(rule.id@) > 8 { byte_prefix(rule.id@, 8) } else { rule.id@ };
                    &&& final(self).pending_spec() == Some(PendingAction::DeleteSecurityGroupRule { rule_id: rule.id })
                    &&& final(self).dialog_spec() matches Some(d) && is_yes_no(d, "Delete rule "@ + short + "...?"@, Seq::empty())
                },
                None => final(self).confirm_spec() == old(self).confirm_spec(),
            },
    {
        match key {
            Key::Char('j') | Key::Down => {
                match self.current_index() {
                    Some(j) => {
                        let count = self.security_groups[j].security_group_rules.len();
                        if count > 0 && self.rule_selected < count - 1 {
                            self.rule_selected = self.rule_selected + 1;
                        }
                    },
                    None => {},
                }
                None
            },
            Key::Char('k') | Key::Up => {
                if self.rule_selected > 0 {
                    self.rule_selected = self.rule_selected - 1;
                }
                None
            },
            Key::Esc | Key::Char('q') | Key::Left => {
                self.view_state = ViewState::List;
                None
            },
            Key::Char('a') => {
                match self.current_index() {
                    Some(j) => {
                        let sg_id = self.security_groups[j].id.clone();
                        self.open_rule_form(sg_id);
                        Some(Action::EnterFormMode)
                    },
                    None => None,
                }
            },
            Key::Char('d') => {
                match self.current_index() {
                    Some(j) => {
                        if self.rule_selected < self.security_groups[j].security_group_rules.len() {
                            let rule_id = self.security_groups[j].security_group_rules[self.rule_selected].id.clone();
                            let short = if bytes_exceed(rule_id.as_str(), 8) {
                                byte_prefix_exec(rule_id.as_str(), 8)
                            } else {
                                rule_id.clone()
                            };
                            let dialog = self.destructive_confirm(cat3("Delete rule ", short.as_str(), "...?"));
                            self.confirm.open(dialog, PendingAction::DeleteSecurityGroupRule { rule_id });
                        }
                    },
                    None => {},
                }
                None
            },
            _ => None,
        }
    }

    /// After a switch of project or cloud: drop everything held, close any
    /// confirmation and form, mark a load outstanding, and go back to the
    /// list.
    pub fn on_context_changed(&mut self)
        requires
            old(self).inv(),
        ensures
            final(self).inv(),
            final(self).security_groups_spec() == Seq::<SecurityGroup>::empty(),
            final(self).detail_sg_spec() is None,
            final(self).loading_spec(),
            final(self).error_spec() is None,
            final(self).table_len_spec() == 0,
            final(self).view_state_spec() == ViewState::List,
            !final(self).confirm_spec(),
            !final(self).form_open_spec(),
            final(self).outbox_spec() == old(self).outbox_spec(),
            final(self).all_tenants_spec() == old(self).all_tenants_spec(),
    {
        self.security_groups.clear();
        self.detail_sg_id = None;
        self.loading = true;
        self.error_message = None;
        self.resource_list.set_rows(Vec::new());
        self.view_state = ViewState::List;
        self.confirm = ConfirmHandler::new();
        self.form = None;
    }
}

} // verus!
