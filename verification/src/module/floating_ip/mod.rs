pub mod view_model;

use vstd::prelude::*;
use crate::action::Action;
use crate::event::AppEvent;
use crate::models::neutron::{FloatingIp, Network, Port};
use crate::module::server::{find_server, server_by_id};
use crate::module::server::items::{build_port_items, port_items, port_pos, port_pos_exec};
use crate::ui::confirm::{is_typed, is_yes_no, ConfirmDialog};
use crate::ui::select_popup::{items_view, HintView, ItemHint, ItemView, SelectItem, SelectPopup, SelectResult};
use crate::ui::resource_list::{nav_key, nav_target};
use crate::models::nova::{servers_eqv, Server};
use crate::module::project::options_view;
use crate::module::{copy_list, copy_list_by, error_text, format_error, confirm_answer, ConfirmHandler, PendingAction, ViewState};
use crate::text::{cat, cat3, cat4, opt_or, opt_str_or, str_eq, strs_view};
use crate::ui::form::{
    apply_options, as_selected, dropdown_opts, dropdown_spec, field_specs, form_lookup, form_options_step, option_values, selected_field, set_open_form_options, FormAction,
    FormValue, FormWidget, SelectOption,
};
use crate::ui::key::Key;
use crate::ui::resource_list::{kept_selection, rows_view, ResourceList, Row, RowView};
use self::view_model::{fip_create_defs, fip_row_spec, fip_to_row};

verus! {

/// Two network lists hold equal networks, position by position.
pub open spec fn nets_eqv(a: Seq<Network>, b: Seq<Network>) -> bool {
    a.len() == b.len() && forall|i: int| 0 <= i < a.len() ==> (#[trigger] a[i]).eqv(&b[i])
}

/// The external networks among `nets`, in order, as (ID, name) choices.
pub open spec fn external_choices(nets: Seq<Network>) -> Seq<(Seq<char>, Seq<char>)>
    decreases nets.len(),
{
    if nets.len() == 0 {
        Seq::empty()
    } else if nets.last().external {
        external_choices(nets.drop_last()).push((nets.last().id@, nets.last().name@))
    } else {
        external_choices(nets.drop_last())
    }
}

/// The external networks as allocate-form choices.
fn external_options(nets: &Vec<Network>) -> (r: Vec<SelectOption>)
    ensures
        options_view(r@) == external_choices(nets@),
{
    let mut r: Vec<SelectOption> = Vec::new();
    let mut i: usize = 0;
    while i < nets.len()
        invariant
            i <= nets@.len(),
            options_view(r@) == external_choices(nets@.subrange(0, i as int)),
        decreases nets@.len() - i,
    {
        let ghost before = r@;
        proof {
            let t = nets@.subrange(0, i + 1);
            assert(t.drop_last() =~= nets@.subrange(0, i as int));
            assert(t.last() == nets@[i as int]);
        }
        if nets[i].external {
            r.push(SelectOption::new(nets[i].id.as_str(), nets[i].name.as_str()));
            proof {
                assert(options_view(r@) =~= options_view(before).push((nets@[i as int].id@, nets@[i as int].name@)));
            }
        }
        i = i + 1;
    }
    proof {
        assert(nets@.subrange(0, nets@.len() as int) =~= nets@);
    }
    r
}

/// The first floating IP with the given ID, by position.
pub open spec fn fip_position(fips: Seq<FloatingIp>, id: Seq<char>) -> Option<int>
    decreases fips.len(),
{
    if fips.len() == 0 {
        None
    } else if fips[0].id@ == id {
        Some(0)
    } else {
        match fip_position(fips.drop_first(), id) {
            Some(k) => Some(k + 1),
            None => None,
        }
    }
}

/// Position of the first floating IP with the given ID.
fn fip_position_exec(fips: &Vec<FloatingIp>, id: &str) -> (r: Option<usize>)
    ensures
        match r {
            Some(j) => fip_position(fips@, id@) == Some(j as int) && j < fips@.len(),
            None => fip_position(fips@, id@) is None,
        },
{
    let n = fips.len();
    let mut j: usize = 0;
    proof {
        assert(fips@.skip(0) =~= fips@);
    }
    while j < n
        invariant
            n == fips@.len(),
            j <= n,
            fip_position(fips@, id@) == match fip_position(fips@.skip(j as int), id@) {
                Some(k) => Some(k + j),
                None => None,
            },
        decreases n - j,
    {
        let ghost rest = fips@.skip(j as int);
        proof {
            assert(rest[0] == fips@[j as int]);
            assert(rest.drop_first() =~= fips@.skip(j + 1));
        }
        if str_eq(fips[j].id.as_str(), id) {
            return Some(j);
        }
        j = j + 1;
    }
    None
}

/// A floating IP changed to the given port, fixed address and status,
/// the rest kept.
pub open spec fn relinked(old_fip: FloatingIp, new_fip: FloatingIp, port_id: Option<String>, fixed: Option<String>, status: Seq<char>) -> bool {
    &&& new_fip.id == old_fip.id
    &&& new_fip.floating_ip_address == old_fip.floating_ip_address
    &&& new_fip.floating_network_id == old_fip.floating_network_id
    &&& new_fip.router_id == old_fip.router_id
    &&& new_fip.tenant_id == old_fip.tenant_id
    &&& new_fip.port_id == port_id
    &&& new_fip.fixed_ip_address == fixed
    &&& new_fip.status@ == status
}

/// The detail lines of an associate confirmation: address, server, port.
pub open spec fn associate_lines_spec(fip: FloatingIp, server_name: Seq<char>, port_label: Seq<char>) -> Seq<Seq<char>> {
    seq![
        "  Floating IP: "@ + fip.floating_ip_address@,
        "  Server: "@ + server_name,
        "  Port: "@ + port_label,
    ]
}

/// The detail lines of a disassociate confirmation: address, fixed
/// address and port (`-` when unknown).
pub open spec fn disassociate_lines_spec(fip: FloatingIp) -> Seq<Seq<char>> {
    seq![
        "  Floating IP: "@ + fip.floating_ip_address@,
        "  Fixed IP: "@ + opt_or(fip.fixed_ip_address, "-"@),
        "  Port: "@ + opt_or(fip.port_id, "-"@),
    ]
}

/// The rows of a list of floating IPs.
pub open spec fn fip_rows_spec(items: Seq<FloatingIp>) -> Seq<RowView> {
    items.map_values(|x: FloatingIp| fip_row_spec(x))
}

/// The table rows of a list of floating IPs.
fn fip_rows(items: &Vec<FloatingIp>) -> (r: Vec<Row>)
    ensures
        rows_view(r@) == fip_rows_spec(items@),
{
    let mut rows: Vec<Row> = Vec::new();
    let mut i: usize = 0;
    while i < items.len()
        invariant
            i <= items@.len(),
            rows_view(rows@) == fip_rows_spec(items@.subrange(0, i as int)),
        decreases items@.len() - i,
    {
        let row = fip_to_row(&items[i]);
        let ghost before = rows@;
        rows.push(row);
        proof {
            assert(rows_view(rows@) =~= rows_view(before).push(row@));
            assert(fip_rows_spec(items@.subrange(0, i + 1)) =~= fip_rows_spec(items@.subrange(0, i as int)).push(fip_row_spec(items@[i as int])));
        }
        i = i + 1;
    }
    proof {
        assert(items@.subrange(0, items@.len() as int) =~= items@);
    }
    rows
}

/// The first floating IP with the given ID.
pub open spec fn find_fip(items: Seq<FloatingIp>, id: Seq<char>) -> Option<FloatingIp>
    decreases items.len(),
{
    if items.len() == 0 {
        None
    } else if items[0].id@ == id {
        Some(items[0])
    } else {
        find_fip(items.drop_first(), id)
    }
}

/// The popup items for choosing a server to associate with: one per
/// server that is active, paused or shut off, showing its name and status,
/// a shut-off server warned about.
pub open spec fn server_items(servers: Seq<Server>) -> Seq<ItemView>
    decreases servers.len(),
{
    if servers.len() == 0 {
        Seq::empty()
    } else {
        let prev = server_items(servers.drop_last());
        let s = servers.last();
        let st = s.status@;
        if st == "ACTIVE"@ || st == "PAUSED"@ || st == "SHUTOFF"@ {
            prev.push(
                ItemView {
                    id: s.id@,
                    label: s.name@ + " ("@ + st + ")"@,
                    hint: if st == "SHUTOFF"@ {
                        HintView::Warning("SHUTOFF"@)
                    } else {
                        HintView::Normal
                    },
                },
            )
        } else {
            prev
        }
    }
}

/// The items for choosing a server among `servers`.
pub fn build_server_items(servers: &Vec<Server>) -> (r: Vec<SelectItem>)
    ensures
        items_view(r@) == server_items(servers@),
{
    let mut out: Vec<SelectItem> = Vec::new();
    let mut i: usize = 0;
    while i < servers.len()
        invariant
            i <= servers@.len(),
            items_view(out@) == server_items(servers@.take(i as int)),
        decreases servers@.len() - i,
    {
        proof {
            assert(servers@.take(i + 1).drop_last() =~= servers@.take(i as int));
        }
        let s = &servers[i];
        let st = s.status.as_str();
        let shutoff = str_eq(st, "SHUTOFF");
        if str_eq(st, "ACTIVE") || str_eq(st, "PAUSED") || shutoff {
            let hint = if shutoff {
                ItemHint::Warning(String::from_str("SHUTOFF"))
            } else {
                ItemHint::Normal
            };
            let item = SelectItem { id: s.id.clone(), label: cat4(s.name.as_str(), " (", st, ")"), hint };
            let ghost before = out@;
            out.push(item);
            proof {
                assert(items_view(out@) =~= items_view(before).push(item.view()));
            }
        }
        i = i + 1;
    }
    proof {
        assert(servers@.take(servers@.len() as int) =~= servers@);
    }
    out
}

/// The name of the server a port belongs to, or `unknown`.
pub open spec fn port_server_name(servers: Seq<Server>, port: Port) -> Seq<char> {
    match port.device_id {
        Some(d) => match server_by_id(servers, d@) {
            Some(s) => s.name@,
            None => "unknown"@,
        },
        None => "unknown"@,
    }
}

/// `d` asks to associate `f` with the port `port` labelled `label`.
pub open spec fn is_association(d: ConfirmDialog, servers: Seq<Server>, f: FloatingIp, port: Port, label: Seq<char>) -> bool {
    is_yes_no(
        d,
        "Associate "@ + f.floating_ip_address@ + " to port "@ + label + "?"@,
        associate_lines_spec(f, port_server_name(servers, port), label),
    )
}

/// What choosing server `sid` does to `a`, giving `b`: when a floating
/// IP is selected, it waits for a port of that server, whose ports are
/// asked for; otherwise nothing happens.
pub open spec fn server_chosen(a: FloatingIpModule, sid: Seq<char>, b: FloatingIpModule) -> bool {
    if a.selected_spec() < a.floating_ips_spec().len() {
        &&& b.pending_fip_spec() == Some(a.floating_ips_spec()[a.selected_spec() as int].id@)
        &&& b.pending_ports_server_spec() == Some(sid)
        &&& b.loading_ports_spec()
        &&& b.outbox_spec().len() == a.outbox_spec().len() + 1
        &&& b.outbox_spec().drop_last() == a.outbox_spec()
        &&& b.outbox_spec().last() matches Action::FetchPorts { server_id } && server_id@ == sid
    } else {
        &&& b.pending_fip_spec() == a.pending_fip_spec()
        &&& b.pending_ports_server_spec() == a.pending_ports_server_spec()
        &&& b.loading_ports_spec() == a.loading_ports_spec()
        &&& b.outbox_spec() == a.outbox_spec()
    }
}

/// What choosing port `pid` does to `a`, giving `b`: the waiting floating
/// IP is taken, and when both it and the port are known, association is
/// asked for.
pub open spec fn port_chosen(a: FloatingIpModule, pid: Seq<char>, b: FloatingIpModule) -> bool {
    &&& b.pending_fip_spec() is None
    &&& match a.pending_fip_spec() {
        Some(fid) => match (port_pos(pid, a.ports_spec()), fip_position(a.floating_ips_spec(), fid)) {
            (Some(p), Some(k)) => {
                &&& b.dialog_spec() matches Some(d) && is_association(
                    d,
                    a.servers_spec(),
                    a.floating_ips_spec()[k],
                    a.ports_spec()[p],
                    a.port_labels_spec()[p]@,
                )
                &&& b.pending_spec() matches Some(PendingAction::AssociateFloatingIp { fip_id, port_id })
                    && fip_id == a.floating_ips_spec()[k].id && port_id@ == pid
            },
            _ => b.dialog_spec() == a.dialog_spec() && b.pending_spec() == a.pending_spec(),
        },
        None => b.dialog_spec() == a.dialog_spec() && b.pending_spec() == a.pending_spec(),
    }
}

/// What arriving `ports` (labelled `labels`) of the asked-for server do to
/// `a`, giving `b`.
pub open spec fn ports_step(a: FloatingIpModule, ports: Seq<Port>, labels: Seq<String>, b: FloatingIpModule) -> bool {
    &&& b.ports_spec() == ports
    &&& b.port_labels_spec() == labels
    &&& !b.loading_ports_spec()
    &&& match a.pending_fip_spec() {
        None => {
            &&& b.pending_fip_spec() is None
            &&& b.outbox_spec() == a.outbox_spec()
            &&& b.dialog_spec() == a.dialog_spec()
            &&& b.pending_spec() == a.pending_spec()
            &&& b.popup_spec() == a.popup_spec()
        },
        Some(fid) => if ports.len() == 0 {
            &&& b.pending_fip_spec() is None
            &&& b.outbox_spec().len() == a.outbox_spec().len() + 1
            &&& b.outbox_spec().drop_last() == a.outbox_spec()
            &&& b.outbox_spec().last() matches Action::ShowToast { message } && message@ == "No ports found for this server"@
            &&& b.dialog_spec() == a.dialog_spec()
            &&& b.pending_spec() == a.pending_spec()
            &&& b.popup_spec() == a.popup_spec()
        } else if ports.len() == 1 {
            &&& b.pending_fip_spec() is None
            &&& b.outbox_spec() == a.outbox_spec()
            &&& b.popup_spec() == a.popup_spec()
            &&& match fip_position(a.floating_ips_spec(), fid) {
                Some(k) => {
                    &&& b.dialog_spec() matches Some(d) && is_association(
                        d,
                        a.servers_spec(),
                        a.floating_ips_spec()[k],
                        ports[0],
                        labels[0]@,
                    )
                    &&& b.pending_spec() matches Some(PendingAction::AssociateFloatingIp { fip_id, port_id })
                        && fip_id@ == fid && port_id == ports[0].id
                },
                None => b.dialog_spec() == a.dialog_spec() && b.pending_spec() == a.pending_spec(),
            }
        } else {
            &&& b.pending_fip_spec() == a.pending_fip_spec()
            &&& b.outbox_spec() == a.outbox_spec()
            &&& b.dialog_spec() == a.dialog_spec()
            &&& b.pending_spec() == a.pending_spec()
            &&& b.popup_spec() matches Some(p) && p.title@ == "Select Port"@ && items_view(p.items@)
                == port_items(ports, labels)
        },
    }
}

/// What a list key does to `a` while no popup is open, giving `b` and
/// the returned `r`.
pub open spec fn list_key_step(key: Key, a: FloatingIpModule, b: FloatingIpModule, r: Option<Action>) -> bool {
    let sel = a.selected_spec();
    let fips = a.floating_ips_spec();
    let unchanged = b.dialog_spec() == a.dialog_spec() && b.pending_spec() == a.pending_spec() && b.popup_spec()
        == a.popup_spec() && b.outbox_spec() == a.outbox_spec() && b.view_state_spec() == a.view_state_spec()
        && b.form_spec() == a.form_spec() && b.hints_spec() == a.hints_spec();
    &&& b.floating_ips_spec() == a.floating_ips_spec()
    &&& b.servers_spec() == a.servers_spec()
    &&& b.pending_fip_spec() == a.pending_fip_spec()
    &&& b.selected_spec() == nav_target(key, sel, a.table_len_spec())
    &&& if nav_key(key) {
        r is None && unchanged
    } else if key == Key::Char('c') {
        &&& r == Some(Action::EnterFormMode)
        &&& b.form_spec() is Some
        &&& b.view_state_spec() == ViewState::Create
        &&& b.outbox_spec() == a.outbox_spec().push(Action::FetchNetworks)
        &&& b.dialog_spec() == a.dialog_spec()
        &&& b.popup_spec() == a.popup_spec()
    } else if key == Key::Char('D') {
        &&& r is None
        &&& b.popup_spec() == a.popup_spec()
        &&& b.outbox_spec() == a.outbox_spec()
        &&& b.view_state_spec() == a.view_state_spec()
        &&& b.hints_spec() == a.hints_spec()
        &&& if sel < fips.len() {
            &&& b.dialog_spec() matches Some(d) && is_yes_no(
                d,
                "Delete floating IP '"@ + fips[sel as int].floating_ip_address@ + "'?"@,
                Seq::empty(),
            )
            &&& b.pending_spec() == Some(
                PendingAction::DeleteFloatingIp { id: fips[sel as int].id, ip: fips[sel as int].floating_ip_address },
            )
        } else {
            b.dialog_spec() == a.dialog_spec() && b.pending_spec() == a.pending_spec()
        }
    } else if key == Key::Char('d') {
        &&& b.dialog_spec() == a.dialog_spec()
        &&& b.pending_spec() == a.pending_spec()
        &&& b.popup_spec() == a.popup_spec()
        &&& b.outbox_spec() == a.outbox_spec()
        &&& b.view_state_spec() == a.view_state_spec()
        &&& if a.hints_spec().contains('d') {
            r is None && b.hints_spec() == a.hints_spec()
        } else {
            &&& r matches Some(Action::ShowToast { message }) && message@
                == "Delete is now Shift+D. Press 'x' to disassociate."@
            &&& b.hints_spec() == a.hints_spec().push('d')
        }
    } else if key == Key::Char('a') {
        &&& r is None
        &&& b.dialog_spec() == a.dialog_spec()
        &&& b.pending_spec() == a.pending_spec()
        &&& b.outbox_spec() == a.outbox_spec()
        &&& b.view_state_spec() == a.view_state_spec()
        &&& b.hints_spec() == a.hints_spec()
        &&& if sel < fips.len() && fips[sel as int].port_id is None && server_items(a.servers_spec()).len() > 0 {
            b.popup_spec() matches Some(p) && p.title@ == "Select Server"@ && items_view(p.items@) == server_items(
                a.servers_spec(),
            )
        } else {
            b.popup_spec() == a.popup_spec()
        }
    } else if key == Key::Char('x') {
        &&& r is None
        &&& b.popup_spec() == a.popup_spec()
        &&& b.outbox_spec() == a.outbox_spec()
        &&& b.view_state_spec() == a.view_state_spec()
        &&& b.hints_spec() == a.hints_spec()
        &&& if sel < fips.len() && fips[sel as int].port_id is Some {
            let f = fips[sel as int];
            &&& b.dialog_spec() matches Some(d) && is_typed(
                d,
                "Disassociate "@ + f.floating_ip_address@ + "? External access will be lost immediately."@,
                f.floating_ip_address@,
                disassociate_lines_spec(f),
            )
            &&& b.pending_spec() == Some(PendingAction::DisassociateFloatingIp { fip_id: f.id })
        } else {
            b.dialog_spec() == a.dialog_spec() && b.pending_spec() == a.pending_spec()
        }
    } else {
        &&& unchanged
        &&& r == if key == Key::Char('r') {
            Some(Action::FetchFloatingIps)
        } else if key == Key::Left {
            Some(Action::FocusSidebar)
        } else if key == Key::Esc {
            Some(Action::Back)
        } else {
            None
        }
    }
}

/// Whether `c` is among `chars`.
pub(crate) fn char_in(chars: &Vec<char>, c: char) -> (r: bool)
    ensures
        r == chars@.contains(c),
{
    let mut i: usize = 0;
    while i < chars.len()
        invariant
            i <= chars@.len(),
            forall|j: int| 0 <= j < i ==> chars@[j] != c,
        decreases chars@.len() - i,
    {
        if chars[i] == c {
            return true;
        }
        i = i + 1;
    }
    false
}

/// The floating IP screen: the addresses, their table, the servers, ports
/// and networks used when allocating and associating, the allocate form,
/// the confirmations, and the requests waiting to be sent.
pub struct FloatingIpModule {
    view_state: ViewState,
    floating_ips: Vec<FloatingIp>,
    cached_ext_network_opts: Vec<SelectOption>,
    cached_servers: Vec<Server>,
    cached_ports: Vec<Port>,
    cached_port_labels: Vec<String>,
    cached_networks: Vec<Network>,
    select_popup: Option<SelectPopup>,
    keymap_hints_shown: Vec<char>,
    pending_fip_id: Option<String>,
    pending_ports_server_id: Option<String>,
    loading_ports: bool,
    loading: bool,
    error_message: Option<String>,
    is_admin: bool,
    confirm: ConfirmHandler,
    resource_list: ResourceList,
    form: Option<FormWidget>,
    all_tenants: bool,
    outbox: Vec<Action>,
}

impl FloatingIpModule {
    /// The view shown.
    pub closed spec fn view_state_spec(&self) -> ViewState {
        self.view_state
    }

    /// The floating IPs held.
    pub closed spec fn floating_ips_spec(&self) -> Seq<FloatingIp> {
        self.floating_ips@
    }

    /// Whether a load is outstanding.
    pub closed spec fn loading_spec(&self) -> bool {
        self.loading
    }

    /// The last error shown.
    pub closed spec fn error_spec(&self) -> Option<Seq<char>> {
        match self.error_message {
            Some(e) => Some(e@),
            None => None,
        }
    }

    /// Whether the user has the admin role.
    pub closed spec fn admin_spec(&self) -> bool {
        self.is_admin
    }

    /// Whether the form is open.
    pub closed spec fn form_open_spec(&self) -> bool {
        self.form is Some
    }

    /// Whether a confirmation dialog is open.
    pub closed spec fn confirm_spec(&self) -> bool {
        self.confirm.dialog is Some
    }

    /// The action the open confirmation guards.
    pub closed spec fn pending_spec(&self) -> Option<PendingAction> {
        self.confirm.pending
    }

    /// Whether the resources of all projects are shown.
    pub closed spec fn all_tenants_spec(&self) -> bool {
        self.all_tenants
    }

    /// The requests waiting to be sent, oldest first.
    pub closed spec fn outbox_spec(&self) -> Seq<Action> {
        self.outbox@
    }

    /// The selected row.
    pub closed spec fn selected_spec(&self) -> nat {
        self.resource_list.selected_spec()
    }

    /// The number of rows in the table.
    pub closed spec fn table_len_spec(&self) -> nat {
        self.resource_list.len_spec()
    }

    /// The open popup, if any.
    pub fn select_popup(&self) -> (r: Option<&SelectPopup>)
        ensures
            match self.popup_spec() {
                Some(p) => r == Some(&p),
                None => r is None,
            },
    {
        match &self.select_popup {
            Some(p) => Some(p),
            None => None,
        }
    }

    /// The floating IP waiting for a port, if any.
    pub fn pending_fip_id(&self) -> (r: Option<&str>)
        ensures
            match r {
                Some(f) => self.pending_fip_spec() == Some(f@),
                None => self.pending_fip_spec() is None,
            },
    {
        match &self.pending_fip_id {
            Some(f) => Some(f.as_str()),
            None => None,
        }
    }

    /// Whether the ports of a chosen server are being loaded.
    pub fn is_loading_ports(&self) -> (r: bool)
        ensures
            r == self.loading_ports_spec(),
    {
        self.loading_ports
    }

    /// The servers offered when associating.
    pub closed spec fn servers_spec(&self) -> Seq<Server> {
        self.cached_servers@
    }

    /// The networks last loaded.
    pub closed spec fn networks_spec(&self) -> Seq<Network> {
        self.cached_networks@
    }

    /// The external networks offered by the allocate form, as (ID, name).
    pub closed spec fn ext_opts_spec(&self) -> Seq<(Seq<char>, Seq<char>)> {
        options_view(self.cached_ext_network_opts@)
    }

    /// Whether ports are being fetched.
    pub closed spec fn loading_ports_spec(&self) -> bool {
        self.loading_ports
    }

    /// The open popup, if any.
    pub closed spec fn popup_spec(&self) -> Option<SelectPopup> {
        self.select_popup
    }

    /// The floating IP waiting for a port.
    pub closed spec fn pending_fip_spec(&self) -> Option<Seq<char>> {
        match self.pending_fip_id {
            Some(f) => Some(f@),
            None => None,
        }
    }

    /// The server whose ports were asked for.
    pub closed spec fn pending_ports_server_spec(&self) -> Option<Seq<char>> {
        match self.pending_ports_server_id {
            Some(s) => Some(s@),
            None => None,
        }
    }

    /// The ports of the server chosen for association.
    pub closed spec fn ports_spec(&self) -> Seq<Port> {
        self.cached_ports@
    }

    /// The labels shown for those ports.
    pub closed spec fn port_labels_spec(&self) -> Seq<String> {
        self.cached_port_labels@
    }

    /// The keys whose changed meaning was already pointed out.
    pub closed spec fn hints_spec(&self) -> Seq<char> {
        self.keymap_hints_shown@
    }

    /// The open form, if any.
    pub closed spec fn form_spec(&self) -> Option<FormWidget> {
        self.form
    }

    /// The external networks offered by the allocate form.
    pub closed spec fn ext_option_list_spec(&self) -> Seq<SelectOption> {
        self.cached_ext_network_opts@
    }

    /// The confirmation dialog, if any.
    pub closed spec fn dialog_spec(&self) -> Option<ConfirmDialog> {
        self.confirm.dialog
    }

    /// The table is empty (after a switch of the project column, until the
    /// next load) or has one row per floating IP; rows are rebuilt on load,
    /// so a local status update shows after the next one. The port labels go
    /// with the ports.
    pub closed spec fn inv(&self) -> bool {
        &&& self.resource_list.inv()
        &&& (self.resource_list.len_spec() == 0 || self.resource_list.len_spec() == self.floating_ips@.len())
        &&& self.cached_port_labels@.len() == self.cached_ports@.len()
    }

    /// `other` holds the same floating IPs, caches, table, flags and form as
    /// `self`.
    pub open spec fn same_data(&self, other: &Self) -> bool {
        &&& other.view_state_spec() == self.view_state_spec()
        &&& other.floating_ips_spec() == self.floating_ips_spec()
        &&& other.loading_spec() == self.loading_spec()
        &&& other.error_spec() == self.error_spec()
        &&& other.admin_spec() == self.admin_spec()
        &&& other.form_spec() == self.form_spec()
        &&& other.all_tenants_spec() == self.all_tenants_spec()
        &&& other.selected_spec() == self.selected_spec()
        &&& other.table_len_spec() == self.table_len_spec()
        &&& other.servers_spec() == self.servers_spec()
        &&& other.networks_spec() == self.networks_spec()
        &&& other.ext_opts_spec() == self.ext_opts_spec()
        &&& other.hints_spec() == self.hints_spec()
    }

    /// An empty screen showing its list, for a user without the admin role.
    pub fn new() -> (r: Self)
        ensures
            r.inv(),
            r.view_state_spec() == ViewState::List,
            r.floating_ips_spec() == Seq::<FloatingIp>::empty(),
            !r.loading_spec(),
            r.error_spec() is None,
            !r.admin_spec(),
            !r.form_open_spec(),
            !r.confirm_spec(),
            !r.all_tenants_spec(),
            r.servers_spec() == Seq::<Server>::empty(),
            r.networks_spec() == Seq::<Network>::empty(),
            r.ext_opts_spec() == Seq::<(Seq<char>, Seq<char>)>::empty(),
            !r.loading_ports_spec(),
            r.outbox_spec() == Seq::<Action>::empty(),
            r.selected_spec() == 0,
            r.pending_spec() is None,
            r.table_len_spec() == 0,
    {
        FloatingIpModule {
            view_state: ViewState::List,
            floating_ips: Vec::new(),
            cached_ext_network_opts: Vec::new(),
            cached_servers: Vec::new(),
            cached_ports: Vec::new(),
            cached_port_labels: Vec::new(),
            cached_networks: Vec::new(),
            select_popup: None,
            keymap_hints_shown: Vec::new(),
            pending_fip_id: None,
            pending_ports_server_id: None,
            loading_ports: false,
            loading: false,
            error_message: None,
            is_admin: false,
            confirm: ConfirmHandler::new(),
            resource_list: ResourceList::new(),
            form: None,
            all_tenants: false,
            outbox: Vec::new(),
        }
    }

    /// The view shown.
    pub fn view_state(&self) -> (r: &ViewState)
        ensures
            *r == self.view_state_spec(),
    {
        &self.view_state
    }

    /// The floating IPs.
    pub fn floating_ips(&self) -> (r: &[FloatingIp])
        ensures
            r@ == self.floating_ips_spec(),
    {
        self.floating_ips.as_slice()
    }

    /// Index of the selected floating IP.
    pub fn selected_index(&self) -> (r: usize)
        ensures
            r == self.selected_spec(),
    {
        self.resource_list.selected_index()
    }

    /// The last error shown.
    pub fn error_message(&self) -> (r: Option<&str>)
        ensures
            match r {
                Some(s) => self.error_spec() == Some(s@),
                None => self.error_spec() is None,
            },
    {
        match &self.error_message {
            Some(e) => Some(e.as_str()),
            None => None,
        }
    }

    /// Whether a load is outstanding.
    pub fn is_loading(&self) -> (r: bool)
        ensures
            r == self.loading_spec(),
    {
        self.loading
    }

    /// Whether the user has the admin role.
    pub fn is_admin(&self) -> (r: bool)
        ensures
            r == self.admin_spec(),
    {
        self.is_admin
    }

    /// Give or take the admin role.
    pub fn set_admin(&mut self, is_admin: bool)
        requires
            old(self).inv(),
        ensures
            final(self).inv(),
            final(self).admin_spec() == is_admin,
            final(self).floating_ips_spec() == old(self).floating_ips_spec(),
            final(self).view_state_spec() == old(self).view_state_spec(),
            final(self).outbox_spec() == old(self).outbox_spec(),
    {
        self.is_admin = is_admin;
    }

    /// Whether the form is open.
    pub fn form_is_open(&self) -> (r: bool)
        ensures
            r == self.form_open_spec(),
    {
        self.form.is_some()
    }

    /// Whether a confirmation dialog is open.
    pub fn confirm_is_active(&self) -> (r: bool)
        ensures
            r == self.confirm_spec(),
    {
        self.confirm.is_active()
    }

    /// Hand over the requests waiting to be sent, oldest first.
    pub fn take_actions(&mut self) -> (r: Vec<Action>)
        requires
            old(self).inv(),
        ensures
            final(self).inv(),
            r@ == old(self).outbox_spec(),
            final(self).outbox_spec() == Seq::<Action>::empty(),
            final(self).floating_ips_spec() == old(self).floating_ips_spec(),
            final(self).view_state_spec() == old(self).view_state_spec(),
            final(self).selected_spec() == old(self).selected_spec(),
    {
        let mut out: Vec<Action> = Vec::new();
        std::mem::swap(&mut out, &mut self.outbox);
        out
    }

    /// The request that reloads this screen.
    pub fn refresh_action(&self) -> (r: Option<Action>)
        ensures
            r == Some(Action::FetchFloatingIps),
    {
        Some(Action::FetchFloatingIps)
    }

    /// Whether a dialog or form takes every key.
    pub fn is_modal(&self) -> (r: bool)
        ensures
            r == (self.confirm_spec() || self.form_open_spec() || self.popup_spec() is Some),
    {
        self.confirm.is_active() || self.form.is_some() || self.select_popup.is_some()
    }

    /// Show or hide the project column; the table starts over empty.
    pub fn set_all_tenants(&mut self, v: bool)
        requires
            old(self).inv(),
        ensures
            final(self).inv(),
            final(self).all_tenants_spec() == v,
            final(self).table_len_spec() == 0,
            final(self).selected_spec() == 0,
            final(self).floating_ips_spec() == old(self).floating_ips_spec(),
            final(self).view_state_spec() == old(self).view_state_spec(),
            final(self).outbox_spec() == old(self).outbox_spec(),
    {
        self.all_tenants = v;
        self.resource_list = ResourceList::new();
    }

    /// The key help shown in the status bar.
    pub fn help_hint(&self) -> (r: &'static str)
        ensures
            r@ == match self.view_state_spec() {
                ViewState::List => "c:Create a:Associate x:Disassociate D:Delete r:Refresh"@,
                ViewState::Detail(_) => ""@,
                ViewState::Create => "Esc:Cancel Tab:Next Enter:Submit"@,
            },
    {
        match &self.view_state {
            ViewState::List => "c:Create a:Associate x:Disassociate D:Delete r:Refresh",
            ViewState::Detail(_) => "",
            ViewState::Create => "Esc:Cancel Tab:Next Enter:Submit",
        }
    }

    /// The title over the content: none on the list, the floating IP's address
    /// (`...` when unknown) on its detail, `Create Floating IP` on the form.
    pub fn content_title(&self) -> (r: Option<String>)
        ensures
            match self.view_state_spec() {
                ViewState::List => r is None,
                ViewState::Detail(id) => r is Some && r->0@ == "Floating IP: "@ + match find_fip(self.floating_ips_spec(), id@) {
                    Some(x) => x.floating_ip_address@,
                    None => "..."@,
                },
                ViewState::Create => r is Some && r->0@ == "Create Floating IP"@,
            },
    {
        match &self.view_state {
            ViewState::List => None,
            ViewState::Detail(id) => {
                let n = self.floating_ips.len();
                let mut j: usize = 0;
                proof {
                    assert(self.floating_ips@.skip(0) =~= self.floating_ips@);
                }
                while j < n
                    invariant
                        n == self.floating_ips@.len(),
                        j <= n,
                        self.view_state_spec() == ViewState::Detail(*id),
                        find_fip(self.floating_ips@, id@) == find_fip(self.floating_ips@.skip(j as int), id@),
                    decreases n - j,
                {
                    let ghost rest = self.floating_ips@.skip(j as int);
                    proof {
                        assert(rest[0] == self.floating_ips@[j as int]);
                        assert(rest.drop_first() =~= self.floating_ips@.skip(j + 1));
                    }
                    if str_eq(self.floating_ips[j].id.as_str(), id.as_str()) {
                        return Some(cat("Floating IP: ", self.floating_ips[j].floating_ip_address.as_str()));
                    }
                    j = j + 1;
                }
                Some(cat("Floating IP: ", "..."))
            },
            ViewState::Create => Some(String::from_str("Create Floating IP")),
        }
    }

    /// What a confirmed dialog asks for.
    pub fn resolve_action(pending: PendingAction) -> (r: Option<Action>)
        ensures
            r == match pending {
                PendingAction::DeleteFloatingIp { id, .. } => Some(Action::DeleteFloatingIp { id }),
                PendingAction::AssociateFloatingIp { fip_id, port_id } => Some(Action::AssociateFloatingIp { fip_id, port_id }),
                PendingAction::DisassociateFloatingIp { fip_id } => Some(Action::DisassociateFloatingIp { fip_id }),
                _ => None,
            },
    {
        match pending {
            PendingAction::DeleteFloatingIp { id, .. } => Some(Action::DeleteFloatingIp { id }),
            PendingAction::AssociateFloatingIp { fip_id, port_id } => Some(Action::AssociateFloatingIp { fip_id, port_id }),
            PendingAction::DisassociateFloatingIp { fip_id } => Some(Action::DisassociateFloatingIp { fip_id }),
            _ => None,
        }
    }

    /// The confirmation state: the open dialog and the action it guards.
    pub closed spec fn confirm_state(&self) -> ConfirmHandler {
        self.confirm
    }

    /// This screen with its confirmation state replaced by `c`.
    pub closed spec fn with_confirm(&self, c: ConfirmHandler) -> Self {
        Self { confirm: c, ..*self }
    }

    /// Answer the open confirmation dialog with a key press, a confirmed
    /// dialog resolved by `resolve_action` (see `confirm_answer`); nothing
    /// but the dialog and its pending action changes. `None` when no
    /// dialog is open, so that the key goes to the view.
    pub fn handle_confirm_key(&mut self, key: Key) -> (r: Option<Option<Action>>)
        ensures
            confirm_answer(old(self).confirm_state(), final(self).confirm_state(), key, r, Self::resolve_action),
            *final(self) == old(self).with_confirm(final(self).confirm_state()),
            old(self).inv() ==> final(self).inv(),
    {
        self.confirm.handle_key(key, Self::resolve_action)
    }

    /// Close the form and go back to the list.
    pub fn close_form(&mut self)
        requires
            old(self).inv(),
        ensures
            final(self).inv(),
            !final(self).form_open_spec(),
            final(self).view_state_spec() == ViewState::List,
            final(self).floating_ips_spec() == old(self).floating_ips_spec(),
            final(self).outbox_spec() == old(self).outbox_spec(),
            final(self).selected_spec() == old(self).selected_spec(),
            final(self).loading_spec() == old(self).loading_spec(),
            final(self).error_spec() == old(self).error_spec(),
            final(self).confirm_spec() == old(self).confirm_spec(),
            final(self).admin_spec() == old(self).admin_spec(),
            final(self).all_tenants_spec() == old(self).all_tenants_spec(),
            final(self).servers_spec() == old(self).servers_spec(),
            final(self).networks_spec() == old(self).networks_spec(),
    {
        self.form = None;
        self.view_state = ViewState::List;
    }

    /// A cancelled form: close it and leave form mode.
    pub fn cancel_create(&mut self) -> (r: Option<Action>)
        requires
            old(self).inv(),
        ensures
            final(self).inv(),
            r == Some(Action::ExitFormMode),
            !final(self).form_open_spec(),
            final(self).view_state_spec() == ViewState::List,
            final(self).outbox_spec() == old(self).outbox_spec(),
    {
        self.close_form();
        Some(Action::ExitFormMode)
    }

    /// Replace the floating IPs with a loaded list and clear the error.
    fn take_floating_ips(&mut self, items: &Vec<FloatingIp>)
        requires
            old(self).inv(),
        ensures
            final(self).inv(),
            final(self).floating_ips_spec() == items@,
            final(self).table_len_spec() == items@.len(),
            final(self).selected_spec() == kept_selection(old(self).selected_spec(), items@.len()),
            !final(self).loading_spec(),
            final(self).error_spec() is None,
            final(self).view_state_spec() == old(self).view_state_spec(),
            final(self).outbox_spec() == old(self).outbox_spec(),
            final(self).form_spec() == old(self).form_spec(),
            final(self).form_open_spec() == old(self).form_open_spec(),
            final(self).confirm_spec() == old(self).confirm_spec(),
            final(self).admin_spec() == old(self).admin_spec(),
            final(self).all_tenants_spec() == old(self).all_tenants_spec(),
            final(self).servers_spec() == old(self).servers_spec(),
            final(self).networks_spec() == old(self).networks_spec(),
            final(self).ext_opts_spec() == old(self).ext_opts_spec(),
            final(self).loading_ports_spec() == old(self).loading_ports_spec(),
    {
        proof {
            assert forall|a: FloatingIp, b: FloatingIp| #[trigger] cloned(a, b) implies a == b by {}
        }
        let copy = copy_list(items);
        let rows = fip_rows(&copy);
        self.floating_ips = copy;
        self.loading = false;
        self.error_message = None;
        proof {
            assert(rows_view(rows@).len() == rows@.len());
        }
        self.resource_list.set_rows(rows);
    }


    /// The servers offered when associating.
    pub fn cached_servers(&self) -> (r: &[Server])
        ensures
            r@ == self.servers_spec(),
    {
        self.cached_servers.as_slice()
    }

    /// The networks last loaded.
    pub fn cached_networks(&self) -> (r: &[Network])
        ensures
            r@ == self.networks_spec(),
    {
        self.cached_networks.as_slice()
    }

    /// The selected floating IP's position, if the selection lies on one.
    fn selected_position(&self) -> (r: Option<usize>)
        ensures
            match r {
                Some(i) => i == self.selected_spec() && i < self.floating_ips_spec().len(),
                None => self.selected_spec() >= self.floating_ips_spec().len(),
            },
    {
        let i = self.resource_list.selected_index();
        if i < self.floating_ips.len() {
            Some(i)
        } else {
            None
        }
    }

    /// React to a key in the list while no popup is open (the popup has the
    /// keyboard then; its outcome goes to `handle_popup_result`): table
    /// navigation; `c` opens the allocate form; `D` asks to delete the
    /// selected address; `d` once points out that delete moved to `D`; `a`
    /// offers the servers to associate an unbound address with; `x` asks
    /// to disassociate a bound one (typing its address); `r` reloads, Left
    /// goes to the sidebar, Esc goes back.
    pub fn handle_list_key(&mut self, key: Key) -> (r: Option<Action>)
        requires
            old(self).inv(),
        ensures
            final(self).inv(),
            old(self).popup_spec() is Some ==> r is None && *final(self) == *old(self),
            old(self).popup_spec() is None ==> list_key_step(key, *old(self), *final(self), r),
    {
        if self.select_popup.is_some() {
            return None;
        }
        if self.resource_list.handle_nav_key(key) {
            return None;
        }
        match key {
            Key::Char('c') => {
                self.open_create_form();
                Some(Action::EnterFormMode)
            },
            Key::Char('D') => {
                if let Some(i) = self.selected_position() {
                    let id = self.floating_ips[i].id.clone();
                    let ip = self.floating_ips[i].floating_ip_address.clone();
                    let dialog = ConfirmDialog::yes_no(cat3("Delete floating IP '", ip.as_str(), "'?"));
                    proof {
                        assert(strs_view(dialog.details@) =~= Seq::<Seq<char>>::empty());
                    }
                    self.confirm.open(dialog, PendingAction::DeleteFloatingIp { id, ip });
                }
                None
            },
            Key::Char('d') => {
                let shown = char_in(&self.keymap_hints_shown, 'd');
                if !shown {
                    self.keymap_hints_shown.push('d');
                    Some(Action::ShowToast { message: String::from_str("Delete is now Shift+D. Press 'x' to disassociate.") })
                } else {
                    None
                }
            },
            Key::Char('a') => {
                if let Some(i) = self.selected_position() {
                    if self.floating_ips[i].port_id.is_none() {
                        let items = build_server_items(&self.cached_servers);
                        if items.len() > 0 {
                            self.select_popup = Some(SelectPopup::new("Select Server", items));
                        }
                    }
                }
                None
            },
            Key::Char('x') => {
                if let Some(i) = self.selected_position() {
                    if self.floating_ips[i].port_id.is_some() {
                        let id = self.floating_ips[i].id.clone();
                        let ip = self.floating_ips[i].floating_ip_address.clone();
                        let details = Self::fip_disassociate_detail_lines(&self.floating_ips[i]);
                        let message = cat3("Disassociate ", ip.as_str(), "? External access will be lost immediately.");
                        self.confirm.open(
                            ConfirmDialog::type_to_confirm_with_details(message, ip, details),
                            PendingAction::DisassociateFloatingIp { fip_id: id },
                        );
                    }
                }
                None
            },
            Key::Char('r') => Some(Action::FetchFloatingIps),
            Key::Left => Some(Action::FocusSidebar),
            Key::Esc => Some(Action::Back),
            _ => None,
        }
    }

    /// A server was chosen to associate the selected floating IP with: the
    /// IP waits for a port and the server's ports are asked for.
    pub fn handle_server_selected(&mut self, server_id: String)
        requires
            old(self).inv(),
        ensures
            final(self).inv(),
            old(self).same_data(&*final(self)),
            final(self).popup_spec() == old(self).popup_spec(),
            final(self).dialog_spec() == old(self).dialog_spec(),
            final(self).pending_spec() == old(self).pending_spec(),
            final(self).ports_spec() == old(self).ports_spec(),
            final(self).port_labels_spec() == old(self).port_labels_spec(),
            server_chosen(*old(self), server_id@, *final(self)),
    {
        if let Some(i) = self.selected_position() {
            self.pending_fip_id = Some(self.floating_ips[i].id.clone());
            self.pending_ports_server_id = Some(server_id.clone());
            self.loading_ports = true;
            self.outbox.push(Action::FetchPorts { server_id });
            proof {
                assert(self.outbox@.drop_last() =~= old(self).outbox@);
            }
        }
    }

    /// The association question for floating IP `k` and port `p`.
    fn association_dialog(&self, k: usize, p: usize) -> (d: ConfirmDialog)
        requires
            k < self.floating_ips_spec().len(),
            p < self.ports_spec().len(),
            self.inv(),
        ensures
            is_association(d, self.servers_spec(), self.floating_ips_spec()[k as int], self.ports_spec()[p as int], self.port_labels_spec()[p as int]@),
    {
        let fip = &self.floating_ips[k];
        let port = &self.cached_ports[p];
        let label = &self.cached_port_labels[p];
        let server_name = match &port.device_id {
            Some(d) => match find_server(&self.cached_servers, d.as_str()) {
                Some(i) => self.cached_servers[i].name.clone(),
                None => String::from_str("unknown"),
            },
            None => String::from_str("unknown"),
        };
        let details = Self::fip_associate_detail_lines(fip, server_name.as_str(), label.as_str());
        let head = cat4("Associate ", fip.floating_ip_address.as_str(), " to port ", label.as_str());
        ConfirmDialog::yes_no_with_details(cat(head.as_str(), "?"), details)
    }

    /// The ports of `server_id` arrived, labelled by `port_labels` (one per
    /// port); they are taken only when that server's ports were asked for.
    /// While a floating IP waits: with no port, a message says so and the
    /// IP stops waiting; with one, association is asked for at once; with
    /// more, a popup offers them.
    pub fn handle_ports_loaded(&mut self, server_id: &str, ports: Vec<Port>, port_labels: Vec<String>)
        requires
            old(self).inv(),
            port_labels@.len() == ports@.len(),
        ensures
            final(self).inv(),
            old(self).same_data(&*final(self)),
            final(self).pending_ports_server_spec() == old(self).pending_ports_server_spec(),
            old(self).pending_ports_server_spec() != Some(server_id@) ==> *final(self) == *old(self),
            old(self).pending_ports_server_spec() == Some(server_id@) ==> ports_step(*old(self), ports@, port_labels@, *final(self)),
    {
        let asked = match &self.pending_ports_server_id {
            Some(sid) => str_eq(sid.as_str(), server_id),
            None => false,
        };
        if !asked {
            return;
        }
        self.cached_ports = ports;
        self.cached_port_labels = port_labels;
        self.loading_ports = false;
        let fip_id = match &self.pending_fip_id {
            Some(f) => f.clone(),
            None => {
                return;
            },
        };
        if self.cached_ports.len() == 0 {
            let ghost out0 = self.outbox@;
            self.outbox.push(Action::ShowToast { message: String::from_str("No ports found for this server") });
            proof {
                assert(self.outbox@.drop_last() =~= out0);
            }
            self.pending_fip_id = None;
            return;
        }
        if self.cached_ports.len() == 1 {
            match fip_position_exec(&self.floating_ips, fip_id.as_str()) {
                Some(k) => {
                    let dialog = self.association_dialog(k, 0);
                    let port_id = self.cached_ports[0].id.clone();
                    self.confirm.open(dialog, PendingAction::AssociateFloatingIp { fip_id, port_id });
                },
                None => {},
            }
            self.pending_fip_id = None;
            return;
        }
        let items = build_port_items(&self.cached_ports, &self.cached_port_labels);
        self.select_popup = Some(SelectPopup::new("Select Port", items));
    }

    /// A port was chosen for the waiting floating IP: the IP stops waiting,
    /// and association is asked for when both are known.
    pub fn handle_port_selected(&mut self, port_id: String)
        requires
            old(self).inv(),
        ensures
            final(self).inv(),
            old(self).same_data(&*final(self)),
            final(self).popup_spec() == old(self).popup_spec(),
            final(self).ports_spec() == old(self).ports_spec(),
            final(self).port_labels_spec() == old(self).port_labels_spec(),
            final(self).pending_ports_server_spec() == old(self).pending_ports_server_spec(),
            final(self).loading_ports_spec() == old(self).loading_ports_spec(),
            final(self).outbox_spec() == old(self).outbox_spec(),
            port_chosen(*old(self), port_id@, *final(self)),
    {
        let mut taken: Option<String> = None;
        std::mem::swap(&mut taken, &mut self.pending_fip_id);
        let fip_id = match taken {
            Some(f) => f,
            None => {
                return;
            },
        };
        let p = match port_pos_exec(port_id.as_str(), &self.cached_ports) {
            Some(p) => p,
            None => {
                return;
            },
        };
        let k = match fip_position_exec(&self.floating_ips, fip_id.as_str()) {
            Some(k) => k,
            None => {
                return;
            },
        };
        let dialog = self.association_dialog(k, p);
        let fid = self.floating_ips[k].id.clone();
        self.confirm.open(dialog, PendingAction::AssociateFloatingIp { fip_id: fid, port_id });
    }

    /// What the open popup made of a key (the popup handles the keys
    /// itself): a chosen item is a port while a floating IP waits for one,
    /// a server otherwise; a dismissed popup also stops the waiting.
    /// Without an open popup nothing happens.
    pub fn handle_popup_result(&mut self, result: SelectResult)
        requires
            old(self).inv(),
        ensures
            final(self).inv(),
            old(self).same_data(&*final(self)),
            old(self).popup_spec() is None ==> *final(self) == *old(self),
            old(self).popup_spec() is Some ==> match result {
                SelectResult::Selected(id) => {
                    &&& final(self).popup_spec() is None
                    &&& if old(self).pending_fip_spec() is Some {
                        &&& port_chosen(*old(self), id@, *final(self))
                        &&& final(self).outbox_spec() == old(self).outbox_spec()
                        &&& final(self).pending_ports_server_spec() == old(self).pending_ports_server_spec()
                    } else {
                        &&& server_chosen(*old(self), id@, *final(self))
                        &&& final(self).dialog_spec() == old(self).dialog_spec()
                        &&& final(self).pending_spec() == old(self).pending_spec()
                    }
                },
                SelectResult::Cancelled => {
                    &&& final(self).popup_spec() is None
                    &&& final(self).pending_fip_spec() is None
                    &&& final(self).dialog_spec() == old(self).dialog_spec()
                    &&& final(self).pending_spec() == old(self).pending_spec()
                    &&& final(self).outbox_spec() == old(self).outbox_spec()
                },
                SelectResult::Pending => *final(self) == *old(self),
            },
    {
        if self.select_popup.is_none() {
            return;
        }
        match result {
            SelectResult::Selected(id) => {
                self.select_popup = None;
                if self.pending_fip_id.is_some() {
                    self.handle_port_selected(id);
                } else {
                    self.handle_server_selected(id);
                }
            },
            SelectResult::Cancelled => {
                self.select_popup = None;
                self.pending_fip_id = None;
            },
            SelectResult::Pending => {},
        }
    }

    /// The detail lines of an associate confirmation.
    pub fn fip_associate_detail_lines(fip: &FloatingIp, server_name: &str, port_label: &str) -> (r: Vec<String>)
        ensures
            strs_view(r@) == associate_lines_spec(*fip, server_name@, port_label@),
    {
        let r = vec![
            cat("  Floating IP: ", fip.floating_ip_address.as_str()),
            cat("  Server: ", server_name),
            cat("  Port: ", port_label),
        ];
        proof {
            assert(strs_view(r@) =~= associate_lines_spec(*fip, server_name@, port_label@));
        }
        r
    }

    /// The detail lines of a disassociate confirmation.
    pub fn fip_disassociate_detail_lines(fip: &FloatingIp) -> (r: Vec<String>)
        ensures
            strs_view(r@) == disassociate_lines_spec(*fip),
    {
        let r = vec![
            cat("  Floating IP: ", fip.floating_ip_address.as_str()),
            cat("  Fixed IP: ", opt_str_or(&fip.fixed_ip_address, "-").as_str()),
            cat("  Port: ", opt_str_or(&fip.port_id, "-").as_str()),
        ];
        proof {
            assert(strs_view(r@) =~= disassociate_lines_spec(*fip));
        }
        r
    }

    /// Open the allocate form, and ask for the networks its choices come
    /// from.
    pub fn open_create_form(&mut self)
        requires
            old(self).inv(),
        ensures
            final(self).inv(),
            final(self).form_open_spec(),
            final(self).form_spec() matches Some(f) && {
                &&& f.title@ == "Allocate Floating IP"@
                &&& f.fields@.len() == 1
                &&& f.fields@[0].spec() == dropdown_spec(
                    "External Network"@,
                    option_values(old(self).ext_option_list_spec()),
                    true,
                )
                &&& dropdown_opts(f.fields@[0]) == old(self).ext_option_list_spec()
            },
            final(self).view_state_spec() == ViewState::Create,
            final(self).outbox_spec() == old(self).outbox_spec().push(Action::FetchNetworks),
            final(self).floating_ips_spec() == old(self).floating_ips_spec(),
            final(self).selected_spec() == old(self).selected_spec(),
            final(self).table_len_spec() == old(self).table_len_spec(),
            final(self).dialog_spec() == old(self).dialog_spec(),
            final(self).pending_spec() == old(self).pending_spec(),
            final(self).popup_spec() == old(self).popup_spec(),
            final(self).hints_spec() == old(self).hints_spec(),
            final(self).pending_fip_spec() == old(self).pending_fip_spec(),
            final(self).servers_spec() == old(self).servers_spec(),
            final(self).ext_option_list_spec() == old(self).ext_option_list_spec(),
    {
        let defs = fip_create_defs();
        let mut form = FormWidget::new("Allocate Floating IP", defs);
        proof {
            assert(field_specs(form.fields@).len() == 1);
            assert(form.fields@[0].spec() == field_specs(form.fields@)[0]);
            assert(option_values(dropdown_opts(form.fields@[0])).len() == 0);
        }
        apply_options(&mut form, Ghost(0), "External Network", &self.cached_ext_network_opts);
        proof {
            let o = self.cached_ext_network_opts@;
            assert(o.len() == 0 ==> option_values(o) =~= Seq::<Seq<char>>::empty());
            assert(o.len() == 0 ==> dropdown_opts(form.fields@[0]) =~= o);
        }
        self.form = Some(form);
        self.view_state = ViewState::Create;
        self.outbox.push(Action::FetchNetworks);
    }

    /// What the create form made of a key: a submitted form closes and
    /// queues the creation, a cancelled one closes; either leaves form
    /// mode. Without an open form, the form view is left.
    pub fn handle_create_key(&mut self, outcome: FormAction) -> (r: Option<Action>)
        requires
            old(self).inv(),
        ensures
            final(self).inv(),
            !old(self).form_open_spec() ==> {
                &&& r is None
                &&& !final(self).form_open_spec()
                &&& final(self).view_state_spec() == ViewState::List
                &&& final(self).floating_ips_spec() == old(self).floating_ips_spec()
                &&& final(self).outbox_spec() == old(self).outbox_spec()
                &&& final(self).selected_spec() == old(self).selected_spec()
                &&& final(self).loading_spec() == old(self).loading_spec()
                &&& final(self).error_spec() == old(self).error_spec()
                &&& final(self).confirm_spec() == old(self).confirm_spec()
                &&& final(self).admin_spec() == old(self).admin_spec()
                &&& final(self).all_tenants_spec() == old(self).all_tenants_spec()
                &&& final(self).servers_spec() == old(self).servers_spec()
                &&& final(self).networks_spec() == old(self).networks_spec()
            },
            old(self).form_open_spec() ==> match outcome {
                FormAction::Submit(values) => {
                    &&& r == Some(Action::ExitFormMode)
                    &&& !final(self).form_open_spec()
                    &&& final(self).view_state_spec() == ViewState::List
                    &&& final(self).outbox_spec().len() == old(self).outbox_spec().len() + 1
                    &&& final(self).outbox_spec().drop_last() == old(self).outbox_spec()
                    &&& match final(self).outbox_spec().last() {
                        Action::CreateFloatingIp { network_id } => network_id@ == match as_selected(
                            form_lookup(values@, "External Network"@),
                        ) {
                            Some(s) => s,
                            None => Seq::empty(),
                        },
                        _ => false,
                    }
                },
                FormAction::Cancel => {
                    &&& r == Some(Action::ExitFormMode)
                    &&& !final(self).form_open_spec()
                    &&& final(self).view_state_spec() == ViewState::List
                    &&& final(self).outbox_spec() == old(self).outbox_spec()
                },
                FormAction::Pending => {
                    &&& r is None
                    &&& *final(self) == *old(self)
                },
            },
    {
        if self.form.is_none() {
            self.close_form();
            return None;
        }
        match outcome {
            FormAction::Submit(values) => self.submit_create(&values),
            FormAction::Cancel => self.cancel_create(),
            FormAction::Pending => None,
        }
    }

    /// A submitted allocate form: close it, queue the allocation on the
    /// chosen external network (the empty ID when none was chosen), and
    /// leave form mode.
    pub fn submit_create(&mut self, values: &Vec<(String, FormValue)>) -> (r: Option<Action>)
        requires
            old(self).inv(),
        ensures
            final(self).inv(),
            r == Some(Action::ExitFormMode),
            !final(self).form_open_spec(),
            final(self).view_state_spec() == ViewState::List,
            final(self).outbox_spec().len() == old(self).outbox_spec().len() + 1,
            final(self).outbox_spec().drop_last() == old(self).outbox_spec(),
            match final(self).outbox_spec().last() {
                Action::CreateFloatingIp { network_id } => network_id@ == match as_selected(
                    form_lookup(values@, "External Network"@),
                ) {
                    Some(s) => s,
                    None => Seq::empty(),
                },
                _ => false,
            },
    {
        let network_id = match selected_field(values, "External Network") {
            Some(s) => s,
            None => String::new(),
        };
        self.close_form();
        self.outbox.push(Action::CreateFloatingIp { network_id });
        proof {
            assert(self.outbox@.drop_last() =~= old(self).outbox@);
        }
        Some(Action::ExitFormMode)
    }

    /// Give the floating IP with `id` (the first one, when held) the port,
    /// fixed address and status of an association or disassociation.
    fn relink(&mut self, id: &String, port_id: Option<String>, fixed: Option<String>, status: &str)
        requires
            old(self).inv(),
        ensures
            final(self).inv(),
            final(self).floating_ips_spec().len() == old(self).floating_ips_spec().len(),
            match fip_position(old(self).floating_ips_spec(), id@) {
                Some(j) => {
                    &&& relinked(old(self).floating_ips_spec()[j], final(self).floating_ips_spec()[j], port_id, fixed, status@)
                    &&& forall|k: int| 0 <= k < final(self).floating_ips_spec().len() && k != j
                        ==> final(self).floating_ips_spec()[k] == old(self).floating_ips_spec()[k]
                },
                None => final(self).floating_ips_spec() == old(self).floating_ips_spec(),
            },
            final(self).table_len_spec() == old(self).table_len_spec(),
            final(self).selected_spec() == old(self).selected_spec(),
            final(self).loading_spec() == old(self).loading_spec(),
            final(self).error_spec() == old(self).error_spec(),
            final(self).view_state_spec() == old(self).view_state_spec(),
            final(self).outbox_spec() == old(self).outbox_spec(),
            final(self).form_spec() == old(self).form_spec(),
            final(self).form_open_spec() == old(self).form_open_spec(),
            final(self).confirm_spec() == old(self).confirm_spec(),
            final(self).admin_spec() == old(self).admin_spec(),
            final(self).all_tenants_spec() == old(self).all_tenants_spec(),
            final(self).servers_spec() == old(self).servers_spec(),
            final(self).networks_spec() == old(self).networks_spec(),
            final(self).ext_opts_spec() == old(self).ext_opts_spec(),
            final(self).loading_ports_spec() == old(self).loading_ports_spec(),
    {
        match fip_position_exec(&self.floating_ips, id.as_str()) {
            Some(j) => {
                let mut f = self.floating_ips[j].clone();
                f.port_id = port_id;
                f.fixed_ip_address = fixed;
                f.status = String::from_str(status);
                self.floating_ips.set(j, f);
            },
            None => {},
        }
    }

    /// Take in an event: a loaded list replaces the floating IPs and clears
    /// the error; a created or deleted address queues a reload; an
    /// association or disassociation updates the address held at once and
    /// queues a reload; loaded servers and networks are kept (the external
    /// networks becoming the allocate form's choices); a failed request
    /// shows its error and ends any port fetch.
    pub fn handle_event(&mut self, event: &AppEvent)
        requires
            old(self).inv(),
        ensures
            final(self).inv(),
            final(self).admin_spec() == old(self).admin_spec(),
            final(self).confirm_spec() == old(self).confirm_spec(),
            final(self).view_state_spec() == old(self).view_state_spec(),
            final(self).form_open_spec() == old(self).form_open_spec(),
            match event {
                AppEvent::NetworksLoaded(_) => form_options_step(
                    old(self).form_spec(),
                    final(self).form_spec(),
                    "External Network"@,
                    final(self).ext_option_list_spec(),
                ),
                _ => final(self).form_spec() == old(self).form_spec(),
            },
            match event {
                AppEvent::FloatingIpsLoaded(x) => final(self).floating_ips_spec() == x@
                    && final(self).table_len_spec() == x@.len()
                    && final(self).selected_spec() == kept_selection(old(self).selected_spec(), x@.len()),
                AppEvent::FloatingIpAssociated(f) => final(self).floating_ips_spec().len() == old(self).floating_ips_spec().len()
                    && match fip_position(old(self).floating_ips_spec(), f.id@) {
                    Some(j) => relinked(old(self).floating_ips_spec()[j], final(self).floating_ips_spec()[j], f.port_id, f.fixed_ip_address, "ACTIVE"@)
                        && forall|k: int| 0 <= k < final(self).floating_ips_spec().len() && k != j
                        ==> final(self).floating_ips_spec()[k] == old(self).floating_ips_spec()[k],
                    None => final(self).floating_ips_spec() == old(self).floating_ips_spec(),
                },
                AppEvent::FloatingIpDisassociated(f) => final(self).floating_ips_spec().len() == old(self).floating_ips_spec().len()
                    && match fip_position(old(self).floating_ips_spec(), f.id@) {
                    Some(j) => relinked(old(self).floating_ips_spec()[j], final(self).floating_ips_spec()[j], None, None, "DOWN"@)
                        && forall|k: int| 0 <= k < final(self).floating_ips_spec().len() && k != j
                        ==> final(self).floating_ips_spec()[k] == old(self).floating_ips_spec()[k],
                    None => final(self).floating_ips_spec() == old(self).floating_ips_spec(),
                },
                _ => final(self).floating_ips_spec() == old(self).floating_ips_spec()
                    && final(self).selected_spec() == old(self).selected_spec(),
            },
            final(self).loading_spec() == match event {
                AppEvent::FloatingIpsLoaded(_) => false,
                AppEvent::ApiError { .. } => false,
                _ => old(self).loading_spec(),
            },
            final(self).loading_ports_spec() == match event {
                AppEvent::ApiError { .. } => false,
                _ => old(self).loading_ports_spec(),
            },
            final(self).error_spec() == match event {
                AppEvent::FloatingIpsLoaded(_) => None,
                AppEvent::ApiError { operation, message } => Some(error_text(operation@, message@)),
                _ => old(self).error_spec(),
            },
            final(self).outbox_spec() == match event {
                AppEvent::FloatingIpCreated(_) => old(self).outbox_spec().push(Action::FetchFloatingIps),
                AppEvent::FloatingIpDeleted { .. } => old(self).outbox_spec().push(Action::FetchFloatingIps),
                AppEvent::FloatingIpAssociated(_) => old(self).outbox_spec().push(Action::FetchFloatingIps),
                AppEvent::FloatingIpDisassociated(_) => old(self).outbox_spec().push(Action::FetchFloatingIps),
                _ => old(self).outbox_spec(),
            },
            match event {
                AppEvent::ServersLoaded(s) => servers_eqv(final(self).servers_spec(), s@),
                _ => final(self).servers_spec() == old(self).servers_spec(),
            },
            match event {
                AppEvent::NetworksLoaded(n) => nets_eqv(final(self).networks_spec(), n@)
                    && final(self).ext_opts_spec() == external_choices(n@),
                _ => final(self).networks_spec() == old(self).networks_spec()
                    && final(self).ext_opts_spec() == old(self).ext_opts_spec(),
            },
    {
        match event {
            AppEvent::FloatingIpsLoaded(items) => {
                self.take_floating_ips(items);
            },
            AppEvent::FloatingIpCreated(_) => {
                self.outbox.push(Action::FetchFloatingIps);
            },
            AppEvent::FloatingIpDeleted { .. } => {
                self.outbox.push(Action::FetchFloatingIps);
            },
            AppEvent::FloatingIpAssociated(f) => {
                self.relink(&f.id, f.port_id.clone(), f.fixed_ip_address.clone(), "ACTIVE");
                self.outbox.push(Action::FetchFloatingIps);
            },
            AppEvent::FloatingIpDisassociated(f) => {
                self.relink(&f.id, None, None, "DOWN");
                self.outbox.push(Action::FetchFloatingIps);
            },
            AppEvent::ServersLoaded(servers) => {
                let copy = copy_list_by(servers, Ghost(|a: Server, b: Server| a.eqv(&b)));
                proof {
                    assert(servers_eqv(copy@, servers@));
                }
                self.cached_servers = copy;
            },
            AppEvent::NetworksLoaded(networks) => {
                let copy = copy_list_by(networks, Ghost(|a: Network, b: Network| a.eqv(&b)));
                proof {
                    assert(nets_eqv(copy@, networks@));
                }
                self.cached_networks = copy;
                let opts = external_options(networks);
                set_open_form_options(&mut self.form, "External Network", &opts);
                self.cached_ext_network_opts = opts;
            },
            AppEvent::ApiError { operation, message } => {
                self.error_message = Some(format_error(operation, message));
                self.loading = false;
                self.loading_ports = false;
            },
            _ => {},
        }
    }
}

} // verus!
