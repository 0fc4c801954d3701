//! The server screen: list, detail with its actions (reboot, stop,
//! resize, migrations, volumes, floating IPs), and the create form.
pub mod items;
pub mod view_model;

use vstd::prelude::*;
use crate::action::Action;
use crate::event::AppEvent;
use crate::models::cinder::{volumes_eqv, Volume};
use crate::models::glance::Image;
use crate::models::neutron::{FloatingIp, Network, Port, SecurityGroup};
use crate::models::nova::{servers_eqv, Flavor, Server, ServerMigration};
use crate::module::{copy_list, copy_list_by, error_text, format_error, confirm_answer, ConfirmHandler, PendingAction, ViewState};
use crate::port::types::{EvacuateParams, NetworkAttachment, ServerCreateParams};
use crate::text::{cat, cat3, cat4, dec, keep_non_empty, non_empty, opt_or, opt_str_or, opt_view, str_eq, strs_view, u64_text};
use crate::ui::confirm::{is_typed, is_yes_no, ConfirmDialog};
use crate::ui::form::{
    apply_options, as_selected, form_options_step, as_text, dropdown_opts, dropdown_spec, field_specs, form_lookup, option_values, selected_field, text_field, text_spec,
    FormAction, FormValue, FormWidget, SelectOption,
};
use crate::ui::key::Key;
use crate::ui::resource_list::{nav_key, nav_target, rows_view, ResourceList, Row, RowView};
use crate::ui::select_popup::{items_view, ItemHint, ItemView, SelectItem, SelectPopup, SelectResult};
use self::items::{
    attached_volume_items, available_volume_items, build_attached_volume_items, build_available_fip_items,
    build_available_volume_items, build_flavor_items, build_port_items, find_attachment_by_id, find_attachment_by_id_exec,
    find_fip_by_id, find_fip_by_id_exec, find_flavor, find_flavor_exec, first_colon, flavor_items, free_fip_items, port_items,
    port_pos, port_pos_exec, split_first_colon,
};
use self::view_model::{find_volume, find_volume_exec, server_create_defs, server_row_spec, server_to_row_full};

verus! {

/// A resize that waits to be confirmed or reverted.
#[derive(Debug, Clone, PartialEq)]
pub struct ResizePendingInfo {
    pub server_id: String,
}

/// Which choice the open popup of the detail view offers.
#[derive(Debug, Clone, Copy, PartialEq, Eq, Structural)]
pub enum DetailPopupKind {
    Resize,
    AttachVolume,
    DetachVolume,
    AssociateFip,
    SelectPort,
}

/// Index of the first server with id `id`.
pub open spec fn server_index(servers: Seq<Server>, id: Seq<char>) -> Option<int>
    decreases servers.len(),
{
    if servers.len() == 0 {
        None
    } else if servers.last().id@ == id && server_index(servers.drop_last(), id) is None {
        Some(servers.len() - 1)
    } else {
        server_index(servers.drop_last(), id)
    }
}

/// The first server with id `id`.
pub open spec fn server_by_id(servers: Seq<Server>, id: Seq<char>) -> Option<Server> {
    match server_index(servers, id) {
        Some(i) => Some(servers[i]),
        None => None,
    }
}

/// Where the first server with id `id` is.
pub(crate) fn find_server(servers: &Vec<Server>, id: &str) -> (r: Option<usize>)
    ensures
        match r {
            Some(i) => server_index(servers@, id@) == Some(i as int) && i < servers@.len(),
            None => server_index(servers@, id@) is None,
        },
{
    let n = servers.len();
    let mut i: usize = 0;
    while i < n
        invariant
            n == servers@.len(),
            i <= n,
            server_index(servers@.take(i as int), id@) is None,
        decreases n - i,
    {
        proof {
            assert(servers@.take(i + 1).drop_last() =~= servers@.take(i as int));
        }
        if str_eq(servers[i].id.as_str(), id) {
            proof {
                lemma_index_prefix(servers@, id@, i as int);
            }
            return Some(i);
        }
        i = i + 1;
    }
    proof {
        assert(servers@.take(n as int) =~= servers@);
    }
    None
}

/// The first match in a list is the first match in any longer prefix.
proof fn lemma_index_prefix(servers: Seq<Server>, id: Seq<char>, i: int)
    requires
        0 <= i < servers.len(),
        servers[i].id@ == id,
        server_index(servers.take(i), id) is None,
    ensures
        server_index(servers, id) == Some(i),
    decreases servers.len() - i,
{
    assert(servers.take(i + 1).drop_last() =~= servers.take(i));
    if i + 1 < servers.len() {
        let t = servers.take(servers.len() - 1);
        assert(servers.drop_last() =~= t);
        assert(t.take(i) =~= servers.take(i));
        lemma_index_prefix(t, id, i);
    } else {
        assert(servers.drop_last() =~= servers.take(i));
    }
}

/// The rows of a list of servers.
pub open spec fn server_rows_spec(servers: Seq<Server>, show_tenant: bool, show_host: bool) -> Seq<RowView> {
    servers.map_values(|s: Server| server_row_spec(s, show_tenant, show_host))
}

/// The key help of the detail view of a server with status `status` (if
/// the server is known), for an admin or not.
pub open spec fn detail_hint(status: Option<Seq<char>>, admin: bool) -> Seq<char> {
    let verify = status == Some("VERIFY_RESIZE"@);
    let error = status == Some("ERROR"@);
    if verify && admin {
        "Esc:Back R:Reboot S:Start X:Stop F:Resize A:AttachVol x:DetachVol f:AssocFIP M:Migrate C:Cold Y:Confirm N:Revert | v:Vol n:Net s:SG i:Img"@
    } else if verify {
        "Esc:Back R:Reboot S:Start X:Stop F:Resize A:AttachVol x:DetachVol f:AssocFIP Y:Confirm N:Revert | v:Vol n:Net s:SG i:Img"@
    } else if error && admin {
        "Esc:Back R:Reboot S:Start X:Stop F:Resize A:AttachVol x:DetachVol f:AssocFIP M:Migrate C:Cold E:Evacuate | v:Vol n:Net s:SG i:Img"@
    } else if admin {
        "Esc:Back R:Reboot S:Start X:Stop F:Resize A:AttachVol x:DetachVol f:AssocFIP M:Migrate C:Cold | v:Vol n:Net s:SG i:Img"@
    } else {
        "Esc:Back R:Reboot S:Start X:Stop F:Resize A:AttachVol x:DetachVol f:AssocFIP | v:Vol n:Net s:SG i:Img"@
    }
}

/// Whether `p` is what a submitted server form with `values` asks for:
/// name, image, flavor and network as entered (empty when missing), the
/// security group, key pair and availability zone only when not empty.
pub open spec fn server_form_params(values: Seq<(String, FormValue)>, p: ServerCreateParams) -> bool {
    &&& p.name@ == opt_or_empty(as_text(form_lookup(values, "Name"@)))
    &&& p.image_id@ == opt_or_empty(as_selected(form_lookup(values, "Image"@)))
    &&& p.flavor_id@ == opt_or_empty(as_selected(form_lookup(values, "Flavor"@)))
    &&& p.networks@.len() == 1
    &&& p.networks@[0].uuid@ == opt_or_empty(as_selected(form_lookup(values, "Network"@)))
    &&& p.networks@[0].fixed_ip is None
    &&& match non_empty(as_selected(form_lookup(values, "Security Group"@))) {
        Some(g) => p.security_groups matches Some(v) && v@.len() == 1 && v@[0]@ == g,
        None => p.security_groups is None,
    }
    &&& opt_view(p.key_name) == non_empty(as_text(form_lookup(values, "Key Pair"@)))
    &&& opt_view(p.availability_zone) == non_empty(as_text(form_lookup(values, "Availability Zone"@)))
}

/// A text, or the empty text when there is none.
pub open spec fn opt_or_empty(v: Option<Seq<char>>) -> Seq<char> {
    match v {
        Some(s) => s,
        None => Seq::empty(),
    }
}

/// The parameters a submitted server form asks for.
pub fn server_params_from_form(values: &Vec<(String, FormValue)>) -> (p: ServerCreateParams)
    ensures
        server_form_params(values@, p),
{
    let name = match text_field(values, "Name") {
        Some(s) => s,
        None => String::new(),
    };
    let image_id = match selected_field(values, "Image") {
        Some(s) => s,
        None => String::new(),
    };
    let flavor_id = match selected_field(values, "Flavor") {
        Some(s) => s,
        None => String::new(),
    };
    let network_id = match selected_field(values, "Network") {
        Some(s) => s,
        None => String::new(),
    };
    let security_groups = match keep_non_empty(selected_field(values, "Security Group")) {
        Some(g) => Some(vec![g]),
        None => None,
    };
    let key_name = keep_non_empty(text_field(values, "Key Pair"));
    let availability_zone = keep_non_empty(text_field(values, "Availability Zone"));
    ServerCreateParams {
        name,
        image_id,
        flavor_id,
        networks: vec![NetworkAttachment { uuid: network_id, fixed_ip: None }],
        security_groups,
        key_name,
        availability_zone,
    }
}

/// The name of the first server with id `id`, or `unknown`.
pub open spec fn name_or_unknown(servers: Seq<Server>, id: Seq<char>) -> Seq<char> {
    match server_by_id(servers, id) {
        Some(s) => s.name@,
        None => "unknown"@,
    }
}

/// The detail lines of a volume in an attach or detach confirmation:
/// name, size and type.
pub open spec fn volume_lines(v: Volume) -> Seq<Seq<char>> {
    seq![
        "  Volume: "@ + opt_or(v.name, "-"@),
        "  Size: "@ + dec(v.size as nat) + " GB"@,
        "  Type: "@ + opt_or(v.volume_type, "-"@),
    ]
}

/// The detail lines of a volume in a confirmation.
fn volume_lines_exec(v: &Volume) -> (r: Vec<String>)
    ensures
        strs_view(r@) == volume_lines(*v),
{
    let r = vec![
        cat("  Volume: ", opt_str_or(&v.name, "-").as_str()),
        cat3("  Size: ", u64_text(v.size).as_str(), " GB"),
        cat("  Type: ", opt_str_or(&v.volume_type, "-").as_str()),
    ];
    proof {
        assert(strs_view(r@) =~= volume_lines(*v));
    }
    r
}

/// The detail lines of an association: the address, the server and the
/// port.
pub open spec fn association_lines(addr: Seq<char>, server_name: Seq<char>, port_label: Seq<char>) -> Seq<Seq<char>> {
    seq!["  Floating IP: "@ + addr, "  Server: "@ + server_name, "  Port: "@ + port_label]
}

/// What choosing volume `vid` for attaching does to the confirmation of
/// `a`, giving `b`: in the detail view of a server, for a known volume,
/// a yes/no question naming both.
pub open spec fn attach_step(a: ServerModule, vid: Seq<char>, b: ServerModule) -> bool {
    match (a.view_state_spec(), find_volume(vid, a.volumes_spec())) {
        (ViewState::Detail(sid), Some(v)) => {
            let name = opt_or(v.name, "-"@);
            &&& b.dialog_spec() matches Some(d) && is_yes_no(
                d,
                "Attach "@ + name + " to '"@ + name_or_unknown(a.servers_spec(), sid@) + "'?"@,
                volume_lines(v),
            )
            &&& b.pending_spec() matches Some(PendingAction::AttachVolume { volume_id, server_id, device })
                && volume_id@ == vid && server_id == sid && device is None
        },
        _ => {
            &&& b.dialog_spec() == a.dialog_spec()
            &&& b.pending_spec() == a.pending_spec()
        },
    }
}

/// What choosing floating IP `fid` does to `a`, giving `b`: in the detail
/// view of a server, the IP waits for a port and the server's ports are
/// asked for; elsewhere nothing happens.
pub open spec fn fip_step(a: ServerModule, fid: Seq<char>, b: ServerModule) -> bool {
    &&& b.dialog_spec() == a.dialog_spec()
    &&& b.pending_spec() == a.pending_spec()
    &&& b.ports_spec() == a.ports_spec()
    &&& b.port_labels_spec() == a.port_labels_spec()
    &&& match a.view_state_spec() {
        ViewState::Detail(sid) => {
            &&& b.pending_fip_spec() == Some(fid)
            &&& b.pending_ports_server_spec() == Some(sid@)
            &&& b.loading_ports_spec()
            &&& b.outbox_spec() == a.outbox_spec().push(Action::FetchPorts { server_id: sid })
        },
        _ => {
            &&& b.pending_fip_spec() == a.pending_fip_spec()
            &&& b.pending_ports_server_spec() == a.pending_ports_server_spec()
            &&& b.loading_ports_spec() == a.loading_ports_spec()
            &&& b.outbox_spec() == a.outbox_spec()
        },
    }
}

/// The question that associates floating IP `f` with the port labelled
/// `label`, shown with the server of the detail view.
pub open spec fn is_association_dialog(d: ConfirmDialog, a: ServerModule, f: FloatingIp, label: Seq<char>) -> bool {
    let server_name = match a.view_state_spec() {
        ViewState::Detail(id) => name_or_unknown(a.servers_spec(), id@),
        _ => "unknown"@,
    };
    is_yes_no(
        d,
        "Associate "@ + f.floating_ip_address@ + " to port "@ + label + "?"@,
        association_lines(f.floating_ip_address@, server_name, label),
    )
}

/// What choosing port `pid` does to `a`, giving `b`: the waiting floating
/// IP is taken, and when both it and the port are known, association is
/// asked for.
pub open spec fn port_step(a: ServerModule, pid: Seq<char>, b: ServerModule) -> bool {
    &&& b.pending_fip_spec() is None
    &&& b.ports_spec() == a.ports_spec()
    &&& b.port_labels_spec() == a.port_labels_spec()
    &&& b.pending_ports_server_spec() == a.pending_ports_server_spec()
    &&& b.loading_ports_spec() == a.loading_ports_spec()
    &&& b.outbox_spec() == a.outbox_spec()
    &&& match a.pending_fip_spec() {
        Some(fid) => match (port_pos(pid, a.ports_spec()), find_fip_by_id(fid, a.fips_spec())) {
            (Some(k), Some(f)) => {
                &&& b.dialog_spec() matches Some(d) && is_association_dialog(d, a, f, a.port_labels_spec()[k]@)
                &&& b.pending_spec() matches Some(PendingAction::AssociateFloatingIp { fip_id, port_id })
                    && fip_id == f.id && port_id@ == pid
            },
            _ => b.dialog_spec() == a.dialog_spec() && b.pending_spec() == a.pending_spec(),
        },
        None => b.dialog_spec() == a.dialog_spec() && b.pending_spec() == a.pending_spec(),
    }
}

/// What choosing flavor `fid` for resizing does to `a`, giving `b`: in the
/// detail view, a yes/no question naming the flavor (or its id, when
/// unknown).
pub open spec fn resize_step(a: ServerModule, fid: Seq<char>, b: ServerModule) -> bool {
    match a.view_state_spec() {
        ViewState::Detail(sid) => {
            let name = match find_flavor(fid, a.flavors_spec()) {
                Some(f) => f.name@,
                None => fid,
            };
            &&& b.dialog_spec() matches Some(d) && is_yes_no(d, "Resize to "@ + name + "?"@, Seq::empty())
            &&& b.pending_spec() matches Some(PendingAction::Resize { id, flavor_id }) && id == sid && flavor_id@ == fid
        },
        _ => b.dialog_spec() == a.dialog_spec() && b.pending_spec() == a.pending_spec(),
    }
}

/// What choosing attachment `cid` (`volume:attachment`) for detaching
/// does to the confirmation of `a`, giving `b`.
pub open spec fn detach_step(a: ServerModule, cid: Seq<char>, b: ServerModule) -> bool {
    let unchanged = b.dialog_spec() == a.dialog_spec() && b.pending_spec() == a.pending_spec();
    match first_colon(cid) {
        None => unchanged,
        Some(k) => {
            let vid = cid.take(k);
            let aid = cid.skip(k + 1);
            match find_volume(vid, a.volumes_spec()) {
                None => unchanged,
                Some(v) => match find_attachment_by_id(aid, v.attachments@) {
                    None => unchanged,
                    Some(att) => {
                        let name = opt_or(v.name, "-"@);
                        let lines = volume_lines(v).push("  Device: "@ + att.device@);
                        let boot = v.bootable@ == "true"@ && v.attachments@.len() == 1;
                        let pending = b.pending_spec() matches Some(PendingAction::DetachVolume { volume_id, server_id, attachment_id })
                            && volume_id@ == vid && server_id == att.server_id && attachment_id@ == aid;
                        if boot && !a.admin_spec() {
                            unchanged
                        } else if boot {
                            &&& b.dialog_spec() matches Some(d) && is_typed(
                                d,
                                "Detach BOOT volume '"@ + name + "'? Type name to confirm:"@,
                                name,
                                lines.push("  ⚠ BOOT VOLUME — server will become unbootable!"@),
                            )
                            &&& pending
                        } else {
                            &&& b.dialog_spec() matches Some(d) && is_yes_no(
                                d,
                                "Detach "@ + name + " from '"@ + name_or_unknown(a.servers_spec(), att.server_id@)
                                    + "'? Device: "@ + att.device@,
                                lines,
                            )
                            &&& pending
                        }
                    },
                },
            }
        },
    }
}

/// `b` is `a` with nothing changed in its dialog, popup or outbox.
pub open spec fn no_ui_change(a: ServerModule, b: ServerModule) -> bool {
    &&& b.dialog_spec() == a.dialog_spec()
    &&& b.pending_spec() == a.pending_spec()
    &&& b.popup_spec() == a.popup_spec()
    &&& b.popup_kind_spec() == a.popup_kind_spec()
    &&& b.outbox_spec() == a.outbox_spec()
}

/// `b` is `a` with a yes/no question `message` guarding `pending`.
pub open spec fn asks(a: ServerModule, b: ServerModule, message: Seq<char>, pending: PendingAction) -> bool {
    &&& b.dialog_spec() matches Some(d) && is_yes_no(d, message, Seq::empty())
    &&& b.pending_spec() == Some(pending)
    &&& b.popup_spec() == a.popup_spec()
    &&& b.popup_kind_spec() == a.popup_kind_spec()
    &&& b.outbox_spec() == a.outbox_spec()
}

/// `b` is `a` with a popup `title` offering `items` for `kind`.
pub open spec fn opens_popup(a: ServerModule, b: ServerModule, title: Seq<char>, items: Seq<ItemView>, kind: DetailPopupKind) -> bool {
    &&& b.popup_spec() matches Some(p) && p.title@ == title && items_view(p.items@) == items
    &&& b.popup_kind_spec() == Some(kind)
    &&& b.dialog_spec() == a.dialog_spec()
    &&& b.pending_spec() == a.pending_spec()
    &&& b.outbox_spec() == a.outbox_spec()
}

/// `b` is `a` with `act` queued.
pub open spec fn queues(a: ServerModule, b: ServerModule, act: Action) -> bool {
    &&& b.outbox_spec() == a.outbox_spec().push(act)
    &&& b.dialog_spec() == a.dialog_spec()
    &&& b.pending_spec() == a.pending_spec()
    &&& b.popup_spec() == a.popup_spec()
    &&& b.popup_kind_spec() == a.popup_kind_spec()
}

/// `b` is `a` with a message `text` queued for display.
pub open spec fn toasts(a: ServerModule, b: ServerModule, text: Seq<char>) -> bool {
    &&& b.outbox_spec().len() == a.outbox_spec().len() + 1
    &&& b.outbox_spec().drop_last() == a.outbox_spec()
    &&& b.outbox_spec().last() matches Action::ShowToast { message } && message@ == text
    &&& b.dialog_spec() == a.dialog_spec()
    &&& b.pending_spec() == a.pending_spec()
    &&& b.popup_spec() == a.popup_spec()
    &&& b.popup_kind_spec() == a.popup_kind_spec()
}

/// The id of the server in the detail view of `a`.
pub open spec fn detail_id(a: ServerModule) -> Option<String> {
    match a.view_state_spec() {
        ViewState::Detail(id) => Some(id),
        _ => None,
    }
}

/// The server in the detail view of `a`, if known.
pub open spec fn detail_server(a: ServerModule) -> Option<Server> {
    match detail_id(a) {
        Some(id) => server_by_id(a.servers_spec(), id@),
        None => None,
    }
}

/// Whether the server in the detail view has status `status`.
pub open spec fn detail_status_is(a: ServerModule, status: Seq<char>) -> bool {
    detail_server(a) matches Some(s) && s.status@ == status
}

/// In the detail view, the question `message` guarding the action
/// `pending(id)` on the shown server; elsewhere nothing.
pub open spec fn asks_in_detail(a: ServerModule, b: ServerModule, message: Seq<char>, pending: spec_fn(String) -> PendingAction) -> bool {
    match detail_id(a) {
        Some(id) => asks(a, b, message, pending(id)),
        None => no_ui_change(a, b),
    }
}

/// What a key does in the detail view of `a` while no popup is open,
/// giving `b` and the returned `r`.
pub open spec fn detail_key_step(key: Key, a: ServerModule, b: ServerModule, r: Option<Action>) -> bool {
    let admin = a.admin_spec();
    &&& a.same_data(&b)
    &&& b.form_spec() == a.form_spec()
    &&& b.pending_fip_spec() == a.pending_fip_spec()
    &&& if key == Key::Esc || key == Key::Char('q') || key == Key::Left {
        &&& r is None
        &&& b.view_state_spec() == ViewState::List
        &&& no_ui_change(a, b)
    } else {
        &&& b.view_state_spec() == a.view_state_spec()
        &&& if key == Key::Char('S') {
            &&& no_ui_change(a, b)
            &&& r == match detail_id(a) {
                Some(id) => Some(Action::StartServer { id }),
                None => None,
            }
        } else if key == Key::Char('v') {
            no_ui_change(a, b) && r == Some(Action::Navigate(crate::models::common::Route::Volumes))
        } else if key == Key::Char('n') {
            no_ui_change(a, b) && r == Some(Action::Navigate(crate::models::common::Route::Networks))
        } else if key == Key::Char('s') {
            no_ui_change(a, b) && r == Some(Action::Navigate(crate::models::common::Route::SecurityGroups))
        } else if key == Key::Char('i') {
            no_ui_change(a, b) && r == Some(Action::Navigate(crate::models::common::Route::Images))
        } else {
            &&& r is None
            &&& if key == Key::Char('R') {
                asks_in_detail(a, b, "Hard reboot this server?"@, |id: String| PendingAction::Reboot { id, hard: true })
            } else if key == Key::Char('X') {
                asks_in_detail(a, b, "Stop this server?"@, |id: String| PendingAction::Stop { id })
            } else if key == Key::Char('M') && admin {
                asks_in_detail(a, b, "Live migrate this server?"@, |id: String| PendingAction::LiveMigrate { id })
            } else if key == Key::Char('C') && admin {
                asks_in_detail(a, b, "Cold migrate this server?"@, |id: String| PendingAction::ColdMigrate { id })
            } else if key == Key::Char('E') && admin {
                if detail_status_is(a, "ERROR"@) {
                    asks_in_detail(
                        a,
                        b,
                        "Evacuate this server? Data on non-volume-backed instances may be lost."@,
                        |id: String| PendingAction::Evacuate { id },
                    )
                } else {
                    no_ui_change(a, b)
                }
            } else if key == Key::Char('Y') || key == Key::Char('N') {
                if detail_status_is(a, "VERIFY_RESIZE"@) {
                    let resize = a.resize_pending_spec() == Some(detail_id(a)->0@);
                    if key == Key::Char('Y') && resize {
                        asks_in_detail(a, b, "Confirm resize?"@, |id: String| PendingAction::ConfirmResize { id })
                    } else if key == Key::Char('Y') {
                        asks_in_detail(a, b, "Confirm migration?"@, |id: String| PendingAction::ConfirmMigrate { id })
                    } else if resize {
                        asks_in_detail(a, b, "Revert resize?"@, |id: String| PendingAction::RevertResize { id })
                    } else {
                        asks_in_detail(a, b, "Revert migration?"@, |id: String| PendingAction::RevertMigrate { id })
                    }
                } else {
                    no_ui_change(a, b)
                }
            } else if key == Key::Char('F') {
                if detail_status_is(a, "ACTIVE"@) || detail_status_is(a, "SHUTOFF"@) {
                    let srv = detail_server(a)->0;
                    if a.flavors_spec().len() == 0 {
                        queues(a, b, Action::FetchFlavors)
                    } else {
                        opens_popup(
                            a,
                            b,
                            "Select Flavor"@,
                            flavor_items(a.flavors_spec(), srv.flavor.id@, srv.flavor.disk),
                            DetailPopupKind::Resize,
                        )
                    }
                } else {
                    no_ui_change(a, b)
                }
            } else if key == Key::Char('A') {
                let items = available_volume_items(a.volumes_spec());
                if items.len() == 0 {
                    if a.volumes_spec().len() == 0 {
                        queues(a, b, Action::FetchVolumes)
                    } else {
                        toasts(a, b, "No available volumes to attach"@)
                    }
                } else {
                    opens_popup(a, b, "Attach Volume"@, items, DetailPopupKind::AttachVolume)
                }
            } else if key == Key::Char('x') {
                match detail_id(a) {
                    Some(id) => {
                        let items = attached_volume_items(a.volumes_spec(), id@);
                        if items.len() == 0 {
                            toasts(a, b, "No volumes attached to this server"@)
                        } else if items.len() == 1 {
                            &&& detach_step(a, items[0].id, b)
                            &&& b.popup_spec() == a.popup_spec()
                            &&& b.popup_kind_spec() == a.popup_kind_spec()
                            &&& b.outbox_spec() == a.outbox_spec()
                        } else {
                            opens_popup(a, b, "Detach Volume"@, items, DetailPopupKind::DetachVolume)
                        }
                    },
                    None => no_ui_change(a, b),
                }
            } else if key == Key::Char('f') {
                let items = free_fip_items(a.fips_spec());
                if items.len() == 0 {
                    if a.fips_spec().len() == 0 {
                        queues(a, b, Action::FetchFloatingIps)
                    } else {
                        toasts(a, b, "No unassociated floating IPs available"@)
                    }
                } else {
                    opens_popup(a, b, "Associate Floating IP"@, items, DetailPopupKind::AssociateFip)
                }
            } else {
                no_ui_change(a, b)
            }
        }
    }
}

/// What closing the popup of `a` with `result` does, giving `b`: a chosen
/// item is acted on as the popup's kind says (resize when unknown), a
/// dismissed popup also drops a floating IP waiting for a port.
pub open spec fn popup_result_step(result: SelectResult, a: ServerModule, b: ServerModule) -> bool {
    &&& b.view_state_spec() == a.view_state_spec()
    &&& b.form_spec() == a.form_spec()
    &&& match result {
        SelectResult::Selected(id) => {
            &&& b.popup_spec() is None
            &&& b.popup_kind_spec() is None
            &&& match a.popup_kind_spec() {
                Some(DetailPopupKind::AttachVolume) => {
                    &&& a.same_data(&b)
                    &&& attach_step(a, id@, b)
                    &&& b.pending_fip_spec() == a.pending_fip_spec()
                    &&& b.outbox_spec() == a.outbox_spec()
                },
                Some(DetailPopupKind::DetachVolume) => {
                    &&& a.same_data(&b)
                    &&& detach_step(a, id@, b)
                    &&& b.pending_fip_spec() == a.pending_fip_spec()
                    &&& b.outbox_spec() == a.outbox_spec()
                },
                Some(DetailPopupKind::AssociateFip) => a.same_core(&b) && fip_step(a, id@, b),
                Some(DetailPopupKind::SelectPort) => a.same_core(&b) && port_step(a, id@, b),
                _ => {
                    &&& a.same_data(&b)
                    &&& resize_step(a, id@, b)
                    &&& b.pending_fip_spec() == a.pending_fip_spec()
                    &&& b.outbox_spec() == a.outbox_spec()
                },
            }
        },
        SelectResult::Cancelled => {
            &&& a.same_data(&b)
            &&& b.popup_spec() is None
            &&& b.popup_kind_spec() is None
            &&& b.pending_fip_spec() is None
            &&& b.dialog_spec() == a.dialog_spec()
            &&& b.pending_spec() == a.pending_spec()
            &&& b.outbox_spec() == a.outbox_spec()
        },
        SelectResult::Pending => {
            &&& a.same_data(&b)
            &&& no_ui_change(a, b)
            &&& b.pending_fip_spec() == a.pending_fip_spec()
        },
    }
}

/// The option offered for flavor `f` in the create form.
pub open spec fn flavor_option(f: Flavor) -> (Seq<char>, Seq<char>) {
    (f.id@, f.name@ + " ("@ + dec(f.vcpus as nat) + "vCPU/"@ + dec(f.ram as nat) + "MB/"@ + dec(f.disk as nat) + "GB)"@)
}

/// Value and text of each option.
pub open spec fn opts_view(opts: Seq<SelectOption>) -> Seq<(Seq<char>, Seq<char>)> {
    opts.map_values(|o: SelectOption| (o.value@, o.display@))
}

/// Whether the resize waiting on `id` is still waiting in `servers`: the
/// first server with that id awaits confirmation.
pub open spec fn still_verify(servers: Seq<Server>, id: Seq<char>) -> bool {
    server_by_id(servers, id) matches Some(s) && s.status@ == "VERIFY_RESIZE"@
}

/// The server screen.
pub struct ServerModule {
    view_state: ViewState,
    servers: Vec<Server>,
    loading: bool,
    error_message: Option<String>,
    confirm: ConfirmHandler,
    resource_list: ResourceList,
    form: Option<FormWidget>,
    all_tenants: bool,
    is_admin: bool,
    migration_progress: Option<(String, ServerMigration)>,
    select_popup: Option<SelectPopup>,
    popup_kind: Option<DetailPopupKind>,
    resize_pending: Option<ResizePendingInfo>,
    cached_flavors: Vec<Flavor>,
    cached_volumes: Vec<Volume>,
    cached_floating_ips: Vec<FloatingIp>,
    cached_ports: Vec<Port>,
    cached_port_labels: Vec<String>,
    pending_fip_id: Option<String>,
    pending_ports_server_id: Option<String>,
    loading_ports: bool,
    cached_flavor_opts: Vec<SelectOption>,
    cached_image_opts: Vec<SelectOption>,
    cached_network_opts: Vec<SelectOption>,
    cached_sg_opts: Vec<SelectOption>,
    outbox: Vec<Action>,
}

impl ServerModule {
    /// The view shown.
    pub closed spec fn view_state_spec(&self) -> ViewState {
        self.view_state
    }

    /// The servers held.
    pub closed spec fn servers_spec(&self) -> Seq<Server> {
        self.servers@
    }

    /// Whether a load is outstanding.
    pub closed spec fn loading_spec(&self) -> bool {
        self.loading
    }

    /// The last error shown.
    pub closed spec fn error_spec(&self) -> Option<Seq<char>> {
        match self.error_message {
            Some(e) => Some(e@),
            None => None,
        }
    }

    /// The open confirmation dialog, if any.
    pub closed spec fn dialog_spec(&self) -> Option<ConfirmDialog> {
        self.confirm.dialog
    }

    /// The action the open confirmation guards.
    pub closed spec fn pending_spec(&self) -> Option<PendingAction> {
        self.confirm.pending
    }

    /// The open form, if any.
    pub closed spec fn form_spec(&self) -> Option<FormWidget> {
        self.form
    }

    /// Whether the servers of all projects are shown.
    pub closed spec fn all_tenants_spec(&self) -> bool {
        self.all_tenants
    }

    /// Whether the user has the admin role.
    pub closed spec fn admin_spec(&self) -> bool {
        self.is_admin
    }

    /// The last migration progress, with the server it belongs to.
    pub closed spec fn migration_spec(&self) -> Option<(String, ServerMigration)> {
        self.migration_progress
    }

    /// The open popup and what it chooses.
    pub closed spec fn popup_spec(&self) -> Option<SelectPopup> {
        self.select_popup
    }

    /// What the open popup chooses.
    pub closed spec fn popup_kind_spec(&self) -> Option<DetailPopupKind> {
        self.popup_kind
    }

    /// The server whose resize waits to be confirmed, if any.
    pub closed spec fn resize_pending_spec(&self) -> Option<Seq<char>> {
        match self.resize_pending {
            Some(r) => Some(r.server_id@),
            None => None,
        }
    }

    /// The flavors offered for resizing.
    pub closed spec fn flavors_spec(&self) -> Seq<Flavor> {
        self.cached_flavors@
    }

    /// The volumes offered for attaching and detaching.
    pub closed spec fn volumes_spec(&self) -> Seq<Volume> {
        self.cached_volumes@
    }

    /// The floating IPs offered for association.
    pub closed spec fn fips_spec(&self) -> Seq<FloatingIp> {
        self.cached_floating_ips@
    }

    /// The ports of the server a floating IP is being associated with.
    pub closed spec fn ports_spec(&self) -> Seq<Port> {
        self.cached_ports@
    }

    /// The labels shown for those ports.
    pub closed spec fn port_labels_spec(&self) -> Seq<String> {
        self.cached_port_labels@
    }

    /// The floating IP waiting for a port.
    pub closed spec fn pending_fip_spec(&self) -> Option<Seq<char>> {
        match self.pending_fip_id {
            Some(f) => Some(f@),
            None => None,
        }
    }

    /// The server whose ports were asked for.
    pub closed spec fn pending_ports_server_spec(&self) -> Option<Seq<char>> {
        match self.pending_ports_server_id {
            Some(s) => Some(s@),
            None => None,
        }
    }

    /// Whether ports are being loaded.
    pub closed spec fn loading_ports_spec(&self) -> bool {
        self.loading_ports
    }

    /// The cached options of the create form's Flavor, Image, Network and
    /// Security Group dropdowns.
    pub closed spec fn cached_opts_spec(&self) -> (Seq<SelectOption>, Seq<SelectOption>, Seq<SelectOption>, Seq<SelectOption>) {
        (self.cached_flavor_opts@, self.cached_image_opts@, self.cached_network_opts@, self.cached_sg_opts@)
    }

    /// The requests waiting to be sent, oldest first.
    pub closed spec fn outbox_spec(&self) -> Seq<Action> {
        self.outbox@
    }

    /// The selected row.
    pub closed spec fn selected_spec(&self) -> nat {
        self.resource_list.selected_spec()
    }

    /// The number of rows in the table.
    pub closed spec fn table_len_spec(&self) -> nat {
        self.resource_list.len_spec()
    }

    /// The table is empty (after a change of columns, until the next
    /// load) or shows one row per server; the port labels go with the
    /// ports.
    pub closed spec fn inv(&self) -> bool {
        &&& self.resource_list.inv()
        &&& (self.resource_list.len_spec() == 0 || (self.resource_list.rows_spec() == server_rows_spec(
            self.servers@,
            self.all_tenants,
            self.is_admin,
        ) && self.resource_list.len_spec() == self.servers@.len()))
        &&& self.cached_port_labels@.len() == self.cached_ports@.len()
    }

    /// The data the screen holds (everything but the view, dialog, form,
    /// popup and outbox) is the same in `self` and `other`.
    pub open spec fn same_data(&self, other: &Self) -> bool {
        &&& self.same_core(other)
        &&& other.ports_spec() == self.ports_spec()
        &&& other.port_labels_spec() == self.port_labels_spec()
        &&& other.pending_ports_server_spec() == self.pending_ports_server_spec()
        &&& other.loading_ports_spec() == self.loading_ports_spec()
    }

    /// The loaded resources, caches and table are the same in `self` and
    /// `other`.
    pub open spec fn same_core(&self, other: &Self) -> bool {
        &&& other.servers_spec() == self.servers_spec()
        &&& other.loading_spec() == self.loading_spec()
        &&& other.error_spec() == self.error_spec()
        &&& other.all_tenants_spec() == self.all_tenants_spec()
        &&& other.admin_spec() == self.admin_spec()
        &&& other.migration_spec() == self.migration_spec()
        &&& other.resize_pending_spec() == self.resize_pending_spec()
        &&& other.flavors_spec() == self.flavors_spec()
        &&& other.volumes_spec() == self.volumes_spec()
        &&& other.fips_spec() == self.fips_spec()
        &&& other.cached_opts_spec() == self.cached_opts_spec()
        &&& other.selected_spec() == self.selected_spec()
        &&& other.table_len_spec() == self.table_len_spec()
    }

    /// An empty screen showing its list, for a user without the admin role.
    pub fn new() -> (r: Self)
        ensures
            r.inv(),
            r.view_state_spec() == ViewState::List,
            r.servers_spec().len() == 0,
            !r.loading_spec(),
            r.error_spec() is None,
            r.dialog_spec() is None,
            r.pending_spec() is None,
            r.form_spec() is None,
            !r.all_tenants_spec(),
            !r.admin_spec(),
            r.migration_spec() is None,
            r.popup_spec() is None,
            r.popup_kind_spec() is None,
            r.resize_pending_spec() is None,
            r.flavors_spec().len() == 0,
            r.volumes_spec().len() == 0,
            r.fips_spec().len() == 0,
            r.ports_spec().len() == 0,
            r.pending_fip_spec() is None,
            r.pending_ports_server_spec() is None,
            !r.loading_ports_spec(),
            r.outbox_spec().len() == 0,
            r.selected_spec() == 0,
            r.table_len_spec() == 0,
    {
        ServerModule {
            view_state: ViewState::List,
            servers: Vec::new(),
            loading: false,
            error_message: None,
            confirm: ConfirmHandler::new(),
            resource_list: ResourceList::new(),
            form: None,
            all_tenants: false,
            is_admin: false,
            migration_progress: None,
            select_popup: None,
            popup_kind: None,
            resize_pending: None,
            cached_flavors: Vec::new(),
            cached_volumes: Vec::new(),
            cached_floating_ips: Vec::new(),
            cached_ports: Vec::new(),
            cached_port_labels: Vec::new(),
            pending_fip_id: None,
            pending_ports_server_id: None,
            loading_ports: false,
            cached_flavor_opts: Vec::new(),
            cached_image_opts: Vec::new(),
            cached_network_opts: Vec::new(),
            cached_sg_opts: Vec::new(),
            outbox: Vec::new(),
        }
    }

    /// The view shown.
    pub fn view_state(&self) -> (r: &ViewState)
        ensures
            *r == self.view_state_spec(),
    {
        &self.view_state
    }

    /// The servers.
    pub fn servers(&self) -> (r: &[Server])
        ensures
            r@ == self.servers_spec(),
    {
        self.servers.as_slice()
    }

    /// Index of the selected row.
    pub fn selected_index(&self) -> (r: usize)
        ensures
            r == self.selected_spec(),
    {
        self.resource_list.selected_index()
    }

    /// The last error shown.
    pub fn error_message(&self) -> (r: Option<&str>)
        ensures
            match r {
                Some(s) => self.error_spec() == Some(s@),
                None => self.error_spec() is None,
            },
    {
        match &self.error_message {
            Some(e) => Some(e.as_str()),
            None => None,
        }
    }

    /// The last migration progress loaded.
    pub fn migration_progress(&self) -> (r: Option<&ServerMigration>)
        ensures
            match self.migration_spec() {
                Some(p) => r == Some(&p.1),
                None => r is None,
            },
    {
        match &self.migration_progress {
            Some(p) => Some(&p.1),
            None => None,
        }
    }

    /// The last migration progress loaded, if it belongs to `server_id`.
    pub fn migration_progress_for(&self, server_id: &str) -> (r: Option<&ServerMigration>)
        ensures
            match self.migration_spec() {
                Some(p) => if p.0@ == server_id@ { r == Some(&p.1) } else { r is None },
                None => r is None,
            },
    {
        match &self.migration_progress {
            Some(p) => {
                if str_eq(p.0.as_str(), server_id) {
                    Some(&p.1)
                } else {
                    None
                }
            },
            None => None,
        }
    }

    /// Whether a confirmation dialog is open.
    pub fn confirm_is_active(&self) -> (r: bool)
        ensures
            r == self.dialog_spec() is Some,
    {
        self.confirm.is_active()
    }

    /// The open confirmation dialog and the action it guards.
    pub fn confirm(&self) -> (r: &ConfirmHandler)
        ensures
            r.dialog == self.dialog_spec(),
            r.pending == self.pending_spec(),
    {
        &self.confirm
    }

    /// The open form, if any.
    pub fn form(&self) -> (r: Option<&FormWidget>)
        ensures
            match self.form_spec() {
                Some(f) => r == Some(&f),
                None => r is None,
            },
    {
        match &self.form {
            Some(f) => Some(f),
            None => None,
        }
    }

    /// The open popup, if any.
    pub fn select_popup(&self) -> (r: Option<&SelectPopup>)
        ensures
            match self.popup_spec() {
                Some(p) => r == Some(&p),
                None => r is None,
            },
    {
        match &self.select_popup {
            Some(p) => Some(p),
            None => None,
        }
    }

    /// What the open popup chooses.
    pub fn popup_kind(&self) -> (r: Option<DetailPopupKind>)
        ensures
            r == self.popup_kind_spec(),
    {
        self.popup_kind
    }

    /// The server whose resize waits to be confirmed, if any.
    pub fn resize_pending(&self) -> (r: Option<&ResizePendingInfo>)
        ensures
            match r {
                Some(p) => self.resize_pending_spec() == Some(p.server_id@),
                None => self.resize_pending_spec() is None,
            },
    {
        match &self.resize_pending {
            Some(p) => Some(p),
            None => None,
        }
    }

    /// The floating IP waiting for a port, if any.
    pub fn pending_fip_id(&self) -> (r: Option<&str>)
        ensures
            match r {
                Some(f) => self.pending_fip_spec() == Some(f@),
                None => self.pending_fip_spec() is None,
            },
    {
        match &self.pending_fip_id {
            Some(f) => Some(f.as_str()),
            None => None,
        }
    }

    /// The volumes offered for attaching and detaching.
    pub fn cached_volumes(&self) -> (r: &[Volume])
        ensures
            r@ == self.volumes_spec(),
    {
        self.cached_volumes.as_slice()
    }

    /// The floating IPs offered for association.
    pub fn cached_floating_ips(&self) -> (r: &[FloatingIp])
        ensures
            r@ == self.fips_spec(),
    {
        self.cached_floating_ips.as_slice()
    }

    /// Whether a load is outstanding.
    pub fn is_loading(&self) -> (r: bool)
        ensures
            r == self.loading_spec(),
    {
        self.loading
    }

    /// Whether the user has the admin role.
    pub fn is_admin(&self) -> (r: bool)
        ensures
            r == self.admin_spec(),
    {
        self.is_admin
    }

    /// Hand over the requests waiting to be sent, oldest first.
    pub fn take_actions(&mut self) -> (r: Vec<Action>)
        requires
            old(self).inv(),
        ensures
            final(self).inv(),
            r@ == old(self).outbox_spec(),
            final(self).outbox_spec().len() == 0,
            final(self).view_state_spec() == old(self).view_state_spec(),
            final(self).servers_spec() == old(self).servers_spec(),
            final(self).dialog_spec() == old(self).dialog_spec(),
            final(self).pending_spec() == old(self).pending_spec(),
            final(self).form_spec() == old(self).form_spec(),
            final(self).popup_spec() == old(self).popup_spec(),
            final(self).selected_spec() == old(self).selected_spec(),
    {
        let mut out: Vec<Action> = Vec::new();
        std::mem::swap(&mut out, &mut self.outbox);
        out
    }

    /// The request that reloads this screen.
    pub fn refresh_action(&self) -> (r: Option<Action>)
        ensures
            r == Some(Action::FetchServers),
    {
        Some(Action::FetchServers)
    }

    /// Whether a dialog, the form or a popup has the keyboard.
    pub fn is_modal(&self) -> (r: bool)
        ensures
            r == (self.dialog_spec() is Some || self.form_spec() is Some || self.popup_spec() is Some),
    {
        self.confirm.is_active() || self.form.is_some() || self.select_popup.is_some()
    }

    /// Show or hide the project column; the table is rebuilt on the next
    /// load.
    pub fn set_all_tenants(&mut self, v: bool)
        requires
            old(self).inv(),
        ensures
            final(self).inv(),
            final(self).all_tenants_spec() == v,
            final(self).table_len_spec() == 0,
            final(self).selected_spec() == 0,
            final(self).servers_spec() == old(self).servers_spec(),
            final(self).admin_spec() == old(self).admin_spec(),
            final(self).view_state_spec() == old(self).view_state_spec(),
            final(self).outbox_spec() == old(self).outbox_spec(),
    {
        self.all_tenants = v;
        self.resource_list = ResourceList::new();
    }

    /// Record whether the user has the admin role (admins see the host
    /// column); the table is rebuilt on the next load.
    pub fn set_admin(&mut self, is_admin: bool)
        requires
            old(self).inv(),
        ensures
            final(self).inv(),
            final(self).admin_spec() == is_admin,
            final(self).table_len_spec() == 0,
            final(self).selected_spec() == 0,
            final(self).servers_spec() == old(self).servers_spec(),
            final(self).all_tenants_spec() == old(self).all_tenants_spec(),
            final(self).view_state_spec() == old(self).view_state_spec(),
            final(self).outbox_spec() == old(self).outbox_spec(),
    {
        self.is_admin = is_admin;
        self.resource_list = ResourceList::new();
    }

    /// The request a confirmed dialog stands for.
    pub fn resolve_action(pending: PendingAction) -> (r: Option<Action>)
        ensures
            r == match pending {
                PendingAction::Delete { id, name } => Some(Action::DeleteServer { id, name }),
                PendingAction::Reboot { id, hard } => Some(Action::RebootServer { id, hard }),
                PendingAction::Stop { id } => Some(Action::StopServer { id }),
                PendingAction::Resize { id, flavor_id } => Some(Action::ResizeServer { id, flavor_id }),
                PendingAction::ConfirmResize { id } => Some(Action::ConfirmResize { id }),
                PendingAction::RevertResize { id } => Some(Action::RevertResize { id }),
                PendingAction::LiveMigrate { id } => Some(Action::LiveMigrateServer { id, host: None }),
                PendingAction::ColdMigrate { id } => Some(Action::ColdMigrateServer { id }),
                PendingAction::ConfirmMigrate { id } => Some(Action::ConfirmMigration { id }),
                PendingAction::RevertMigrate { id } => Some(Action::RevertMigration { id }),
                PendingAction::Evacuate { id } => Some(
                    Action::EvacuateServer {
                        id,
                        params: EvacuateParams { host: None, on_shared_storage: None, force: None },
                    },
                ),
                PendingAction::AttachVolume { volume_id, server_id, device } => Some(
                    Action::AttachVolume { volume_id, server_id, device },
                ),
                PendingAction::DetachVolume { volume_id, server_id, attachment_id } => Some(
                    Action::DetachVolume { volume_id, server_id, attachment_id },
                ),
                PendingAction::AssociateFloatingIp { fip_id, port_id } => Some(
                    Action::AssociateFloatingIp { fip_id, port_id },
                ),
                _ => None,
            },
    {
        match pending {
            PendingAction::Delete { id, name } => Some(Action::DeleteServer { id, name }),
            PendingAction::Reboot { id, hard } => Some(Action::RebootServer { id, hard }),
            PendingAction::Stop { id } => Some(Action::StopServer { id }),
            PendingAction::Resize { id, flavor_id } => Some(Action::ResizeServer { id, flavor_id }),
            PendingAction::ConfirmResize { id } => Some(Action::ConfirmResize { id }),
            PendingAction::RevertResize { id } => Some(Action::RevertResize { id }),
            PendingAction::LiveMigrate { id } => Some(Action::LiveMigrateServer { id, host: None }),
            PendingAction::ColdMigrate { id } => Some(Action::ColdMigrateServer { id }),
            PendingAction::ConfirmMigrate { id } => Some(Action::ConfirmMigration { id }),
            PendingAction::RevertMigrate { id } => Some(Action::RevertMigration { id }),
            PendingAction::Evacuate { id } => Some(Action::EvacuateServer { id, params: EvacuateParams::none() }),
            PendingAction::AttachVolume { volume_id, server_id, device } => Some(
                Action::AttachVolume { volume_id, server_id, device },
            ),
            PendingAction::DetachVolume { volume_id, server_id, attachment_id } => Some(
                Action::DetachVolume { volume_id, server_id, attachment_id },
            ),
            PendingAction::AssociateFloatingIp { fip_id, port_id } => Some(
                Action::AssociateFloatingIp { fip_id, port_id },
            ),
            _ => None,
        }
    }

    /// The confirmation state: the open dialog and the action it guards.
    pub closed spec fn confirm_state(&self) -> ConfirmHandler {
        self.confirm
    }

    /// This screen with its confirmation state replaced by `c`.
    pub closed spec fn with_confirm(&self, c: ConfirmHandler) -> Self {
        Self { confirm: c, ..*self }
    }

    /// Answer the open confirmation dialog with a key press, a confirmed
    /// dialog resolved by `resolve_action` (see `confirm_answer`); nothing
    /// but the dialog and its pending action changes. `None` when no
    /// dialog is open, so that the key goes to the view.
    pub fn handle_confirm_key(&mut self, key: Key) -> (r: Option<Option<Action>>)
        ensures
            confirm_answer(old(self).confirm_state(), final(self).confirm_state(), key, r, Self::resolve_action),
            *final(self) == old(self).with_confirm(final(self).confirm_state()),
            old(self).inv() ==> final(self).inv(),
    {
        self.confirm.handle_key(key, Self::resolve_action)
    }

    /// Open the Create Server form, with the dropdown options already
    /// loaded, and ask for fresh flavors, images, networks and security
    /// groups.
    pub fn open_create_form(&mut self)
        requires
            old(self).inv(),
        ensures
            final(self).inv(),
            old(self).same_data(&*final(self)),
            final(self).view_state_spec() == ViewState::Create,
            final(self).form_spec() matches Some(f) && {
                let o = old(self).cached_opts_spec();
                &&& f.title@ == "Create Server"@
                &&& field_specs(f.fields@) == seq![
                    text_spec("Name"@, true),
                    dropdown_spec("Image"@, option_values(o.1), true),
                    dropdown_spec("Flavor"@, option_values(o.0), true),
                    dropdown_spec("Network"@, option_values(o.2), true),
                    dropdown_spec("Security Group"@, option_values(o.3), false),
                    text_spec("Key Pair"@, false),
                    text_spec("Availability Zone"@, false),
                ]
                &&& dropdown_opts(f.fields@[1]) == o.1
                &&& dropdown_opts(f.fields@[2]) == o.0
                &&& dropdown_opts(f.fields@[3]) == o.2
                &&& dropdown_opts(f.fields@[4]) == o.3
            },
            final(self).outbox_spec() == old(self).outbox_spec() + seq![
                Action::FetchFlavors,
                Action::FetchImages,
                Action::FetchNetworks,
                Action::FetchSecurityGroups,
            ],
            final(self).dialog_spec() == old(self).dialog_spec(),
            final(self).pending_spec() == old(self).pending_spec(),
            final(self).popup_spec() == old(self).popup_spec(),
            final(self).popup_kind_spec() == old(self).popup_kind_spec(),
            final(self).pending_fip_spec() == old(self).pending_fip_spec(),
    {
        let defs = server_create_defs();
        let mut form = FormWidget::new("Create Server", defs);
        proof {
            reveal_strlit("Name");
            reveal_strlit("Image");
            reveal_strlit("Flavor");
            reveal_strlit("Network");
            reveal_strlit("Security Group");
            reveal_strlit("Key Pair");
            reveal_strlit("Availability Zone");
            assert(field_specs(form.fields@).len() == 7);
            assert(form.fields@.len() == 7);
            assert forall|k: int| 0 <= k < 7 implies (#[trigger] form.fields@[k]).spec() == field_specs(form.fields@)[k] by {}
            assert("Name"@.len() == 4 && "Image"@.len() == 5 && "Flavor"@.len() == 6 && "Network"@.len() == 7);
            assert("Key Pair"@.len() == 8 && "Security Group"@.len() == 14 && "Availability Zone"@.len() == 17);
            assert(option_values(Seq::<SelectOption>::empty()) =~= Seq::<Seq<char>>::empty());
            assert forall|k: int| 1 <= k < 5 implies dropdown_opts(#[trigger] form.fields@[k]).len() == 0 by {
                assert(option_values(dropdown_opts(form.fields@[k])).len() == 0);
            }
        }
        let ghost g0 = form.fields@;
        apply_options(&mut form, Ghost(2), "Flavor", &self.cached_flavor_opts);
        let ghost g1 = form.fields@;
        apply_options(&mut form, Ghost(1), "Image", &self.cached_image_opts);
        let ghost g2 = form.fields@;
        apply_options(&mut form, Ghost(3), "Network", &self.cached_network_opts);
        let ghost g3 = form.fields@;
        apply_options(&mut form, Ghost(4), "Security Group", &self.cached_sg_opts);
        proof {
            let o = self.cached_opts_spec();
            let g4 = form.fields@;
            assert(g4[0] == g0[0] && g4[5] == g0[5] && g4[6] == g0[6]);
            assert(g4[2] == g1[2] && g4[1] == g2[1] && g4[3] == g3[3]);
            assert(o.0.len() == 0 ==> option_values(o.0) =~= Seq::<Seq<char>>::empty());
            assert(o.1.len() == 0 ==> option_values(o.1) =~= Seq::<Seq<char>>::empty());
            assert(o.2.len() == 0 ==> option_values(o.2) =~= Seq::<Seq<char>>::empty());
            assert(o.3.len() == 0 ==> option_values(o.3) =~= Seq::<Seq<char>>::empty());
            assert(o.1.len() == 0 ==> dropdown_opts(g4[1]) =~= o.1);
            assert(o.2.len() == 0 ==> dropdown_opts(g4[3]) =~= o.2);
            assert(o.0.len() == 0 ==> dropdown_opts(g4[2]) =~= o.0);
            assert(o.3.len() == 0 ==> dropdown_opts(g4[4]) =~= o.3);
            assert(g4[1].spec() == dropdown_spec("Image"@, option_values(o.1), true));
            assert(g4[2].spec() == dropdown_spec("Flavor"@, option_values(o.0), true));
            assert(g4[3].spec() == dropdown_spec("Network"@, option_values(o.2), true));
            assert(g4[4].spec() == dropdown_spec("Security Group"@, option_values(o.3), false));
            assert(option_values(Seq::<SelectOption>::empty()) =~= Seq::<Seq<char>>::empty());
            assert(field_specs(form.fields@) =~= seq![
                text_spec("Name"@, true),
                dropdown_spec("Image"@, option_values(o.1), true),
                dropdown_spec("Flavor"@, option_values(o.0), true),
                dropdown_spec("Network"@, option_values(o.2), true),
                dropdown_spec("Security Group"@, option_values(o.3), false),
                text_spec("Key Pair"@, false),
                text_spec("Availability Zone"@, false),
            ]);
        }
        self.form = Some(form);
        self.view_state = ViewState::Create;
        self.outbox.push(Action::FetchFlavors);
        self.outbox.push(Action::FetchImages);
        self.outbox.push(Action::FetchNetworks);
        self.outbox.push(Action::FetchSecurityGroups);
    }

    /// Close the form and go back to the list.
    pub fn close_form(&mut self)
        requires
            old(self).inv(),
        ensures
            final(self).inv(),
            old(self).same_data(&*final(self)),
            final(self).form_spec() is None,
            final(self).view_state_spec() == ViewState::List,
            final(self).outbox_spec() == old(self).outbox_spec(),
            final(self).dialog_spec() == old(self).dialog_spec(),
            final(self).pending_spec() == old(self).pending_spec(),
            final(self).popup_spec() == old(self).popup_spec(),
            final(self).popup_kind_spec() == old(self).popup_kind_spec(),
            final(self).pending_fip_spec() == old(self).pending_fip_spec(),
    {
        self.form = None;
        self.view_state = ViewState::List;
    }

    /// What the create form made of a key: a submitted form closes and
    /// queues the creation, a cancelled one closes; either leaves form
    /// mode. Without an open form, the form view is left.
    pub fn handle_create_key(&mut self, outcome: FormAction) -> (r: Option<Action>)
        requires
            old(self).inv(),
        ensures
            final(self).inv(),
            old(self).same_data(&*final(self)),
            final(self).dialog_spec() == old(self).dialog_spec(),
            final(self).pending_spec() == old(self).pending_spec(),
            final(self).popup_spec() == old(self).popup_spec(),
            final(self).popup_kind_spec() == old(self).popup_kind_spec(),
            final(self).pending_fip_spec() == old(self).pending_fip_spec(),
            old(self).form_spec() is None ==> {
                &&& r is None
                &&& final(self).form_spec() is None
                &&& final(self).view_state_spec() == ViewState::List
                &&& final(self).outbox_spec() == old(self).outbox_spec()
            },
            old(self).form_spec() is Some ==> match outcome {
                FormAction::Submit(values) => {
                    &&& r == Some(Action::ExitFormMode)
                    &&& final(self).form_spec() is None
                    &&& final(self).view_state_spec() == ViewState::List
                    &&& final(self).outbox_spec().drop_last() == old(self).outbox_spec()
                    &&& final(self).outbox_spec().len() == old(self).outbox_spec().len() + 1
                    &&& final(self).outbox_spec().last() matches Action::CreateServer(p) && server_form_params(values@, p)
                },
                FormAction::Cancel => {
                    &&& r == Some(Action::ExitFormMode)
                    &&& final(self).form_spec() is None
                    &&& final(self).view_state_spec() == ViewState::List
                    &&& final(self).outbox_spec() == old(self).outbox_spec()
                },
                FormAction::Pending => {
                    &&& r is None
                    &&& final(self).form_spec() == old(self).form_spec()
                    &&& final(self).view_state_spec() == old(self).view_state_spec()
                    &&& final(self).outbox_spec() == old(self).outbox_spec()
                },
            },
    {
        if self.form.is_none() {
            self.close_form();
            return None;
        }
        match outcome {
            FormAction::Submit(values) => {
                let params = server_params_from_form(&values);
                self.close_form();
                self.outbox.push(Action::CreateServer(params));
                proof {
                    assert(self.outbox@.drop_last() =~= old(self).outbox@);
                }
                Some(Action::ExitFormMode)
            },
            FormAction::Cancel => {
                self.close_form();
                Some(Action::ExitFormMode)
            },
            FormAction::Pending => None,
        }
    }

    /// React to a key in the list: table navigation, Enter opens the
    /// selected server, `c` opens the create form, `d` asks to delete the
    /// selected server (typing its name), `r` reloads, Left goes to the
    /// sidebar, Esc goes back.
    pub fn handle_list_key(&mut self, key: Key) -> (r: Option<Action>)
        requires
            old(self).inv(),
        ensures
            final(self).inv(),
            final(self).servers_spec() == old(self).servers_spec(),
            final(self).admin_spec() == old(self).admin_spec(),
            final(self).all_tenants_spec() == old(self).all_tenants_spec(),
            final(self).popup_spec() == old(self).popup_spec(),
            final(self).selected_spec() == nav_target(key, old(self).selected_spec(), old(self).table_len_spec()),
            nav_key(key) ==> {
                &&& r is None
                &&& final(self).view_state_spec() == old(self).view_state_spec()
                &&& final(self).dialog_spec() == old(self).dialog_spec()
                &&& final(self).pending_spec() == old(self).pending_spec()
                &&& final(self).form_spec() == old(self).form_spec()
                &&& final(self).outbox_spec() == old(self).outbox_spec()
            },
            !nav_key(key) && key == Key::Enter ==> {
                &&& r is None
                &&& final(self).view_state_spec() == if old(self).selected_spec() < old(self).servers_spec().len() {
                    ViewState::Detail(old(self).servers_spec()[old(self).selected_spec() as int].id)
                } else {
                    old(self).view_state_spec()
                }
                &&& final(self).dialog_spec() == old(self).dialog_spec()
                &&& final(self).form_spec() == old(self).form_spec()
                &&& final(self).outbox_spec() == old(self).outbox_spec()
            },
            !nav_key(key) && key == Key::Char('c') ==> {
                &&& r == Some(Action::EnterFormMode)
                &&& final(self).form_spec() is Some
                &&& final(self).view_state_spec() == ViewState::Create
                &&& final(self).dialog_spec() == old(self).dialog_spec()
                &&& final(self).outbox_spec() == old(self).outbox_spec() + seq![
                    Action::FetchFlavors,
                    Action::FetchImages,
                    Action::FetchNetworks,
                    Action::FetchSecurityGroups,
                ]
            },
            !nav_key(key) && key == Key::Char('d') ==> {
                &&& r is None
                &&& final(self).view_state_spec() == old(self).view_state_spec()
                &&& final(self).form_spec() == old(self).form_spec()
                &&& final(self).outbox_spec() == old(self).outbox_spec()
                &&& if old(self).selected_spec() < old(self).servers_spec().len() {
                    let s = old(self).servers_spec()[old(self).selected_spec() as int];
                    &&& final(self).dialog_spec() matches Some(d) && d.message@ == "Delete server '"@ + s.name@ + "'?"@
                        && d.mode == crate::ui::confirm::ConfirmMode::TypeToConfirm(s.name) && d.details@.len() == 0
                    &&& final(self).pending_spec() == Some(PendingAction::Delete { id: s.id, name: s.name })
                } else {
                    &&& final(self).dialog_spec() == old(self).dialog_spec()
                    &&& final(self).pending_spec() == old(self).pending_spec()
                }
            },
            !nav_key(key) && key != Key::Enter && key != Key::Char('c') && key != Key::Char('d') ==> {
                &&& final(self).view_state_spec() == old(self).view_state_spec()
                &&& final(self).dialog_spec() == old(self).dialog_spec()
                &&& final(self).form_spec() == old(self).form_spec()
                &&& final(self).outbox_spec() == old(self).outbox_spec()
                &&& r == if key == Key::Char('r') {
                    Some(Action::FetchServers)
                } else if key == Key::Left {
                    Some(Action::FocusSidebar)
                } else if key == Key::Esc {
                    Some(Action::Back)
                } else {
                    None
                }
            },
    {
        if self.resource_list.handle_nav_key(key) {
            return None;
        }
        match key {
            Key::Enter => {
                let i = self.resource_list.selected_index();
                if i < self.servers.len() {
                    self.view_state = ViewState::Detail(self.servers[i].id.clone());
                }
                None
            },
            Key::Char('c') => {
                self.open_create_form();
                Some(Action::EnterFormMode)
            },
            Key::Char('d') => {
                let i = self.resource_list.selected_index();
                if i < self.servers.len() {
                    let name = self.servers[i].name.clone();
                    let id = self.servers[i].id.clone();
                    let message = cat3("Delete server '", name.as_str(), "'?");
                    let expected = name.clone();
                    self.confirm.open(ConfirmDialog::type_to_confirm(message, expected), PendingAction::Delete { id, name });
                }
                None
            },
            Key::Char('r') => Some(Action::FetchServers),
            Key::Left => Some(Action::FocusSidebar),
            Key::Esc => Some(Action::Back),
            _ => None,
        }
    }

    /// The server name shown in confirmations: that of the server in the
    /// detail view, or `unknown`.
    fn shown_server_name(&self) -> (r: String)
        ensures
            r@ == match self.view_state_spec() {
                ViewState::Detail(id) => name_or_unknown(self.servers_spec(), id@),
                _ => "unknown"@,
            },
    {
        match &self.view_state {
            ViewState::Detail(id) => match find_server(&self.servers, id.as_str()) {
                Some(i) => self.servers[i].name.clone(),
                None => String::from_str("unknown"),
            },
            _ => String::from_str("unknown"),
        }
    }

    /// A volume was chosen for attaching: ask to attach it to the server
    /// in the detail view. Nothing happens outside the detail view or for
    /// an unknown volume.
    pub fn handle_attach_volume_selected(&mut self, volume_id: String)
        requires
            old(self).inv(),
        ensures
            final(self).inv(),
            old(self).same_data(&*final(self)),
            final(self).view_state_spec() == old(self).view_state_spec(),
            final(self).form_spec() == old(self).form_spec(),
            final(self).popup_spec() == old(self).popup_spec(),
            final(self).popup_kind_spec() == old(self).popup_kind_spec(),
            final(self).pending_fip_spec() == old(self).pending_fip_spec(),
            final(self).outbox_spec() == old(self).outbox_spec(),
            attach_step(*old(self), volume_id@, *final(self)),
    {
        let server_id = match &self.view_state {
            ViewState::Detail(id) => id.clone(),
            _ => {
                return;
            },
        };
        let k = match find_volume_exec(volume_id.as_str(), self.cached_volumes.as_slice()) {
            Some(k) => k,
            None => {
                return;
            },
        };
        let server_name = self.shown_server_name();
        let vol = &self.cached_volumes[k];
        let name = opt_str_or(&vol.name, "-");
        let details = volume_lines_exec(vol);
        let message = cat4("Attach ", name.as_str(), " to '", server_name.as_str());
        let message = cat(message.as_str(), "'?");
        self.confirm.open(
            ConfirmDialog::yes_no_with_details(message, details),
            PendingAction::AttachVolume { volume_id, server_id, device: None },
        );
    }

    /// An attachment (`volume:attachment`) was chosen for detaching: ask to
    /// detach it. A volume that is the only disk of a bootable server must
    /// be confirmed by typing its name, and only admins may detach it.
    /// Nothing happens for an id without `:`, or an unknown volume or
    /// attachment.
    pub fn handle_detach_volume_selected(&mut self, composite_id: String)
        requires
            old(self).inv(),
        ensures
            final(self).inv(),
            old(self).same_data(&*final(self)),
            final(self).view_state_spec() == old(self).view_state_spec(),
            final(self).form_spec() == old(self).form_spec(),
            final(self).popup_spec() == old(self).popup_spec(),
            final(self).popup_kind_spec() == old(self).popup_kind_spec(),
            final(self).pending_fip_spec() == old(self).pending_fip_spec(),
            final(self).outbox_spec() == old(self).outbox_spec(),
            detach_step(*old(self), composite_id@, *final(self)),
    {
        let (volume_id, attachment_id) = match split_first_colon(composite_id.as_str()) {
            Some(p) => p,
            None => {
                return;
            },
        };
        let k = match find_volume_exec(volume_id.as_str(), self.cached_volumes.as_slice()) {
            Some(k) => k,
            None => {
                return;
            },
        };
        let a = match find_attachment_by_id_exec(attachment_id.as_str(), &self.cached_volumes[k].attachments) {
            Some(a) => a,
            None => {
                return;
            },
        };
        let vol = &self.cached_volumes[k];
        let att = &vol.attachments[a];
        let server_name = match find_server(&self.servers, att.server_id.as_str()) {
            Some(i) => self.servers[i].name.clone(),
            None => String::from_str("unknown"),
        };
        let name = opt_str_or(&vol.name, "-");
        let mut details = volume_lines_exec(vol);
        let ghost base = strs_view(details@);
        details.push(cat("  Device: ", att.device.as_str()));
        let device = att.device.clone();
        let att_server = att.server_id.clone();
        let is_boot = str_eq(vol.bootable.as_str(), "true") && vol.attachments.len() == 1;
        proof {
            assert(strs_view(details@) =~= base.push("  Device: "@ + device@));
        }
        if is_boot {
            if !self.is_admin {
                return;
            }
            let ghost with_device = strs_view(details@);
            details.push(String::from_str("  ⚠ BOOT VOLUME — server will become unbootable!"));
            proof {
                assert(strs_view(details@) =~= with_device.push("  ⚠ BOOT VOLUME — server will become unbootable!"@));
            }
            let message = cat3("Detach BOOT volume '", name.as_str(), "'? Type name to confirm:");
            let expected = name.clone();
            self.confirm.open(
                ConfirmDialog::type_to_confirm_with_details(message, expected, details),
                PendingAction::DetachVolume { volume_id, server_id: att_server, attachment_id },
            );
            return;
        }
        let head = cat4("Detach ", name.as_str(), " from '", server_name.as_str());
        let message = cat3(head.as_str(), "'? Device: ", device.as_str());
        self.confirm.open(
            ConfirmDialog::yes_no_with_details(message, details),
            PendingAction::DetachVolume { volume_id, server_id: att_server, attachment_id },
        );
    }

    /// A floating IP was chosen for association: in the detail view, it
    /// waits for a port and the server's ports are asked for.
    pub fn handle_fip_selected(&mut self, fip_id: String)
        requires
            old(self).inv(),
        ensures
            final(self).inv(),
            old(self).same_core(&*final(self)),
            final(self).view_state_spec() == old(self).view_state_spec(),
            final(self).form_spec() == old(self).form_spec(),
            final(self).popup_spec() == old(self).popup_spec(),
            final(self).popup_kind_spec() == old(self).popup_kind_spec(),
            fip_step(*old(self), fip_id@, *final(self)),
    {
        let server_id = match &self.view_state {
            ViewState::Detail(id) => id.clone(),
            _ => {
                return;
            },
        };
        self.pending_fip_id = Some(fip_id);
        self.pending_ports_server_id = Some(server_id.clone());
        self.loading_ports = true;
        self.outbox.push(Action::FetchPorts { server_id });
    }

    /// The association question for floating IP `k` and port `p`.
    fn association_dialog(&self, k: usize, p: usize) -> (d: ConfirmDialog)
        requires
            k < self.fips_spec().len(),
            p < self.ports_spec().len(),
            self.inv(),
        ensures
            is_association_dialog(d, *self, self.fips_spec()[k as int], self.port_labels_spec()[p as int]@),
    {
        let server_name = self.shown_server_name();
        let fip = &self.cached_floating_ips[k];
        let label = &self.cached_port_labels[p];
        let details = vec![
            cat("  Floating IP: ", fip.floating_ip_address.as_str()),
            cat("  Server: ", server_name.as_str()),
            cat("  Port: ", label.as_str()),
        ];
        proof {
            assert(strs_view(details@) =~= association_lines(fip.floating_ip_address@, server_name@, label@));
        }
        let head = cat4("Associate ", fip.floating_ip_address.as_str(), " to port ", label.as_str());
        ConfirmDialog::yes_no_with_details(cat(head.as_str(), "?"), details)
    }

    /// The ports of `server_id` arrived, labelled by `port_labels` (one per
    /// port). They are taken only while a floating IP waits for that
    /// server's ports: with none, a message says so and the IP stops
    /// waiting; with one, association with it is asked for at once; with
    /// more, a popup offers them.
    pub fn handle_ports_loaded(&mut self, server_id: &str, ports: Vec<Port>, port_labels: Vec<String>)
        requires
            old(self).inv(),
            port_labels@.len() == ports@.len(),
        ensures
            final(self).inv(),
            old(self).same_core(&*final(self)),
            final(self).view_state_spec() == old(self).view_state_spec(),
            final(self).form_spec() == old(self).form_spec(),
            final(self).pending_ports_server_spec() == old(self).pending_ports_server_spec(),
            !(old(self).pending_fip_spec() is Some && old(self).pending_ports_server_spec() == Some(server_id@)) ==> {
                &&& old(self).same_data(&*final(self))
                &&& final(self).dialog_spec() == old(self).dialog_spec()
                &&& final(self).pending_spec() == old(self).pending_spec()
                &&& final(self).popup_spec() == old(self).popup_spec()
                &&& final(self).popup_kind_spec() == old(self).popup_kind_spec()
                &&& final(self).pending_fip_spec() == old(self).pending_fip_spec()
                &&& final(self).outbox_spec() == old(self).outbox_spec()
            },
            old(self).pending_ports_server_spec() == Some(server_id@) ==> match old(self).pending_fip_spec() {
                None => true,
                Some(fid) => {
                    &&& final(self).ports_spec() == ports@
                    &&& final(self).port_labels_spec() == port_labels@
                    &&& !final(self).loading_ports_spec()
                    &&& if ports@.len() == 0 {
                        &&& final(self).outbox_spec() == old(self).outbox_spec().push(
                            Action::ShowToast { message: final(self).outbox_spec().last()->message },
                        )
                        &&& final(self).outbox_spec().last()->message@ == "No ports found for this server"@
                        &&& final(self).pending_fip_spec() is None
                        &&& final(self).dialog_spec() == old(self).dialog_spec()
                        &&& final(self).pending_spec() == old(self).pending_spec()
                        &&& final(self).popup_spec() == old(self).popup_spec()
                        &&& final(self).popup_kind_spec() == old(self).popup_kind_spec()
                    } else if ports@.len() == 1 {
                        &&& final(self).outbox_spec() == old(self).outbox_spec()
                        &&& final(self).pending_fip_spec() is None
                        &&& final(self).popup_spec() == old(self).popup_spec()
                        &&& final(self).popup_kind_spec() == old(self).popup_kind_spec()
                        &&& match find_fip_by_id(fid, old(self).fips_spec()) {
                            Some(f) => {
                                &&& final(self).dialog_spec() matches Some(d) && is_association_dialog(
                                    d,
                                    *old(self),
                                    f,
                                    port_labels@[0]@,
                                )
                                &&& final(self).pending_spec() matches Some(PendingAction::AssociateFloatingIp { fip_id, port_id })
                                    && fip_id@ == fid && port_id == ports@[0].id
                            },
                            None => final(self).dialog_spec() == old(self).dialog_spec() && final(self).pending_spec()
                                == old(self).pending_spec(),
                        }
                    } else {
                        &&& final(self).outbox_spec() == old(self).outbox_spec()
                        &&& final(self).pending_fip_spec() == old(self).pending_fip_spec()
                        &&& final(self).dialog_spec() == old(self).dialog_spec()
                        &&& final(self).pending_spec() == old(self).pending_spec()
                        &&& final(self).popup_spec() matches Some(p) && p.title@ == "Select Port"@ && items_view(p.items@)
                            == port_items(ports@, port_labels@)
                        &&& final(self).popup_kind_spec() == Some(DetailPopupKind::SelectPort)
                    }
                },
            },
    {
        let waiting = match (&self.pending_fip_id, &self.pending_ports_server_id) {
            (Some(_), Some(sid)) => str_eq(sid.as_str(), server_id),
            _ => false,
        };
        if !waiting {
            return;
        }
        let fip_id = match &self.pending_fip_id {
            Some(f) => f.clone(),
            None => {
                return;
            },
        };
        self.cached_ports = ports;
        self.cached_port_labels = port_labels;
        self.loading_ports = false;
        if self.cached_ports.len() == 0 {
            self.outbox.push(Action::ShowToast { message: String::from_str("No ports found for this server") });
            self.pending_fip_id = None;
            return;
        }
        if self.cached_ports.len() == 1 {
            match find_fip_by_id_exec(fip_id.as_str(), &self.cached_floating_ips) {
                Some(k) => {
                    let dialog = self.association_dialog(k, 0);
                    let port_id = self.cached_ports[0].id.clone();
                    self.confirm.open(dialog, PendingAction::AssociateFloatingIp { fip_id, port_id });
                },
                None => {},
            }
            self.pending_fip_id = None;
            return;
        }
        let items = build_port_items(&self.cached_ports, &self.cached_port_labels);
        self.select_popup = Some(SelectPopup::new("Select Port", items));
        self.popup_kind = Some(DetailPopupKind::SelectPort);
    }

    /// A port was chosen for the waiting floating IP: the IP stops
    /// waiting, and association is asked for when both are known.
    pub fn handle_port_selected(&mut self, port_id: String)
        requires
            old(self).inv(),
        ensures
            final(self).inv(),
            old(self).same_core(&*final(self)),
            final(self).view_state_spec() == old(self).view_state_spec(),
            final(self).form_spec() == old(self).form_spec(),
            final(self).popup_spec() == old(self).popup_spec(),
            final(self).popup_kind_spec() == old(self).popup_kind_spec(),
            port_step(*old(self), port_id@, *final(self)),
    {
        let mut taken: Option<String> = None;
        std::mem::swap(&mut taken, &mut self.pending_fip_id);
        let fip_id = match taken {
            Some(f) => f,
            None => {
                return;
            },
        };
        let p = match port_pos_exec(port_id.as_str(), &self.cached_ports) {
            Some(p) => p,
            None => {
                return;
            },
        };
        let k = match find_fip_by_id_exec(fip_id.as_str(), &self.cached_floating_ips) {
            Some(k) => k,
            None => {
                return;
            },
        };
        let dialog = self.association_dialog(k, p);
        let fid = self.cached_floating_ips[k].id.clone();
        self.confirm.open(dialog, PendingAction::AssociateFloatingIp { fip_id: fid, port_id });
    }

    /// What the open popup made of a key (the popup handles the keys
    /// itself): a chosen item is acted on as `popup_result_step` says, a
    /// dismissed popup closes. Without an open popup nothing happens.
    pub fn handle_popup_result(&mut self, result: SelectResult)
        requires
            old(self).inv(),
        ensures
            final(self).inv(),
            old(self).popup_spec() is None ==> {
                &&& old(self).same_data(&*final(self))
                &&& no_ui_change(*old(self), *final(self))
                &&& final(self).view_state_spec() == old(self).view_state_spec()
                &&& final(self).form_spec() == old(self).form_spec()
                &&& final(self).pending_fip_spec() == old(self).pending_fip_spec()
            },
            old(self).popup_spec() is Some ==> popup_result_step(result, *old(self), *final(self)),
    {
        if self.select_popup.is_none() {
            return;
        }
        match result {
            SelectResult::Selected(selected_id) => {
                let kind = self.popup_kind;
                self.select_popup = None;
                self.popup_kind = None;
                match kind {
                    Some(DetailPopupKind::AttachVolume) => self.handle_attach_volume_selected(selected_id),
                    Some(DetailPopupKind::DetachVolume) => self.handle_detach_volume_selected(selected_id),
                    Some(DetailPopupKind::AssociateFip) => self.handle_fip_selected(selected_id),
                    Some(DetailPopupKind::SelectPort) => self.handle_port_selected(selected_id),
                    _ => self.ask_resize(selected_id),
                }
            },
            SelectResult::Cancelled => {
                self.select_popup = None;
                self.popup_kind = None;
                self.pending_fip_id = None;
            },
            SelectResult::Pending => {},
        }
    }

    /// A flavor was chosen for resizing: in the detail view, ask to resize
    /// the server to it.
    fn ask_resize(&mut self, flavor_id: String)
        requires
            old(self).inv(),
        ensures
            final(self).inv(),
            old(self).same_data(&*final(self)),
            resize_step(*old(self), flavor_id@, *final(self)),
            final(self).view_state_spec() == old(self).view_state_spec(),
            final(self).form_spec() == old(self).form_spec(),
            final(self).popup_spec() == old(self).popup_spec(),
            final(self).popup_kind_spec() == old(self).popup_kind_spec(),
            final(self).pending_fip_spec() == old(self).pending_fip_spec(),
            final(self).outbox_spec() == old(self).outbox_spec(),
    {
        let id = match &self.view_state {
            ViewState::Detail(id) => id.clone(),
            _ => {
                return;
            },
        };
        let name = match find_flavor_exec(flavor_id.as_str(), &self.cached_flavors) {
            Some(k) => self.cached_flavors[k].name.clone(),
            None => flavor_id.clone(),
        };
        let message = cat3("Resize to ", name.as_str(), "?");
        let dialog = ConfirmDialog::yes_no(message);
        proof {
            assert(strs_view(dialog.details@) =~= Seq::<Seq<char>>::empty());
        }
        self.confirm.open(dialog, PendingAction::Resize { id, flavor_id });
    }

    /// Open a yes/no question `message` guarding `pending`.
    fn ask(&mut self, message: &str, pending: PendingAction)
        requires
            old(self).inv(),
        ensures
            final(self).inv(),
            old(self).same_data(&*final(self)),
            asks(*old(self), *final(self), message@, pending),
            final(self).view_state_spec() == old(self).view_state_spec(),
            final(self).form_spec() == old(self).form_spec(),
            final(self).pending_fip_spec() == old(self).pending_fip_spec(),
    {
        let dialog = ConfirmDialog::yes_no(String::from_str(message));
        proof {
            assert(strs_view(dialog.details@) =~= Seq::<Seq<char>>::empty());
        }
        self.confirm.open(dialog, pending);
    }

    /// Open a popup `title` offering `items` for `kind`.
    fn open_popup(&mut self, title: &str, items: Vec<SelectItem>, kind: DetailPopupKind)
        requires
            old(self).inv(),
        ensures
            final(self).inv(),
            old(self).same_data(&*final(self)),
            opens_popup(*old(self), *final(self), title@, items_view(items@), kind),
            final(self).view_state_spec() == old(self).view_state_spec(),
            final(self).form_spec() == old(self).form_spec(),
            final(self).pending_fip_spec() == old(self).pending_fip_spec(),
    {
        self.select_popup = Some(SelectPopup::new(title, items));
        self.popup_kind = Some(kind);
    }

    /// Queue a message for display.
    fn toast(&mut self, text: &str)
        requires
            old(self).inv(),
        ensures
            final(self).inv(),
            old(self).same_data(&*final(self)),
            toasts(*old(self), *final(self), text@),
            final(self).view_state_spec() == old(self).view_state_spec(),
            final(self).form_spec() == old(self).form_spec(),
            final(self).pending_fip_spec() == old(self).pending_fip_spec(),
    {
        self.outbox.push(Action::ShowToast { message: String::from_str(text) });
        proof {
            assert(self.outbox@.drop_last() =~= old(self).outbox@);
        }
    }

    /// React to a key in the detail view, as `detail_key_step` says. While
    /// a popup is open the popup has the keyboard and nothing happens here
    /// (its outcome goes to `handle_popup_result`).
    pub fn handle_detail_key(&mut self, key: Key) -> (r: Option<Action>)
        requires
            old(self).inv(),
        ensures
            final(self).inv(),
            old(self).popup_spec() is Some ==> {
                &&& r is None
                &&& old(self).same_data(&*final(self))
                &&& no_ui_change(*old(self), *final(self))
                &&& final(self).view_state_spec() == old(self).view_state_spec()
                &&& final(self).form_spec() == old(self).form_spec()
                &&& final(self).pending_fip_spec() == old(self).pending_fip_spec()
            },
            old(self).popup_spec() is None ==> detail_key_step(key, *old(self), *final(self), r),
    {
        if self.select_popup.is_some() {
            return None;
        }
        let detail = match &self.view_state {
            ViewState::Detail(id) => Some(id.clone()),
            _ => None,
        };
        let status = match &detail {
            Some(id) => match find_server(&self.servers, id.as_str()) {
                Some(i) => Some(i),
                None => None,
            },
            None => None,
        };
        match key {
            Key::Esc | Key::Char('q') | Key::Left => {
                self.view_state = ViewState::List;
                None
            },
            Key::Char('R') => {
                if let Some(id) = detail {
                    self.ask("Hard reboot this server?", PendingAction::Reboot { id, hard: true });
                }
                None
            },
            Key::Char('S') => {
                match detail {
                    Some(id) => Some(Action::StartServer { id }),
                    None => None,
                }
            },
            Key::Char('X') => {
                if let Some(id) = detail {
                    self.ask("Stop this server?", PendingAction::Stop { id });
                }
                None
            },
            Key::Char('F') => {
                if let Some(i) = status {
                    let st = self.servers[i].status.as_str();
                    if str_eq(st, "ACTIVE") || str_eq(st, "SHUTOFF") {
                        if self.cached_flavors.len() == 0 {
                            self.outbox.push(Action::FetchFlavors);
                        } else {
                            let items = build_flavor_items(
                                &self.cached_flavors,
                                self.servers[i].flavor.id.as_str(),
                                self.servers[i].flavor.disk,
                            );
                            self.open_popup("Select Flavor", items, DetailPopupKind::Resize);
                        }
                    }
                }
                None
            },
            Key::Char('M') => {
                if self.is_admin {
                    if let Some(id) = detail {
                        self.ask("Live migrate this server?", PendingAction::LiveMigrate { id });
                    }
                }
                None
            },
            Key::Char('C') => {
                if self.is_admin {
                    if let Some(id) = detail {
                        self.ask("Cold migrate this server?", PendingAction::ColdMigrate { id });
                    }
                }
                None
            },
            Key::Char('Y') | Key::Char('N') => {
                if let (Some(id), Some(i)) = (detail, status) {
                    if str_eq(self.servers[i].status.as_str(), "VERIFY_RESIZE") {
                        let resize = match &self.resize_pending {
                            Some(rp) => str_eq(rp.server_id.as_str(), id.as_str()),
                            None => false,
                        };
                        let confirm = match key {
                            Key::Char('Y') => true,
                            _ => false,
                        };
                        if confirm && resize {
                            self.ask("Confirm resize?", PendingAction::ConfirmResize { id });
                        } else if confirm {
                            self.ask("Confirm migration?", PendingAction::ConfirmMigrate { id });
                        } else if resize {
                            self.ask("Revert resize?", PendingAction::RevertResize { id });
                        } else {
                            self.ask("Revert migration?", PendingAction::RevertMigrate { id });
                        }
                    }
                }
                None
            },
            Key::Char('E') => {
                if self.is_admin {
                    if let (Some(id), Some(i)) = (detail, status) {
                        if str_eq(self.servers[i].status.as_str(), "ERROR") {
                            self.ask(
                                "Evacuate this server? Data on non-volume-backed instances may be lost.",
                                PendingAction::Evacuate { id },
                            );
                        }
                    }
                }
                None
            },
            Key::Char('A') => {
                let items = build_available_volume_items(&self.cached_volumes);
                if items.len() == 0 {
                    if self.cached_volumes.len() == 0 {
                        self.outbox.push(Action::FetchVolumes);
                    } else {
                        self.toast("No available volumes to attach");
                    }
                } else {
                    self.open_popup("Attach Volume", items, DetailPopupKind::AttachVolume);
                }
                None
            },
            Key::Char('x') => {
                if let Some(id) = detail {
                    let items = build_attached_volume_items(&self.cached_volumes, id.as_str());
                    if items.len() == 0 {
                        self.toast("No volumes attached to this server");
                    } else if items.len() == 1 {
                        let cid = items[0].id.clone();
                        self.handle_detach_volume_selected(cid);
                    } else {
                        self.open_popup("Detach Volume", items, DetailPopupKind::DetachVolume);
                    }
                }
                None
            },
            Key::Char('v') => Some(Action::Navigate(crate::models::common::Route::Volumes)),
            Key::Char('n') => Some(Action::Navigate(crate::models::common::Route::Networks)),
            Key::Char('s') => Some(Action::Navigate(crate::models::common::Route::SecurityGroups)),
            Key::Char('i') => Some(Action::Navigate(crate::models::common::Route::Images)),
            Key::Char('f') => {
                let items = build_available_fip_items(&self.cached_floating_ips);
                if items.len() == 0 {
                    if self.cached_floating_ips.len() == 0 {
                        self.outbox.push(Action::FetchFloatingIps);
                    } else {
                        self.toast("No unassociated floating IPs available");
                    }
                } else {
                    self.open_popup("Associate Floating IP", items, DetailPopupKind::AssociateFip);
                }
                None
            },
            _ => None,
        }
    }

    /// Store the servers and rebuild the table.
    fn take_servers(&mut self, servers: &Vec<Server>)
        requires
            old(self).inv(),
        ensures
            final(self).inv(),
            servers_eqv(final(self).servers_spec(), servers@),
            final(self).table_len_spec() == servers@.len(),
            no_ui_change(*old(self), *final(self)),
            final(self).view_state_spec() == old(self).view_state_spec(),
            final(self).form_spec() == old(self).form_spec(),
            final(self).pending_fip_spec() == old(self).pending_fip_spec(),
            final(self).admin_spec() == old(self).admin_spec(),
            final(self).all_tenants_spec() == old(self).all_tenants_spec(),
            final(self).resize_pending_spec() == old(self).resize_pending_spec(),
            final(self).loading_spec() == old(self).loading_spec(),
    {
        self.servers = copy_list_by(servers, Ghost(|a: Server, b: Server| a.eqv(&b)));
        let mut rows: Vec<Row> = Vec::new();
        let mut i: usize = 0;
        while i < self.servers.len()
            invariant
                i <= self.servers@.len(),
                rows_view(rows@) == server_rows_spec(self.servers@.take(i as int), self.all_tenants, self.is_admin),
            decreases self.servers@.len() - i,
        {
            let row = server_to_row_full(&self.servers[i], self.all_tenants, self.is_admin);
            let ghost before = rows@;
            rows.push(row);
            proof {
                assert(rows_view(rows@) =~= rows_view(before).push(row@));
                assert(server_rows_spec(self.servers@.take(i + 1), self.all_tenants, self.is_admin) =~= server_rows_spec(
                    self.servers@.take(i as int),
                    self.all_tenants,
                    self.is_admin,
                ).push(server_row_spec(self.servers@[i as int], self.all_tenants, self.is_admin)));
            }
            i = i + 1;
        }
        proof {
            assert(self.servers@.take(self.servers@.len() as int) =~= self.servers@);
            assert(rows_view(rows@).len() == rows@.len());
        }
        self.resource_list.set_rows(rows);
    }

    /// Cache dropdown options and give them to the open form's dropdown
    /// `name`.
    fn apply_event_options(&mut self, name: &str, opts: &Vec<SelectOption>)
        requires
            old(self).inv(),
        ensures
            final(self).inv(),
            old(self).same_data(&*final(self)),
            no_ui_change(*old(self), *final(self)),
            final(self).view_state_spec() == old(self).view_state_spec(),
            final(self).pending_fip_spec() == old(self).pending_fip_spec(),
            form_options_step(old(self).form_spec(), final(self).form_spec(), name@, opts@),
    {
        let copy = opts.clone();
        proof {
            assert forall|i: int| 0 <= i < opts@.len() implies copy@[i] == opts@[i] by {
                assert(cloned(opts@[i], copy@[i]));
            }
            assert(copy@ =~= opts@);
        }
        let mut slot: Option<FormWidget> = None;
        std::mem::swap(&mut slot, &mut self.form);
        match slot {
            Some(mut form) => {
                form.set_field_options(name, copy);
                self.form = Some(form);
            },
            None => {},
        }
    }

    /// Take in an event: loaded servers replace the list (dropping a
    /// resize that no longer waits), changes to servers reload them,
    /// resizes and migrations are tracked, loaded flavors, images,
    /// networks and security groups become the create form's options, and
    /// loaded volumes and floating IPs are kept for the detail view's
    /// popups. Ports arrive through `handle_ports_loaded`. A failed request
    /// is shown.
    pub fn handle_event(&mut self, event: &AppEvent)
        requires
            old(self).inv(),
        ensures
            final(self).inv(),
            final(self).view_state_spec() == old(self).view_state_spec(),
            final(self).dialog_spec() == old(self).dialog_spec(),
            final(self).pending_spec() == old(self).pending_spec(),
            final(self).popup_spec() == old(self).popup_spec(),
            final(self).popup_kind_spec() == old(self).popup_kind_spec(),
            final(self).pending_fip_spec() == old(self).pending_fip_spec(),
            final(self).admin_spec() == old(self).admin_spec(),
            final(self).all_tenants_spec() == old(self).all_tenants_spec(),
            match event {
                AppEvent::ServersLoaded(servers) => {
                    &&& servers_eqv(final(self).servers_spec(), servers@)
                    &&& final(self).table_len_spec() == servers@.len()
                    &&& !final(self).loading_spec()
                    &&& final(self).error_spec() is None
                    &&& final(self).resize_pending_spec() == match old(self).resize_pending_spec() {
                        Some(id) => if still_verify(servers@, id) { Some(id) } else { None },
                        None => None,
                    }
                    &&& final(self).outbox_spec() == old(self).outbox_spec()
                    &&& final(self).form_spec() == old(self).form_spec()
                },
                AppEvent::ServerDeleted { .. } | AppEvent::ServerRebooted { .. } | AppEvent::ServerStarted { .. }
                | AppEvent::ServerStopped { .. } | AppEvent::ServerCreated(_) | AppEvent::VolumeAttached { .. }
                | AppEvent::VolumeDetached { .. } | AppEvent::FloatingIpAssociated(_) => {
                    &&& old(self).same_data(&*final(self))
                    &&& final(self).form_spec() == old(self).form_spec()
                    &&& final(self).outbox_spec() == old(self).outbox_spec().push(Action::FetchServers)
                },
                AppEvent::ServerResized { id } => {
                    &&& final(self).resize_pending_spec() == Some(id@)
                    &&& final(self).migration_spec() == old(self).migration_spec()
                    &&& final(self).servers_spec() == old(self).servers_spec()
                    &&& final(self).form_spec() == old(self).form_spec()
                    &&& final(self).outbox_spec() == old(self).outbox_spec()
                },
                AppEvent::ResizeConfirmed { .. } | AppEvent::ResizeReverted { .. } => {
                    &&& final(self).resize_pending_spec() is None
                    &&& final(self).migration_spec() == old(self).migration_spec()
                    &&& final(self).servers_spec() == old(self).servers_spec()
                    &&& final(self).form_spec() == old(self).form_spec()
                    &&& final(self).outbox_spec() == old(self).outbox_spec()
                },
                AppEvent::MigrationProgressLoaded { server_id, migration } => {
                    &&& final(self).migration_spec() matches Some(p) && p.0@ == server_id@ && p.1 == *migration
                    &&& final(self).resize_pending_spec() == old(self).resize_pending_spec()
                    &&& final(self).servers_spec() == old(self).servers_spec()
                    &&& final(self).form_spec() == old(self).form_spec()
                    &&& final(self).outbox_spec() == old(self).outbox_spec()
                },
                AppEvent::ServerLiveMigrated { .. } | AppEvent::MigrationConfirmed { .. }
                | AppEvent::MigrationReverted { .. } | AppEvent::ServerEvacuated { .. }
                | AppEvent::MigrationPollingStopped { .. } => {
                    &&& final(self).migration_spec() is None
                    &&& final(self).resize_pending_spec() == old(self).resize_pending_spec()
                    &&& final(self).servers_spec() == old(self).servers_spec()
                    &&& final(self).form_spec() == old(self).form_spec()
                    &&& final(self).outbox_spec() == old(self).outbox_spec()
                },
                AppEvent::FlavorsLoaded(flavors) => {
                    &&& final(self).flavors_spec() == flavors@
                    &&& opts_view(final(self).cached_opts_spec().0) == flavors@.map_values(|f: Flavor| flavor_option(f))
                    &&& form_options_step(
                        old(self).form_spec(),
                        final(self).form_spec(),
                        "Flavor"@,
                        final(self).cached_opts_spec().0,
                    )
                    &&& final(self).servers_spec() == old(self).servers_spec()
                    &&& final(self).outbox_spec() == old(self).outbox_spec()
                },
                AppEvent::ImagesLoaded(images) => {
                    &&& opts_view(final(self).cached_opts_spec().1) == images@.map_values(|i: Image| (i.id@, i.name@))
                    &&& form_options_step(
                        old(self).form_spec(),
                        final(self).form_spec(),
                        "Image"@,
                        final(self).cached_opts_spec().1,
                    )
                    &&& final(self).servers_spec() == old(self).servers_spec()
                    &&& final(self).outbox_spec() == old(self).outbox_spec()
                },
                AppEvent::NetworksLoaded(networks) => {
                    &&& opts_view(final(self).cached_opts_spec().2) == networks@.map_values(|n: Network| (n.id@, n.name@))
                    &&& form_options_step(
                        old(self).form_spec(),
                        final(self).form_spec(),
                        "Network"@,
                        final(self).cached_opts_spec().2,
                    )
                    &&& final(self).servers_spec() == old(self).servers_spec()
                    &&& final(self).outbox_spec() == old(self).outbox_spec()
                },
                AppEvent::SecurityGroupsLoaded(sgs) => {
                    &&& opts_view(final(self).cached_opts_spec().3) == sgs@.map_values(|g: SecurityGroup| (g.id@, g.name@))
                    &&& form_options_step(
                        old(self).form_spec(),
                        final(self).form_spec(),
                        "Security Group"@,
                        final(self).cached_opts_spec().3,
                    )
                    &&& final(self).servers_spec() == old(self).servers_spec()
                    &&& final(self).outbox_spec() == old(self).outbox_spec()
                },
                AppEvent::VolumesLoaded(vols) => {
                    &&& volumes_eqv(final(self).volumes_spec(), vols@)
                    &&& final(self).servers_spec() == old(self).servers_spec()
                    &&& final(self).form_spec() == old(self).form_spec()
                    &&& final(self).outbox_spec() == old(self).outbox_spec()
                },
                AppEvent::FloatingIpsLoaded(fips) => {
                    &&& final(self).fips_spec() == fips@
                    &&& final(self).servers_spec() == old(self).servers_spec()
                    &&& final(self).form_spec() == old(self).form_spec()
                    &&& final(self).outbox_spec() == old(self).outbox_spec()
                },
                AppEvent::ApiError { operation, message } => {
                    &&& final(self).error_spec() == Some(error_text(operation@, message@))
                    &&& !final(self).loading_spec()
                    &&& !final(self).loading_ports_spec()
                    &&& final(self).servers_spec() == old(self).servers_spec()
                    &&& final(self).form_spec() == old(self).form_spec()
                    &&& final(self).outbox_spec() == old(self).outbox_spec()
                },
                _ => {
                    &&& old(self).same_data(&*final(self))
                    &&& final(self).form_spec() == old(self).form_spec()
                    &&& final(self).outbox_spec() == old(self).outbox_spec()
                },
            },
    {
        match event {
            AppEvent::ServersLoaded(servers) => {
                self.take_servers(servers);
                self.loading = false;
                self.error_message = None;
                let still = match &self.resize_pending {
                    Some(rp) => match find_server(servers, rp.server_id.as_str()) {
                        Some(i) => str_eq(servers[i].status.as_str(), "VERIFY_RESIZE"),
                        None => false,
                    },
                    None => true,
                };
                if !still {
                    self.resize_pending = None;
                }
            },
            AppEvent::ServerDeleted { .. } | AppEvent::ServerRebooted { .. } | AppEvent::ServerStarted { .. }
            | AppEvent::ServerStopped { .. } | AppEvent::ServerCreated(_) | AppEvent::VolumeAttached { .. }
            | AppEvent::VolumeDetached { .. } | AppEvent::FloatingIpAssociated(_) => {
                self.outbox.push(Action::FetchServers);
            },
            AppEvent::ServerResized { id } => {
                self.resize_pending = Some(ResizePendingInfo { server_id: id.clone() });
            },
            AppEvent::ResizeConfirmed { .. } | AppEvent::ResizeReverted { .. } => {
                self.resize_pending = None;
            },
            AppEvent::MigrationProgressLoaded { server_id, migration } => {
                self.migration_progress = Some((server_id.clone(), migration.clone()));
            },
            AppEvent::ServerLiveMigrated { .. } | AppEvent::MigrationConfirmed { .. }
            | AppEvent::MigrationReverted { .. } | AppEvent::ServerEvacuated { .. }
            | AppEvent::MigrationPollingStopped { .. } => {
                self.migration_progress = None;
            },
            AppEvent::FlavorsLoaded(flavors) => {
                proof {
                    assert forall|a: Flavor, b: Flavor| #[trigger] cloned(a, b) implies a == b by {}
                }
                self.cached_flavors = copy_list(flavors);
                let mut opts: Vec<SelectOption> = Vec::new();
                let mut i: usize = 0;
                while i < flavors.len()
                    invariant
                        i <= flavors@.len(),
                        opts_view(opts@) == flavors@.take(i as int).map_values(|f: Flavor| flavor_option(f)),
                    decreases flavors@.len() - i,
                {
                    let f = &flavors[i];
                    let head = cat4(f.name.as_str(), " (", u64_text(f.vcpus as u64).as_str(), "vCPU/");
                    let mid = cat4(head.as_str(), u64_text(f.ram as u64).as_str(), "MB/", u64_text(f.disk as u64).as_str());
                    let display = cat(mid.as_str(), "GB)");
                    let opt = SelectOption::new(f.id.as_str(), display.as_str());
                    let ghost before = opts@;
                    opts.push(opt);
                    proof {
                        assert(opts_view(opts@) =~= opts_view(before).push((opt.value@, opt.display@)));
                        assert(flavors@.take(i + 1).map_values(|f: Flavor| flavor_option(f)) =~= flavors@.take(
                            i as int,
                        ).map_values(|f: Flavor| flavor_option(f)).push(flavor_option(flavors@[i as int])));
                    }
                    i = i + 1;
                }
                proof {
                    assert(flavors@.take(flavors@.len() as int) =~= flavors@);
                }
                self.apply_event_options("Flavor", &opts);
                self.cached_flavor_opts = opts;
            },
            AppEvent::ImagesLoaded(images) => {
                let mut opts: Vec<SelectOption> = Vec::new();
                let mut i: usize = 0;
                while i < images.len()
                    invariant
                        i <= images@.len(),
                        opts_view(opts@) == images@.take(i as int).map_values(|x: Image| (x.id@, x.name@)),
                    decreases images@.len() - i,
                {
                    let opt = SelectOption::new(images[i].id.as_str(), images[i].name.as_str());
                    let ghost before = opts@;
                    opts.push(opt);
                    proof {
                        assert(opts_view(opts@) =~= opts_view(before).push((opt.value@, opt.display@)));
                        assert(images@.take(i + 1).map_values(|x: Image| (x.id@, x.name@)) =~= images@.take(
                            i as int,
                        ).map_values(|x: Image| (x.id@, x.name@)).push((images@[i as int].id@, images@[i as int].name@)));
                    }
                    i = i + 1;
                }
                proof {
                    assert(images@.take(images@.len() as int) =~= images@);
                }
                self.apply_event_options("Image", &opts);
                self.cached_image_opts = opts;
            },
            AppEvent::NetworksLoaded(networks) => {
                let mut opts: Vec<SelectOption> = Vec::new();
                let mut i: usize = 0;
                while i < networks.len()
                    invariant
                        i <= networks@.len(),
                        opts_view(opts@) == networks@.take(i as int).map_values(|x: Network| (x.id@, x.name@)),
                    decreases networks@.len() - i,
                {
                    let opt = SelectOption::new(networks[i].id.as_str(), networks[i].name.as_str());
                    let ghost before = opts@;
                    opts.push(opt);
                    proof {
                        assert(opts_view(opts@) =~= opts_view(before).push((opt.value@, opt.display@)));
                        assert(networks@.take(i + 1).map_values(|x: Network| (x.id@, x.name@)) =~= networks@.take(
                            i as int,
                        ).map_values(|x: Network| (x.id@, x.name@)).push((networks@[i as int].id@, networks@[i as int].name@)));
                    }
                    i = i + 1;
                }
                proof {
                    assert(networks@.take(networks@.len() as int) =~= networks@);
                }
                self.apply_event_options("Network", &opts);
                self.cached_network_opts = opts;
            },
            AppEvent::SecurityGroupsLoaded(sgs) => {
                let mut opts: Vec<SelectOption> = Vec::new();
                let mut i: usize = 0;
                while i < sgs.len()
                    invariant
                        i <= sgs@.len(),
                        opts_view(opts@) == sgs@.take(i as int).map_values(|x: SecurityGroup| (x.id@, x.name@)),
                    decreases sgs@.len() - i,
                {
                    let opt = SelectOption::new(sgs[i].id.as_str(), sgs[i].name.as_str());
                    let ghost before = opts@;
                    opts.push(opt);
                    proof {
                        assert(opts_view(opts@) =~= opts_view(before).push((opt.value@, opt.display@)));
                        assert(sgs@.take(i + 1).map_values(|x: SecurityGroup| (x.id@, x.name@)) =~= sgs@.take(
                            i as int,
                        ).map_values(|x: SecurityGroup| (x.id@, x.name@)).push((sgs@[i as int].id@, sgs@[i as int].name@)));
                    }
                    i = i + 1;
                }
                proof {
                    assert(sgs@.take(sgs@.len() as int) =~= sgs@);
                }
                self.apply_event_options("Security Group", &opts);
                self.cached_sg_opts = opts;
            },
            AppEvent::VolumesLoaded(vols) => {
                self.cached_volumes = copy_list_by(vols, Ghost(|a: Volume, b: Volume| a.eqv(&b)));
            },
            AppEvent::FloatingIpsLoaded(fips) => {
                proof {
                    assert forall|a: FloatingIp, b: FloatingIp| #[trigger] cloned(a, b) implies a == b by {}
                }
                self.cached_floating_ips = copy_list(fips);
            },
            AppEvent::ApiError { operation, message } => {
                self.error_message = Some(format_error(operation, message));
                self.loading = false;
                self.loading_ports = false;
            },
            _ => {},
        }
    }

    /// The key help of the view shown.
    pub fn help_hint(&self) -> (r: &'static str)
        ensures
            r@ == match self.view_state_spec() {
                ViewState::List => "Enter:Detail c:Create d:Delete r:Refresh"@,
                ViewState::Detail(id) => detail_hint(
                    match server_by_id(self.servers_spec(), id@) {
                        Some(s) => Some(s.status@),
                        None => None,
                    },
                    self.admin_spec(),
                ),
                ViewState::Create => "Esc:Cancel Tab:Next Enter:Submit"@,
            },
    {
        match &self.view_state {
            ViewState::List => "Enter:Detail c:Create d:Delete r:Refresh",
            ViewState::Detail(id) => {
                let (verify, error) = match find_server(&self.servers, id.as_str()) {
                    Some(i) => (
                        str_eq(self.servers[i].status.as_str(), "VERIFY_RESIZE"),
                        str_eq(self.servers[i].status.as_str(), "ERROR"),
                    ),
                    None => (false, false),
                };
                if verify && self.is_admin {
                    "Esc:Back R:Reboot S:Start X:Stop F:Resize A:AttachVol x:DetachVol f:AssocFIP M:Migrate C:Cold Y:Confirm N:Revert | v:Vol n:Net s:SG i:Img"
                } else if verify {
                    "Esc:Back R:Reboot S:Start X:Stop F:Resize A:AttachVol x:DetachVol f:AssocFIP Y:Confirm N:Revert | v:Vol n:Net s:SG i:Img"
                } else if error && self.is_admin {
                    "Esc:Back R:Reboot S:Start X:Stop F:Resize A:AttachVol x:DetachVol f:AssocFIP M:Migrate C:Cold E:Evacuate | v:Vol n:Net s:SG i:Img"
                } else if self.is_admin {
                    "Esc:Back R:Reboot S:Start X:Stop F:Resize A:AttachVol x:DetachVol f:AssocFIP M:Migrate C:Cold | v:Vol n:Net s:SG i:Img"
                } else {
                    "Esc:Back R:Reboot S:Start X:Stop F:Resize A:AttachVol x:DetachVol f:AssocFIP | v:Vol n:Net s:SG i:Img"
                }
            },
            ViewState::Create => "Esc:Cancel Tab:Next Enter:Submit",
        }
    }

    /// The title above the content: the server's name in the detail view
    /// (`...` while unknown), the form's title while creating.
    pub fn content_title(&self) -> (r: Option<String>)
        ensures
            match self.view_state_spec() {
                ViewState::List => r is None,
                ViewState::Detail(id) => r is Some && r->0@ == "Server: "@ + match server_by_id(
                    self.servers_spec(),
                    id@,
                ) {
                    Some(s) => s.name@,
                    None => "..."@,
                },
                ViewState::Create => r is Some && r->0@ == "Create Server"@,
            },
    {
        match &self.view_state {
            ViewState::List => None,
            ViewState::Detail(id) => {
                match find_server(&self.servers, id.as_str()) {
                    Some(i) => Some(cat("Server: ", self.servers[i].name.as_str())),
                    None => Some(cat("Server: ", "...")),
                }
            },
            ViewState::Create => Some(String::from_str("Create Server")),
        }
    }
}

} // verus!
