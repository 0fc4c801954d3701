pub mod view_model;

use vstd::prelude::*;
use crate::action::Action;
use crate::event::AppEvent;
use crate::models::cinder::{volumes_eqv, Volume, VolumeAttachment};
use crate::models::nova::{servers_eqv, Server};
use crate::module::{copy_list_by, error_text, format_error, confirm_answer, ConfirmHandler, PendingAction, ViewState};
use crate::port::types::VolumeCreateParams;
use crate::text::{cat, cat3, cat4, char_prefix, dec, take_chars, non_empty, opt_or, opt_str_or, opt_view, str_eq, strs_view, u64_text};
use crate::ui::form::{FormAction, as_number, as_text, form_lookup, text_field, u32_field, FormValue, FormWidget};
use crate::ui::confirm::{is_typed, is_yes_no, ConfirmDialog};
use crate::ui::key::Key;
use crate::ui::select_popup::{items_view, HintView, ItemHint, ItemView, SelectItem, SelectPopup, SelectResult};
use crate::module::floating_ip::{build_server_items, char_in, server_items};
use crate::module::server::{find_server, server_by_id};
use crate::module::server::items::{find_attachment_by_id, find_attachment_by_id_exec};
use crate::ui::resource_list::{kept_selection, nav_key, nav_target, rows_view, ResourceList, Row, RowView};
use self::view_model::{volume_create_defs, volume_row_spec, volume_to_row};

verus! {

/// The text typed into a field, when it is not empty.
fn typed_field(values: &Vec<(String, FormValue)>, name: &str) -> (r: Option<String>)
    ensures
        opt_view(r) == non_empty(as_text(form_lookup(values@, name@))),
{
    match text_field(values, name) {
        Some(s) => if s.unicode_len() > 0 {
            Some(s)
        } else {
            None
        },
        None => None,
    }
}

/// Whether `p` is what a submitted volume form with `values` asks for.
pub open spec fn volume_form_params(values: Seq<(String, FormValue)>, p: VolumeCreateParams) -> bool {
    &&& p.name@ == match as_text(form_lookup(values, "Name"@)) {
        Some(s) => s,
        None => Seq::empty(),
        }
    &&& p.size_gb as nat == match as_number(form_lookup(values, "Size (GB)"@), u32::MAX as nat) {
        Some(n) => n,
        None => 1,
        }
    &&& opt_view(p.volume_type) == non_empty(as_text(form_lookup(values, "Type"@)))
    &&& opt_view(p.description) == non_empty(as_text(form_lookup(values, "Description"@)))
    &&& opt_view(p.availability_zone) == non_empty(as_text(form_lookup(values, "Availability Zone"@)))
}

/// The parameters a submitted volume form asks for: the name (empty when
/// missing), the size (1 when missing or not a number), and the type,
/// description and availability zone when typed.
pub fn volume_params_from_form(values: &Vec<(String, FormValue)>) -> (p: VolumeCreateParams)
    ensures
        volume_form_params(values@, p),
{
    let name = match text_field(values, "Name") {
        Some(s) => s,
        None => String::new(),
    };
    let size_gb = match u32_field(values, "Size (GB)") {
        Some(n) => n,
        None => 1,
    };
    let volume_type = typed_field(values, "Type");
    let description = typed_field(values, "Description");
    let availability_zone = typed_field(values, "Availability Zone");
    VolumeCreateParams { name, size_gb, volume_type, description, availability_zone }
}

/// The detail lines of a volume in a confirmation: name, size, type and
/// availability zone (`-` when unknown).
pub open spec fn volume_lines_spec(v: Volume) -> Seq<Seq<char>> {
    seq![
        "  Volume: "@ + opt_or(v.name, "-"@),
        "  Size: "@ + dec(v.size as nat) + " GB"@,
        "  Type: "@ + opt_or(v.volume_type, "-"@),
        "  AZ: "@ + opt_or(v.availability_zone, "-"@),
    ]
}

/// The detail lines of a volume in a confirmation.
pub fn volume_detail_lines(vol: &Volume) -> (r: Vec<String>)
    ensures
        strs_view(r@) == volume_lines_spec(*vol),
{
    let r = vec![
        cat("  Volume: ", opt_str_or(&vol.name, "-").as_str()),
        cat3("  Size: ", u64_text(vol.size).as_str(), " GB"),
        cat("  Type: ", opt_str_or(&vol.volume_type, "-").as_str()),
        cat("  AZ: ", opt_str_or(&vol.availability_zone, "-").as_str()),
    ];
    proof {
        assert(strs_view(r@) =~= volume_lines_spec(*vol));
    }
    r
}

/// The detail lines of an attach confirmation: name, size, type and the
/// server.
pub open spec fn attach_lines_spec(v: Volume, server_name: Seq<char>) -> Seq<Seq<char>> {
    seq![
        "  Volume: "@ + opt_or(v.name, "-"@),
        "  Size: "@ + dec(v.size as nat) + " GB"@,
        "  Type: "@ + opt_or(v.volume_type, "-"@),
        "  Server: "@ + server_name,
    ]
}

/// The detail lines of an attach confirmation.
pub fn volume_attach_detail_lines(vol: &Volume, server_name: &str) -> (r: Vec<String>)
    ensures
        strs_view(r@) == attach_lines_spec(*vol, server_name@),
{
    let r = vec![
        cat("  Volume: ", opt_str_or(&vol.name, "-").as_str()),
        cat3("  Size: ", u64_text(vol.size).as_str(), " GB"),
        cat("  Type: ", opt_str_or(&vol.volume_type, "-").as_str()),
        cat("  Server: ", server_name),
    ];
    proof {
        assert(strs_view(r@) =~= attach_lines_spec(*vol, server_name@));
    }
    r
}

/// The detail lines of a detach confirmation: name, size, type,
/// availability zone, device and server.
pub open spec fn detach_lines_spec(v: Volume, server_name: Seq<char>, device: Seq<char>) -> Seq<Seq<char>> {
    volume_lines_spec(v) + seq!["  Device: "@ + device, "  Server: "@ + server_name]
}

/// The detail lines of a detach confirmation.
pub fn volume_detach_detail_lines(vol: &Volume, server_name: &str, device: &str) -> (r: Vec<String>)
    ensures
        strs_view(r@) == detach_lines_spec(*vol, server_name@, device@),
{
    let mut r = volume_detail_lines(vol);
    let ghost before = strs_view(r@);
    r.push(cat("  Device: ", device));
    r.push(cat("  Server: ", server_name));
    proof {
        assert(strs_view(r@) =~= detach_lines_spec(*vol, server_name@, device@));
    }
    r
}

/// The rows of a list of volumes.
pub open spec fn volume_rows_spec(items: Seq<Volume>) -> Seq<RowView> {
    items.map_values(|x: Volume| volume_row_spec(x))
}

/// The table rows of a list of volumes.
fn volume_rows(items: &Vec<Volume>) -> (r: Vec<Row>)
    ensures
        rows_view(r@) == volume_rows_spec(items@),
{
    let mut rows: Vec<Row> = Vec::new();
    let mut i: usize = 0;
    while i < items.len()
        invariant
            i <= items@.len(),
            rows_view(rows@) == volume_rows_spec(items@.subrange(0, i as int)),
        decreases items@.len() - i,
    {
        let row = volume_to_row(&items[i]);
        let ghost before = rows@;
        rows.push(row);
        proof {
            assert(rows_view(rows@) =~= rows_view(before).push(row@));
            assert(volume_rows_spec(items@.subrange(0, i + 1)) =~= volume_rows_spec(items@.subrange(0, i as int)).push(volume_row_spec(items@[i as int])));
        }
        i = i + 1;
    }
    proof {
        assert(items@.subrange(0, items@.len() as int) =~= items@);
    }
    rows
}

/// The first volume with the given ID.
pub open spec fn find_volume(items: Seq<Volume>, id: Seq<char>) -> Option<Volume>
    decreases items.len(),
{
    if items.len() == 0 {
        None
    } else if items[0].id@ == id {
        Some(items[0])
    } else {
        find_volume(items.drop_first(), id)
    }
}

/// The name of the server with `id` among `servers`, or `unknown`.
pub open spec fn server_name_or_unknown(servers: Seq<Server>, id: Seq<char>) -> Seq<char> {
    match server_by_id(servers, id) {
        Some(s) => s.name@,
        None => "unknown"@,
    }
}

/// The name a volume goes by when it is deleted: its name, else the first
/// eight characters of its ID.
pub open spec fn delete_name(v: Volume) -> Seq<char> {
    match v.name {
        Some(n) => n@,
        None => take_chars(v.id@, 8),
    }
}

/// The popup items for choosing one of a volume's attachments: its ID,
/// labelled with the server's name (or `unknown`) and the device.
pub open spec fn attachment_choices(servers: Seq<Server>, atts: Seq<VolumeAttachment>) -> Seq<ItemView> {
    atts.map_values(
        |a: VolumeAttachment|
            ItemView {
                id: a.id@,
                label: server_name_or_unknown(servers, a.server_id@) + " ("@ + a.device@ + ")"@,
                hint: HintView::Normal,
            },
    )
}

/// The name of the server with `id`, or `unknown`.
fn server_name_for(servers: &Vec<Server>, id: &str) -> (r: String)
    ensures
        r@ == server_name_or_unknown(servers@, id@),
{
    match find_server(servers, id) {
        Some(i) => servers[i].name.clone(),
        None => String::from_str("unknown"),
    }
}

/// The popup items for choosing one of the attachments `atts`.
fn build_attachment_items(servers: &Vec<Server>, atts: &Vec<VolumeAttachment>) -> (r: Vec<SelectItem>)
    ensures
        items_view(r@) == attachment_choices(servers@, atts@),
{
    let mut out: Vec<SelectItem> = Vec::new();
    let mut i: usize = 0;
    while i < atts.len()
        invariant
            i <= atts@.len(),
            items_view(out@) == attachment_choices(servers@, atts@.take(i as int)),
        decreases atts@.len() - i,
    {
        let a = &atts[i];
        let name = server_name_for(servers, a.server_id.as_str());
        let item = SelectItem {
            id: a.id.clone(),
            label: cat4(name.as_str(), " (", a.device.as_str(), ")"),
            hint: ItemHint::Normal,
        };
        let ghost before = out@;
        out.push(item);
        proof {
            assert(items_view(out@) =~= items_view(before).push(item.view()));
            assert(attachment_choices(servers@, atts@.take(i + 1)) =~= attachment_choices(servers@, atts@.take(i as int)).push(item.view()));
        }
        i = i + 1;
    }
    proof {
        assert(atts@.take(atts@.len() as int) =~= atts@);
    }
    out
}

/// Where the first volume with id `id` is.
fn volume_index(items: &Vec<Volume>, id: &str) -> (r: Option<usize>)
    ensures
        match r {
            Some(j) => j < items@.len() && find_volume(items@, id@) == Some(items@[j as int]),
            None => find_volume(items@, id@) is None,
        },
{
    let n = items.len();
    let mut j: usize = 0;
    proof {
        assert(items@.skip(0) =~= items@);
    }
    while j < n
        invariant
            n == items@.len(),
            j <= n,
            find_volume(items@, id@) == find_volume(items@.skip(j as int), id@),
        decreases n - j,
    {
        let ghost rest = items@.skip(j as int);
        proof {
            assert(rest[0] == items@[j as int]);
            assert(rest.drop_first() =~= items@.skip(j + 1));
        }
        if str_eq(items[j].id.as_str(), id) {
            return Some(j);
        }
        j = j + 1;
    }
    None
}

/// The volume screen: the volumes, their table, the servers offered for
/// attaching, the create form, the confirmations, and the requests waiting
/// to be sent.
pub struct VolumeModule {
    view_state: ViewState,
    volumes: Vec<Volume>,
    cached_servers: Vec<Server>,
    loading: bool,
    error_message: Option<String>,
    is_admin: bool,
    confirm: ConfirmHandler,
    resource_list: ResourceList,
    form: Option<FormWidget>,
    all_tenants: bool,
    select_popup: Option<SelectPopup>,
    keymap_hints_shown: Vec<char>,
    outbox: Vec<Action>,
}

impl VolumeModule {
    /// The view shown.
    pub closed spec fn view_state_spec(&self) -> ViewState {
        self.view_state
    }

    /// The volumes held.
    pub closed spec fn volumes_spec(&self) -> Seq<Volume> {
        self.volumes@
    }

    /// Whether a load is outstanding.
    pub closed spec fn loading_spec(&self) -> bool {
        self.loading
    }

    /// The last error shown.
    pub closed spec fn error_spec(&self) -> Option<Seq<char>> {
        match self.error_message {
            Some(e) => Some(e@),
            None => None,
        }
    }

    /// Whether the user has the admin role.
    pub closed spec fn admin_spec(&self) -> bool {
        self.is_admin
    }

    /// Whether the form is open.
    pub closed spec fn form_open_spec(&self) -> bool {
        self.form is Some
    }

    /// Whether a confirmation dialog is open.
    pub closed spec fn confirm_spec(&self) -> bool {
        self.confirm.dialog is Some
    }

    /// The action the open confirmation guards.
    pub closed spec fn pending_spec(&self) -> Option<PendingAction> {
        self.confirm.pending
    }

    /// Whether the resources of all projects are shown.
    pub closed spec fn all_tenants_spec(&self) -> bool {
        self.all_tenants
    }

    /// The requests waiting to be sent, oldest first.
    pub closed spec fn outbox_spec(&self) -> Seq<Action> {
        self.outbox@
    }

    /// The selected row.
    pub closed spec fn selected_spec(&self) -> nat {
        self.resource_list.selected_spec()
    }

    /// The number of rows in the table.
    pub closed spec fn table_len_spec(&self) -> nat {
        self.resource_list.len_spec()
    }

    /// The servers offered when attaching.
    pub closed spec fn servers_spec(&self) -> Seq<Server> {
        self.cached_servers@
    }

    /// The open selection popup.
    pub closed spec fn popup_spec(&self) -> Option<SelectPopup> {
        self.select_popup
    }

    /// The keys whose moved-binding hint was already shown.
    pub closed spec fn hints_spec(&self) -> Seq<char> {
        self.keymap_hints_shown@
    }

    /// The open confirmation dialog.
    pub closed spec fn dialog_spec(&self) -> Option<ConfirmDialog> {
        self.confirm.dialog
    }

    /// The volume the detail view shows, when it is held.
    pub open spec fn detail_volume_spec(&self) -> Option<Volume> {
        match self.view_state_spec() {
            ViewState::Detail(id) => find_volume(self.volumes_spec(), id@),
            _ => None,
        }
    }

    /// `b` holds what `a` holds: the same volumes, servers, table, views,
    /// flags, form, popup and hints.
    pub open spec fn same_data(a: VolumeModule, b: VolumeModule) -> bool {
        &&& b.volumes_spec() == a.volumes_spec()
        &&& b.servers_spec() == a.servers_spec()
        &&& b.admin_spec() == a.admin_spec()
        &&& b.view_state_spec() == a.view_state_spec()
        &&& b.selected_spec() == a.selected_spec()
        &&& b.table_len_spec() == a.table_len_spec()
        &&& b.form_open_spec() == a.form_open_spec()
        &&& b.all_tenants_spec() == a.all_tenants_spec()
        &&& b.loading_spec() == a.loading_spec()
        &&& b.error_spec() == a.error_spec()
        &&& b.hints_spec() == a.hints_spec()
    }

    /// What asking to detach the attachment `att_id` of `v` does: nothing
    /// for an unknown attachment; for the only attachment of a boot volume,
    /// a note that the admin role is needed, or (for an admin) a dialog in
    /// which the volume's name must be typed; otherwise a yes/no dialog.
    /// The dialogs show the volume, device and server.
    pub open spec fn detach_asked(a: VolumeModule, b: VolumeModule, v: Volume, att_id: Seq<char>) -> bool {
        match find_attachment_by_id(att_id, v.attachments@) {
            None => b.outbox_spec() == a.outbox_spec() && b.dialog_spec() == a.dialog_spec() && b.pending_spec() == a.pending_spec(),
            Some(att) => {
                let sname = server_name_or_unknown(a.servers_spec(), att.server_id@);
                let lines = detach_lines_spec(v, sname, att.device@);
                let pending_ok = b.pending_spec() matches Some(PendingAction::DetachVolume { volume_id, server_id, attachment_id })
                    && volume_id == v.id && server_id == att.server_id && attachment_id@ == att_id;
                if v.bootable@ == "true"@ && v.attachments@.len() == 1 {
                    if !a.admin_spec() {
                        &&& b.outbox_spec().len() == a.outbox_spec().len() + 1
                        &&& b.outbox_spec().drop_last() == a.outbox_spec()
                        &&& b.outbox_spec().last() matches Action::ShowToast { message } && message@
                            == "Cannot detach boot volume (admin required)"@
                        &&& b.dialog_spec() == a.dialog_spec() && b.pending_spec() == a.pending_spec()
                    } else {
                        &&& b.outbox_spec() == a.outbox_spec()
                        &&& pending_ok
                        &&& b.dialog_spec() matches Some(d) && is_typed(
                            d,
                            "Detach BOOT volume '"@ + opt_or(v.name, "-"@) + "'? Type name to confirm:"@,
                            opt_or(v.name, "-"@),
                            lines,
                        )
                    }
                } else {
                    &&& b.outbox_spec() == a.outbox_spec()
                    &&& pending_ok
                    &&& b.dialog_spec() matches Some(d) && is_yes_no(d, "Detach volume from '"@ + sname + "'?"@, lines)
                }
            },
        }
    }

    /// Nothing asked: the dialog, pending action, popup and requests stay.
    pub open spec fn nothing_asked(a: VolumeModule, b: VolumeModule) -> bool {
        &&& b.dialog_spec() == a.dialog_spec()
        &&& b.pending_spec() == a.pending_spec()
        &&& b.popup_spec() == a.popup_spec()
        &&& b.outbox_spec() == a.outbox_spec()
    }

    /// `x` on the detail view of an in-use volume that is not in transition
    /// asks to detach its only attachment, or offers its attachments to
    /// choose from; otherwise nothing happens.
    pub open spec fn detach_key_step(a: VolumeModule, b: VolumeModule, in_transition: bool) -> bool {
        match a.detail_volume_spec() {
            Some(v) => if in_transition || v.status@ != "in-use"@ {
                Self::nothing_asked(a, b)
            } else if v.attachments@.len() == 1 {
                Self::detach_asked(a, b, v, v.attachments@[0].id@) && b.popup_spec() == a.popup_spec()
            } else if v.attachments@.len() > 1 {
                &&& b.popup_spec() matches Some(p) && p.title@ == "Select Attachment"@
                    && items_view(p.items@) == attachment_choices(a.servers_spec(), v.attachments@)
                &&& b.dialog_spec() == a.dialog_spec()
                &&& b.pending_spec() == a.pending_spec()
                &&& b.outbox_spec() == a.outbox_spec()
            } else {
                Self::nothing_asked(a, b)
            },
            None => Self::nothing_asked(a, b),
        }
    }

    /// `F` (for an admin) on the detail view of a volume in error, or in use
    /// with an attachment, and not in transition: a dialog in which its
    /// name must be typed to force-detach its first attachment (empty IDs
    /// when it has none), warning of data corruption.
    pub open spec fn force_detach_step(a: VolumeModule, b: VolumeModule, in_transition: bool) -> bool {
        match a.detail_volume_spec() {
            Some(v) => if in_transition || (v.status@ != "error"@ && v.status@ != "in-use"@) || (v.attachments@.len() == 0
                && v.status@ != "error"@) {
                Self::nothing_asked(a, b)
            } else {
                let name = opt_or(v.name, "-"@);
                &&& b.popup_spec() == a.popup_spec()
                &&& b.outbox_spec() == a.outbox_spec()
                &&& b.pending_spec() matches Some(PendingAction::ForceDetachVolume { volume_id, server_id, attachment_id })
                    && volume_id == v.id && if v.attachments@.len() == 0 {
                    server_id@ == Seq::<char>::empty() && attachment_id@ == Seq::<char>::empty()
                } else {
                    server_id == v.attachments@[0].server_id && attachment_id == v.attachments@[0].id
                }
                &&& b.dialog_spec() matches Some(d) && is_typed(
                    d,
                    "Force detach volume '"@ + name + "'?"@,
                    name,
                    volume_lines_spec(v).push("  WARNING: May cause data corruption!"@),
                )
            },
            None => Self::nothing_asked(a, b),
        }
    }

    /// `R` (for an admin) on the detail view of a volume neither available
    /// nor in use, and not in transition: a dialog in which its name must
    /// be typed to reset its state to available.
    pub open spec fn state_reset_step(a: VolumeModule, b: VolumeModule, in_transition: bool) -> bool {
        match a.detail_volume_spec() {
            Some(v) => if in_transition || v.status@ == "available"@ || v.status@ == "in-use"@ {
                Self::nothing_asked(a, b)
            } else {
                let name = opt_or(v.name, "-"@);
                &&& b.popup_spec() == a.popup_spec()
                &&& b.outbox_spec() == a.outbox_spec()
                &&& b.pending_spec() == Some(PendingAction::ForceResetVolumeState { volume_id: v.id })
                &&& b.dialog_spec() matches Some(d) && is_typed(
                    d,
                    "Reset volume '"@ + name + "' state to available?"@,
                    name,
                    volume_lines_spec(v),
                )
            },
            None => Self::nothing_asked(a, b),
        }
    }

    /// The table is empty (after a switch of the project column, until the next load) or shows one row per volume.
    pub closed spec fn inv(&self) -> bool {
        &&& self.resource_list.inv()
        &&& (self.resource_list.len_spec() == 0 || (self.resource_list.rows_spec() == volume_rows_spec(self.volumes@) && self.resource_list.len_spec() == self.volumes@.len()))
    }

    /// An empty screen showing its list, for a user without the admin role.
    pub fn new() -> (r: Self)
        ensures
            r.inv(),
            r.view_state_spec() == ViewState::List,
            r.volumes_spec() == Seq::<Volume>::empty(),
            !r.loading_spec(),
            r.error_spec() is None,
            !r.admin_spec(),
            !r.form_open_spec(),
            !r.confirm_spec(),
            !r.all_tenants_spec(),
            r.servers_spec() == Seq::<Server>::empty(),
            r.outbox_spec() == Seq::<Action>::empty(),
            r.selected_spec() == 0,
            r.popup_spec() is None,
            r.hints_spec() == Seq::<char>::empty(),
            r.pending_spec() is None,
            r.table_len_spec() == 0,
    {
        VolumeModule {
            view_state: ViewState::List,
            volumes: Vec::new(),
            cached_servers: Vec::new(),
            loading: false,
            error_message: None,
            is_admin: false,
            confirm: ConfirmHandler::new(),
            resource_list: ResourceList::new(),
            form: None,
            all_tenants: false,
            select_popup: None,
            keymap_hints_shown: Vec::new(),
            outbox: Vec::new(),
        }
    }

    /// The view shown.
    pub fn view_state(&self) -> (r: &ViewState)
        ensures
            *r == self.view_state_spec(),
    {
        &self.view_state
    }

    /// The volumes.
    pub fn volumes(&self) -> (r: &[Volume])
        ensures
            r@ == self.volumes_spec(),
    {
        self.volumes.as_slice()
    }

    /// Index of the selected volume.
    pub fn selected_index(&self) -> (r: usize)
        ensures
            r == self.selected_spec(),
    {
        self.resource_list.selected_index()
    }

    /// The last error shown.
    pub fn error_message(&self) -> (r: Option<&str>)
        ensures
            match r {
                Some(s) => self.error_spec() == Some(s@),
                None => self.error_spec() is None,
            },
    {
        match &self.error_message {
            Some(e) => Some(e.as_str()),
            None => None,
        }
    }

    /// Whether a load is outstanding.
    pub fn is_loading(&self) -> (r: bool)
        ensures
            r == self.loading_spec(),
    {
        self.loading
    }

    /// Whether the user has the admin role.
    pub fn is_admin(&self) -> (r: bool)
        ensures
            r == self.admin_spec(),
    {
        self.is_admin
    }

    /// Give or take the admin role.
    pub fn set_admin(&mut self, is_admin: bool)
        requires
            old(self).inv(),
        ensures
            final(self).inv(),
            final(self).admin_spec() == is_admin,
            final(self).volumes_spec() == old(self).volumes_spec(),
            final(self).view_state_spec() == old(self).view_state_spec(),
            final(self).outbox_spec() == old(self).outbox_spec(),
    {
        self.is_admin = is_admin;
    }

    /// Whether the form is open.
    pub fn form_is_open(&self) -> (r: bool)
        ensures
            r == self.form_open_spec(),
    {
        self.form.is_some()
    }

    /// Whether a confirmation dialog is open.
    pub fn confirm_is_active(&self) -> (r: bool)
        ensures
            r == self.confirm_spec(),
    {
        self.confirm.is_active()
    }

    /// Hand over the requests waiting to be sent, oldest first.
    pub fn take_actions(&mut self) -> (r: Vec<Action>)
        requires
            old(self).inv(),
        ensures
            final(self).inv(),
            r@ == old(self).outbox_spec(),
            final(self).outbox_spec() == Seq::<Action>::empty(),
            final(self).volumes_spec() == old(self).volumes_spec(),
            final(self).view_state_spec() == old(self).view_state_spec(),
            final(self).selected_spec() == old(self).selected_spec(),
    {
        let mut out: Vec<Action> = Vec::new();
        std::mem::swap(&mut out, &mut self.outbox);
        out
    }

    /// The request that reloads this screen.
    pub fn refresh_action(&self) -> (r: Option<Action>)
        ensures
            r == Some(Action::FetchVolumes),
    {
        Some(Action::FetchVolumes)
    }

    /// The open selection popup.
    pub fn select_popup(&self) -> (r: Option<&SelectPopup>)
        ensures
            match r {
                Some(p) => self.popup_spec() == Some(*p),
                None => self.popup_spec() is None,
            },
    {
        self.select_popup.as_ref()
    }

    /// The action the open confirmation guards.
    pub fn pending_action(&self) -> (r: Option<&PendingAction>)
        ensures
            match r {
                Some(p) => self.pending_spec() == Some(*p),
                None => self.pending_spec() is None,
            },
    {
        self.confirm.pending.as_ref()
    }

    /// The open confirmation dialog.
    pub fn dialog(&self) -> (r: Option<&ConfirmDialog>)
        ensures
            match r {
                Some(d) => self.dialog_spec() == Some(*d),
                None => self.dialog_spec() is None,
            },
    {
        self.confirm.dialog.as_ref()
    }

    /// Whether a dialog, form or popup takes every key.
    pub fn is_modal(&self) -> (r: bool)
        ensures
            r == (self.confirm_spec() || self.form_open_spec() || self.popup_spec() is Some),
    {
        self.confirm.is_active() || self.form.is_some() || self.select_popup.is_some()
    }

    /// Show or hide the project column; the table starts over empty.
    pub fn set_all_tenants(&mut self, v: bool)
        requires
            old(self).inv(),
        ensures
            final(self).inv(),
            final(self).all_tenants_spec() == v,
            final(self).table_len_spec() == 0,
            final(self).selected_spec() == 0,
            final(self).volumes_spec() == old(self).volumes_spec(),
            final(self).view_state_spec() == old(self).view_state_spec(),
            final(self).outbox_spec() == old(self).outbox_spec(),
    {
        self.all_tenants = v;
        self.resource_list = ResourceList::new();
    }

    /// The key help shown in the status bar.
    pub fn help_hint(&self) -> (r: &'static str)
        ensures
            r@ == match self.view_state_spec() {
                ViewState::List => "Enter:Detail c:Create a:Attach D:Delete r:Refresh"@,
                ViewState::Detail(_) => "Esc:Back x:Detach F:ForceDetach R:Reset"@,
                ViewState::Create => "Esc:Cancel Tab:Next Enter:Submit"@,
            },
    {
        match &self.view_state {
            ViewState::List => "Enter:Detail c:Create a:Attach D:Delete r:Refresh",
            ViewState::Detail(_) => "Esc:Back x:Detach F:ForceDetach R:Reset",
            ViewState::Create => "Esc:Cancel Tab:Next Enter:Submit",
        }
    }

    /// The title over the content: none on the list, the volume's name
    /// (`...` when unknown) on its detail, `Create Volume` on the form.
    pub fn content_title(&self) -> (r: Option<String>)
        ensures
            match self.view_state_spec() {
                ViewState::List => r is None,
                ViewState::Detail(id) => r is Some && r->0@ == "Volume: "@ + match find_volume(self.volumes_spec(), id@) {
                    Some(x) => opt_or(x.name, "..."@),
                    None => "..."@,
                },
                ViewState::Create => r is Some && r->0@ == "Create Volume"@,
            },
    {
        match &self.view_state {
            ViewState::List => None,
            ViewState::Detail(id) => {
                let n = self.volumes.len();
                let mut j: usize = 0;
                proof {
                    assert(self.volumes@.skip(0) =~= self.volumes@);
                }
                while j < n
                    invariant
                        n == self.volumes@.len(),
                        j <= n,
                        self.view_state_spec() == ViewState::Detail(*id),
                        find_volume(self.volumes@, id@) == find_volume(self.volumes@.skip(j as int), id@),
                    decreases n - j,
                {
                    let ghost rest = self.volumes@.skip(j as int);
                    proof {
                        assert(rest[0] == self.volumes@[j as int]);
                        assert(rest.drop_first() =~= self.volumes@.skip(j + 1));
                    }
                    if str_eq(self.volumes[j].id.as_str(), id.as_str()) {
                        return Some(cat("Volume: ", opt_str_or(&self.volumes[j].name, "...").as_str()));
                    }
                    j = j + 1;
                }
                Some(cat("Volume: ", "..."))
            },
            ViewState::Create => Some(String::from_str("Create Volume")),
        }
    }

    /// Open the Create Volume form.
    pub fn open_create_form(&mut self)
        requires
            old(self).inv(),
        ensures
            final(self).inv(),
            final(self).form_open_spec(),
            final(self).view_state_spec() == ViewState::Create,
            final(self).volumes_spec() == old(self).volumes_spec(),
            final(self).outbox_spec() == old(self).outbox_spec(),
            final(self).selected_spec() == old(self).selected_spec(),
            final(self).admin_spec() == old(self).admin_spec(),
            final(self).all_tenants_spec() == old(self).all_tenants_spec(),
            final(self).confirm_spec() == old(self).confirm_spec(),
            final(self).servers_spec() == old(self).servers_spec(),
            final(self).popup_spec() == old(self).popup_spec(),
            final(self).hints_spec() == old(self).hints_spec(),
            final(self).pending_spec() == old(self).pending_spec(),
    {
        let defs = volume_create_defs();
        self.form = Some(FormWidget::new("Create Volume", defs));
        self.view_state = ViewState::Create;
    }

    /// Close the form and go back to the list.
    pub fn close_form(&mut self)
        requires
            old(self).inv(),
        ensures
            final(self).inv(),
            !final(self).form_open_spec(),
            final(self).view_state_spec() == ViewState::List,
            final(self).volumes_spec() == old(self).volumes_spec(),
            final(self).outbox_spec() == old(self).outbox_spec(),
            final(self).selected_spec() == old(self).selected_spec(),
            final(self).loading_spec() == old(self).loading_spec(),
            final(self).error_spec() == old(self).error_spec(),
            final(self).confirm_spec() == old(self).confirm_spec(),
            final(self).admin_spec() == old(self).admin_spec(),
            final(self).all_tenants_spec() == old(self).all_tenants_spec(),
            final(self).servers_spec() == old(self).servers_spec(),
    {
        self.form = None;
        self.view_state = ViewState::List;
    }

    /// A cancelled form: close it and leave form mode.
    pub fn cancel_create(&mut self) -> (r: Option<Action>)
        requires
            old(self).inv(),
        ensures
            final(self).inv(),
            r == Some(Action::ExitFormMode),
            !final(self).form_open_spec(),
            final(self).view_state_spec() == ViewState::List,
            final(self).outbox_spec() == old(self).outbox_spec(),
    {
        self.close_form();
        Some(Action::ExitFormMode)
    }

    /// React to a key on the list (keys go to an open popup instead, see
    /// `handle_popup_result`): navigation moves the selection, Enter opens
    /// the selected volume, `c` opens the create form, `D` asks to type the
    /// selected volume's name to delete it, `d` once tells that deleting
    /// moved to `D`, `a` offers the servers to attach an available volume
    /// to (not while `selected_in_transition`, the transition guard's answer
    /// for the selected volume), `r` reloads, Left goes to the sidebar and
    /// Esc goes back.
    pub fn handle_list_key(&mut self, key: Key, selected_in_transition: bool) -> (r: Option<Action>)
        requires
            old(self).inv(),
        ensures
            final(self).inv(),
            old(self).popup_spec() is Some ==> r is None && *final(self) == *old(self),
            old(self).popup_spec() is None ==> {
                &&& final(self).volumes_spec() == old(self).volumes_spec()
                &&& final(self).servers_spec() == old(self).servers_spec()
                &&& final(self).admin_spec() == old(self).admin_spec()
                &&& final(self).selected_spec() == nav_target(key, old(self).selected_spec(), old(self).table_len_spec())
                &&& key != Key::Char('d') ==> final(self).hints_spec() == old(self).hints_spec()
                &&& key != Key::Char('a') ==> final(self).popup_spec() is None
                &&& nav_key(key) ==> r is None && final(self).view_state_spec() == old(self).view_state_spec()
                    && final(self).confirm_spec() == old(self).confirm_spec() && final(self).outbox_spec() == old(self).outbox_spec()
                &&& !nav_key(key) ==> final(self).outbox_spec() == old(self).outbox_spec()
                &&& !nav_key(key) && key == Key::Enter ==> r is None && final(self).confirm_spec() == old(self).confirm_spec()
                    && final(self).view_state_spec() == if old(self).selected_spec() < old(self).volumes_spec().len() {
                    ViewState::Detail(old(self).volumes_spec()[old(self).selected_spec() as int].id)
                } else {
                    old(self).view_state_spec()
                }
                &&& !nav_key(key) && key == Key::Char('c') ==> r == Some(Action::EnterFormMode) && final(self).form_open_spec()
                    && final(self).view_state_spec() == ViewState::Create
                &&& !nav_key(key) && key == Key::Char('D') ==> r is None && final(self).view_state_spec() == old(self).view_state_spec()
                    && if old(self).selected_spec() < old(self).volumes_spec().len() {
                    let v = old(self).volumes_spec()[old(self).selected_spec() as int];
                    &&& final(self).pending_spec() matches Some(PendingAction::DeleteVolume { id, name })
                        && id == v.id && name@ == delete_name(v)
                    &&& final(self).dialog_spec() matches Some(d)
                        && is_typed(d, "Delete volume '"@ + delete_name(v) + "'?"@, delete_name(v), Seq::empty())
                } else {
                    final(self).confirm_spec() == old(self).confirm_spec()
                }
                &&& !nav_key(key) && key == Key::Char('d') ==> final(self).view_state_spec() == old(self).view_state_spec()
                    && final(self).confirm_spec() == old(self).confirm_spec() && if old(self).hints_spec().contains('d') {
                    r is None && final(self).hints_spec() == old(self).hints_spec()
                } else {
                    &&& r matches Some(Action::ShowToast { message }) && message@ == "Delete is now Shift+D. Press 'x' to detach."@
                    &&& final(self).hints_spec() == old(self).hints_spec().push('d')
                }
                &&& !nav_key(key) && key == Key::Char('a') ==> r is None && final(self).view_state_spec() == old(self).view_state_spec()
                    && final(self).confirm_spec() == old(self).confirm_spec() && if old(self).selected_spec()
                    < old(self).volumes_spec().len() && !selected_in_transition
                    && old(self).volumes_spec()[old(self).selected_spec() as int].status@ == "available"@
                    && server_items(old(self).servers_spec()).len() > 0 {
                    final(self).popup_spec() matches Some(p) && p.title@ == "Select Server"@
                        && items_view(p.items@) == server_items(old(self).servers_spec())
                } else {
                    final(self).popup_spec() is None
                }
                &&& !nav_key(key) && key != Key::Enter && key != Key::Char('c') && key != Key::Char('D')
                    && key != Key::Char('d') && key != Key::Char('a') ==> {
                    &&& final(self).view_state_spec() == old(self).view_state_spec()
                    &&& final(self).confirm_spec() == old(self).confirm_spec()
                    &&& r == if key == Key::Char('r') {
                        Some(Action::FetchVolumes)
                    } else if key == Key::Left {
                        Some(Action::FocusSidebar)
                    } else if key == Key::Esc {
                        Some(Action::Back)
                    } else {
                        None
                    }
                }
            },
    {
        if self.select_popup.is_some() {
            return None;
        }
        if self.resource_list.handle_nav_key(key) {
            return None;
        }
        match key {
            Key::Enter => {
                let i = self.resource_list.selected_index();
                if i < self.volumes.len() {
                    self.view_state = ViewState::Detail(self.volumes[i].id.clone());
                }
                None
            },
            Key::Char('c') => {
                self.open_create_form();
                Some(Action::EnterFormMode)
            },
            Key::Char('D') => {
                let i = self.resource_list.selected_index();
                if i < self.volumes.len() {
                    let id = self.volumes[i].id.clone();
                    let name = match &self.volumes[i].name {
                        Some(n) => n.clone(),
                        None => char_prefix(id.as_str(), 8),
                    };
                    let dialog = ConfirmDialog::type_to_confirm(cat3("Delete volume '", name.as_str(), "'?"), name.clone());
                    proof {
                        assert(strs_view(dialog.details@) =~= Seq::<Seq<char>>::empty());
                    }
                    self.confirm.open(dialog, PendingAction::DeleteVolume { id, name });
                }
                None
            },
            Key::Char('d') => {
                if !char_in(&self.keymap_hints_shown, 'd') {
                    self.keymap_hints_shown.push('d');
                    Some(Action::ShowToast { message: String::from_str("Delete is now Shift+D. Press 'x' to detach.") })
                } else {
                    None
                }
            },
            Key::Char('a') => {
                let i = self.resource_list.selected_index();
                if i < self.volumes.len() && !selected_in_transition && str_eq(self.volumes[i].status.as_str(), "available") {
                    let items = build_server_items(&self.cached_servers);
                    if items.len() > 0 {
                        self.select_popup = Some(SelectPopup::new("Select Server", items));
                    }
                }
                None
            },
            Key::Char('r') => Some(Action::FetchVolumes),
            Key::Left => Some(Action::FocusSidebar),
            Key::Esc => Some(Action::Back),
            _ => None,
        }
    }

    /// Ask to detach the attachment `att_id` of the volume at `vi`.
    fn open_detach_confirm(&mut self, vi: usize, att_id: &str)
        requires
            old(self).inv(),
            vi < old(self).volumes_spec().len(),
        ensures
            final(self).inv(),
            Self::same_data(*old(self), *final(self)),
            final(self).popup_spec() == old(self).popup_spec(),
            Self::detach_asked(*old(self), *final(self), old(self).volumes_spec()[vi as int], att_id@),
    {
        let ghost v = self.volumes@[vi as int];
        let ai = match find_attachment_by_id_exec(att_id, &self.volumes[vi].attachments) {
            Some(ai) => ai,
            None => return,
        };
        let att_server = self.volumes[vi].attachments[ai].server_id.clone();
        let device = self.volumes[vi].attachments[ai].device.clone();
        let server_name = server_name_for(&self.cached_servers, att_server.as_str());
        let details = volume_detach_detail_lines(&self.volumes[vi], server_name.as_str(), device.as_str());
        let vol_id = self.volumes[vi].id.clone();
        let pending = PendingAction::DetachVolume {
            volume_id: vol_id,
            server_id: att_server,
            attachment_id: String::from_str(att_id),
        };
        if str_eq(self.volumes[vi].bootable.as_str(), "true") && self.volumes[vi].attachments.len() == 1 {
            if !self.is_admin {
                let ghost before = self.outbox@;
                self.outbox.push(Action::ShowToast { message: String::from_str("Cannot detach boot volume (admin required)") });
                proof {
                    assert(self.outbox@.drop_last() =~= before);
                }
                return;
            }
            let name = opt_str_or(&self.volumes[vi].name, "-");
            let message = cat3("Detach BOOT volume '", name.as_str(), "'? Type name to confirm:");
            self.confirm.open(ConfirmDialog::type_to_confirm_with_details(message, name, details), pending);
            return;
        }
        let message = cat3("Detach volume from '", server_name.as_str(), "'?");
        self.confirm.open(ConfirmDialog::yes_no_with_details(message, details), pending);
    }

    /// Where the volume the detail view shows is.
    fn detail_index(&self) -> (r: Option<usize>)
        ensures
            match r {
                Some(j) => j < self.volumes_spec().len() && self.detail_volume_spec() == Some(self.volumes_spec()[j as int]),
                None => self.detail_volume_spec() is None,
            },
    {
        match &self.view_state {
            ViewState::Detail(id) => volume_index(&self.volumes, id.as_str()),
            _ => None,
        }
    }

    /// `x` on the detail view.
    fn handle_detach_key(&mut self, in_transition: bool)
        requires
            old(self).inv(),
        ensures
            final(self).inv(),
            Self::same_data(*old(self), *final(self)),
            Self::detach_key_step(*old(self), *final(self), in_transition),
    {
        let vi = match self.detail_index() {
            Some(vi) => vi,
            None => return,
        };
        if in_transition || !str_eq(self.volumes[vi].status.as_str(), "in-use") {
            return;
        }
        let n = self.volumes[vi].attachments.len();
        if n == 1 {
            let att_id = self.volumes[vi].attachments[0].id.clone();
            self.open_detach_confirm(vi, att_id.as_str());
        } else if n > 1 {
            let items = build_attachment_items(&self.cached_servers, &self.volumes[vi].attachments);
            self.select_popup = Some(SelectPopup::new("Select Attachment", items));
        }
    }

    /// `F` on the detail view.
    fn handle_force_detach_key(&mut self, in_transition: bool)
        requires
            old(self).inv(),
        ensures
            final(self).inv(),
            Self::same_data(*old(self), *final(self)),
            Self::force_detach_step(*old(self), *final(self), in_transition),
    {
        let vi = match self.detail_index() {
            Some(vi) => vi,
            None => return,
        };
        let st = self.volumes[vi].status.as_str();
        let is_error = str_eq(st, "error");
        if in_transition || (!is_error && !str_eq(st, "in-use")) {
            return;
        }
        if self.volumes[vi].attachments.len() == 0 && !is_error {
            return;
        }
        let name = opt_str_or(&self.volumes[vi].name, "-");
        let (server_id, attachment_id) = if self.volumes[vi].attachments.len() == 0 {
            (String::new(), String::new())
        } else {
            (self.volumes[vi].attachments[0].server_id.clone(), self.volumes[vi].attachments[0].id.clone())
        };
        let mut details = volume_detail_lines(&self.volumes[vi]);
        let ghost before = strs_view(details@);
        details.push(String::from_str("  WARNING: May cause data corruption!"));
        proof {
            assert(strs_view(details@) =~= before.push("  WARNING: May cause data corruption!"@));
        }
        let message = cat3("Force detach volume '", name.as_str(), "'?");
        let volume_id = self.volumes[vi].id.clone();
        self.confirm.open(
            ConfirmDialog::type_to_confirm_with_details(message, name, details),
            PendingAction::ForceDetachVolume { volume_id, server_id, attachment_id },
        );
    }

    /// `R` on the detail view.
    fn handle_state_reset_key(&mut self, in_transition: bool)
        requires
            old(self).inv(),
        ensures
            final(self).inv(),
            Self::same_data(*old(self), *final(self)),
            Self::state_reset_step(*old(self), *final(self), in_transition),
    {
        let vi = match self.detail_index() {
            Some(vi) => vi,
            None => return,
        };
        let st = self.volumes[vi].status.as_str();
        if in_transition || str_eq(st, "available") || str_eq(st, "in-use") {
            return;
        }
        let name = opt_str_or(&self.volumes[vi].name, "-");
        let details = volume_detail_lines(&self.volumes[vi]);
        let message = cat3("Reset volume '", name.as_str(), "' state to available?");
        let volume_id = self.volumes[vi].id.clone();
        self.confirm.open(
            ConfirmDialog::type_to_confirm_with_details(message, name, details),
            PendingAction::ForceResetVolumeState { volume_id },
        );
    }

    /// React to a key on the detail view (keys go to an open popup
    /// instead): Esc, `q` or Left go back to the list; `x` asks to detach;
    /// for an admin, `F` asks to force-detach and `R` to reset the state.
    /// `detail_in_transition` is the transition guard's answer for the
    /// volume shown.
    pub fn handle_detail_key(&mut self, key: Key, detail_in_transition: bool) -> (r: Option<Action>)
        requires
            old(self).inv(),
        ensures
            final(self).inv(),
            r is None,
            old(self).popup_spec() is Some ==> *final(self) == *old(self),
            old(self).popup_spec() is None ==> if key == Key::Esc || key == Key::Char('q') || key == Key::Left {
                &&& final(self).view_state_spec() == ViewState::List
                &&& final(self).volumes_spec() == old(self).volumes_spec()
                &&& Self::nothing_asked(*old(self), *final(self))
            } else if key == Key::Char('x') {
                Self::same_data(*old(self), *final(self)) && Self::detach_key_step(*old(self), *final(self), detail_in_transition)
            } else if key == Key::Char('F') && old(self).admin_spec() {
                Self::same_data(*old(self), *final(self)) && Self::force_detach_step(*old(self), *final(self), detail_in_transition)
            } else if key == Key::Char('R') && old(self).admin_spec() {
                Self::same_data(*old(self), *final(self)) && Self::state_reset_step(*old(self), *final(self), detail_in_transition)
            } else {
                *final(self) == *old(self)
            },
    {
        if self.select_popup.is_some() {
            return None;
        }
        match key {
            Key::Esc | Key::Char('q') | Key::Left => {
                self.view_state = ViewState::List;
            },
            Key::Char('x') => self.handle_detach_key(detail_in_transition),
            Key::Char('F') => {
                if self.is_admin {
                    self.handle_force_detach_key(detail_in_transition);
                }
            },
            Key::Char('R') => {
                if self.is_admin {
                    self.handle_state_reset_key(detail_in_transition);
                }
            },
            _ => {},
        }
        None
    }

    /// The server `server_id` was chosen to attach the selected volume to:
    /// while that volume is available, ask (showing the volume and the
    /// server's name) whether to attach it.
    pub open spec fn attach_asked(a: VolumeModule, b: VolumeModule, server_id: Seq<char>) -> bool {
        if a.selected_spec() < a.volumes_spec().len() && a.volumes_spec()[a.selected_spec() as int].status@ == "available"@ {
            let v = a.volumes_spec()[a.selected_spec() as int];
            let sname = server_name_or_unknown(a.servers_spec(), server_id);
            &&& b.outbox_spec() == a.outbox_spec()
            &&& b.pending_spec() matches Some(PendingAction::AttachVolume { volume_id, server_id: s, device })
                && volume_id == v.id && s@ == server_id && device is None
            &&& b.dialog_spec() matches Some(d) && is_yes_no(
                d,
                "Attach volume to '"@ + sname + "'?"@,
                attach_lines_spec(v, sname),
            )
        } else {
            b.outbox_spec() == a.outbox_spec() && b.dialog_spec() == a.dialog_spec() && b.pending_spec() == a.pending_spec()
        }
    }

    /// What the open popup made of a key: a choice closes it and, on the
    /// list, asks whether to attach the selected volume to the chosen
    /// server, or, on the detail view of an in-use volume, asks whether to
    /// detach the chosen attachment; a cancel closes it; anything else
    /// leaves it open. Without a popup nothing happens.
    pub fn handle_popup_result(&mut self, result: SelectResult) -> (r: Option<Action>)
        requires
            old(self).inv(),
        ensures
            final(self).inv(),
            r is None,
            old(self).popup_spec() is None ==> *final(self) == *old(self),
            old(self).popup_spec() is Some ==> match result {
                SelectResult::Pending => *final(self) == *old(self),
                SelectResult::Cancelled => {
                    &&& final(self).popup_spec() is None
                    &&& Self::same_data(*old(self), *final(self))
                    &&& final(self).outbox_spec() == old(self).outbox_spec()
                    &&& final(self).dialog_spec() == old(self).dialog_spec()
                    &&& final(self).pending_spec() == old(self).pending_spec()
                },
                SelectResult::Selected(id) => {
                    &&& final(self).popup_spec() is None
                    &&& Self::same_data(*old(self), *final(self))
                    &&& match old(self).view_state_spec() {
                        ViewState::List => Self::attach_asked(*old(self), *final(self), id@),
                        ViewState::Detail(_) => match old(self).detail_volume_spec() {
                            Some(v) => if v.status@ == "in-use"@ {
                                Self::detach_asked(*old(self), *final(self), v, id@)
                            } else {
                                final(self).outbox_spec() == old(self).outbox_spec() && final(self).dialog_spec()
                                    == old(self).dialog_spec() && final(self).pending_spec() == old(self).pending_spec()
                            },
                            None => final(self).outbox_spec() == old(self).outbox_spec() && final(self).dialog_spec()
                                == old(self).dialog_spec() && final(self).pending_spec() == old(self).pending_spec(),
                        },
                        ViewState::Create => final(self).outbox_spec() == old(self).outbox_spec() && final(self).dialog_spec()
                            == old(self).dialog_spec() && final(self).pending_spec() == old(self).pending_spec(),
                    }
                },
            },
    {
        if self.select_popup.is_none() {
            return None;
        }
        match result {
            SelectResult::Pending => None,
            SelectResult::Cancelled => {
                self.select_popup = None;
                None
            },
            SelectResult::Selected(id) => {
                self.select_popup = None;
                match &self.view_state {
                    ViewState::List => {
                        let i = self.resource_list.selected_index();
                        if i < self.volumes.len() && str_eq(self.volumes[i].status.as_str(), "available") {
                            let server_name = server_name_for(&self.cached_servers, id.as_str());
                            let details = volume_attach_detail_lines(&self.volumes[i], server_name.as_str());
                            let message = cat3("Attach volume to '", server_name.as_str(), "'?");
                            let volume_id = self.volumes[i].id.clone();
                            self.confirm.open(
                                ConfirmDialog::yes_no_with_details(message, details),
                                PendingAction::AttachVolume { volume_id, server_id: id, device: None },
                            );
                        }
                    },
                    ViewState::Detail(_) => {
                        match self.detail_index() {
                            Some(vi) => {
                                if str_eq(self.volumes[vi].status.as_str(), "in-use") {
                                    self.open_detach_confirm(vi, id.as_str());
                                }
                            },
                            None => {},
                        }
                    },
                    ViewState::Create => {},
                }
                None
            },
        }
    }

    /// Replace the volumes with a loaded list and clear the error.
    fn take_volumes(&mut self, items: &Vec<Volume>)
        requires
            old(self).inv(),
        ensures
            final(self).inv(),
            volumes_eqv(final(self).volumes_spec(), items@),
            final(self).table_len_spec() == items@.len(),
            final(self).selected_spec() == kept_selection(old(self).selected_spec(), items@.len()),
            !final(self).loading_spec(),
            final(self).error_spec() is None,
            final(self).view_state_spec() == old(self).view_state_spec(),
            final(self).outbox_spec() == old(self).outbox_spec(),
            final(self).form_open_spec() == old(self).form_open_spec(),
            final(self).confirm_spec() == old(self).confirm_spec(),
            final(self).admin_spec() == old(self).admin_spec(),
            final(self).all_tenants_spec() == old(self).all_tenants_spec(),
            final(self).servers_spec() == old(self).servers_spec(),
    {
        let copy = copy_list_by(items, Ghost(|a: Volume, b: Volume| a.eqv(&b)));
        let rows = volume_rows(&copy);
        self.volumes = copy;
        self.loading = false;
        self.error_message = None;
        proof {
            assert(rows_view(rows@).len() == rows@.len());
        }
        self.resource_list.set_rows(rows);
    }

    /// Take in an event: a loaded list replaces the volumes and clears the
    /// error; loaded servers are kept for attaching; a created volume closes
    /// the form and queues a reload; a deleted, extended, attached, detached
    /// or reset volume queues a reload; a failed request shows its error.
    pub fn handle_event(&mut self, event: &AppEvent)
        requires
            old(self).inv(),
        ensures
            final(self).inv(),
            final(self).admin_spec() == old(self).admin_spec(),
            final(self).confirm_spec() == old(self).confirm_spec(),
            match event {
                AppEvent::VolumesLoaded(x) => volumes_eqv(final(self).volumes_spec(), x@)
                    && final(self).table_len_spec() == x@.len()
                    && final(self).selected_spec() == kept_selection(old(self).selected_spec(), x@.len()),
                _ => final(self).volumes_spec() == old(self).volumes_spec()
                    && final(self).selected_spec() == old(self).selected_spec(),
            },
            final(self).loading_spec() == match event {
                AppEvent::VolumesLoaded(_) => false,
                AppEvent::ApiError { .. } => false,
                _ => old(self).loading_spec(),
            },
            final(self).error_spec() == match event {
                AppEvent::VolumesLoaded(_) => None,
                AppEvent::ApiError { operation, message } => Some(error_text(operation@, message@)),
                _ => old(self).error_spec(),
            },
            final(self).form_open_spec() == match event {
                AppEvent::VolumeCreated(_) => false,
                _ => old(self).form_open_spec(),
            },
            final(self).view_state_spec() == match event {
                AppEvent::VolumeCreated(_) => ViewState::List,
                _ => old(self).view_state_spec(),
            },
            final(self).outbox_spec() == match event {
                AppEvent::VolumeCreated(_) => old(self).outbox_spec().push(Action::FetchVolumes),
                AppEvent::VolumeDeleted { .. } => old(self).outbox_spec().push(Action::FetchVolumes),
                AppEvent::VolumeExtended { .. } => old(self).outbox_spec().push(Action::FetchVolumes),
                AppEvent::VolumeAttached { .. } => old(self).outbox_spec().push(Action::FetchVolumes),
                AppEvent::VolumeDetached { .. } => old(self).outbox_spec().push(Action::FetchVolumes),
                AppEvent::VolumeForceDetached { .. } => old(self).outbox_spec().push(Action::FetchVolumes),
                AppEvent::VolumeStateReset { .. } => old(self).outbox_spec().push(Action::FetchVolumes),
                _ => old(self).outbox_spec(),
            },
            match event { AppEvent::ServersLoaded(s) => servers_eqv(final(self).servers_spec(), s@), _ => final(self).servers_spec() == old(self).servers_spec() },
    {
        match event {
            AppEvent::VolumesLoaded(items) => {
                self.take_volumes(items);
            },
            AppEvent::VolumeCreated(_) => {
                self.close_form();
                self.outbox.push(Action::FetchVolumes);
            },
            AppEvent::VolumeDeleted { .. } => {
                self.outbox.push(Action::FetchVolumes);
            },
            AppEvent::VolumeExtended { .. } => {
                self.outbox.push(Action::FetchVolumes);
            },
            AppEvent::VolumeAttached { .. } => {
                self.outbox.push(Action::FetchVolumes);
            },
            AppEvent::VolumeDetached { .. } => {
                self.outbox.push(Action::FetchVolumes);
            },
            AppEvent::VolumeForceDetached { .. } => {
                self.outbox.push(Action::FetchVolumes);
            },
            AppEvent::VolumeStateReset { .. } => {
                self.outbox.push(Action::FetchVolumes);
            },
            AppEvent::ServersLoaded(servers) => {
                self.cached_servers = copy_list_by(servers, Ghost(|a: Server, b: Server| a.eqv(&b)));
            },
            AppEvent::ApiError { operation, message } => {
                self.error_message = Some(format_error(operation, message));
                self.loading = false;
            },
            _ => {},
        }
    }
    /// The servers offered when attaching.
    pub fn cached_servers(&self) -> (r: &[Server])
        ensures
            r@ == self.servers_spec(),
    {
        self.cached_servers.as_slice()
    }

    /// What a confirmed dialog asks for: deleting (not forced), attaching,
    /// detaching, force-detaching, or resetting the volume's state to
    /// `available`.
    pub fn resolve_action(pending: PendingAction) -> (r: Option<Action>)
        ensures
            match pending {
                PendingAction::DeleteVolume { id, .. } => r == Some(Action::DeleteVolume { id, force: false }),
                PendingAction::AttachVolume { volume_id, server_id, device } => r == Some(
                    Action::AttachVolume { volume_id, server_id, device },
                ),
                PendingAction::DetachVolume { volume_id, server_id, attachment_id } => r == Some(
                    Action::DetachVolume { volume_id, server_id, attachment_id },
                ),
                PendingAction::ForceDetachVolume { volume_id, server_id, attachment_id } => r == Some(
                    Action::ForceDetachVolume { volume_id, server_id, attachment_id },
                ),
                PendingAction::ForceResetVolumeState { volume_id } => match r {
                    Some(Action::ForceResetVolumeState { volume_id: v, target_state }) => v == volume_id
                        && target_state@ == "available"@,
                    _ => false,
                },
                _ => r is None,
            },
    {
        match pending {
            PendingAction::DeleteVolume { id, .. } => Some(Action::DeleteVolume { id, force: false }),
            PendingAction::AttachVolume { volume_id, server_id, device } => Some(
                Action::AttachVolume { volume_id, server_id, device },
            ),
            PendingAction::DetachVolume { volume_id, server_id, attachment_id } => Some(
                Action::DetachVolume { volume_id, server_id, attachment_id },
            ),
            PendingAction::ForceDetachVolume { volume_id, server_id, attachment_id } => Some(
                Action::ForceDetachVolume { volume_id, server_id, attachment_id },
            ),
            PendingAction::ForceResetVolumeState { volume_id } => Some(
                Action::ForceResetVolumeState { volume_id, target_state: String::from_str("available") },
            ),
            _ => None,
        }
    }

    /// The confirmation state: the open dialog and the action it guards.
    pub closed spec fn confirm_state(&self) -> ConfirmHandler {
        self.confirm
    }

    /// This screen with its confirmation state replaced by `c`.
    pub closed spec fn with_confirm(&self, c: ConfirmHandler) -> Self {
        Self { confirm: c, ..*self }
    }

    /// Answer the open confirmation dialog with a key press, a confirmed
    /// dialog resolved by `resolve_action` (see `confirm_answer`); nothing
    /// but the dialog and its pending action changes. `None` when no
    /// dialog is open, so that the key goes to the view.
    pub fn handle_confirm_key(&mut self, key: Key) -> (r: Option<Option<Action>>)
        ensures
            confirm_answer(old(self).confirm_state(), final(self).confirm_state(), key, r, Self::resolve_action),
            *final(self) == old(self).with_confirm(final(self).confirm_state()),
            old(self).inv() ==> final(self).inv(),
    {
        self.confirm.handle_key(key, Self::resolve_action)
    }

    /// What the create form made of a key: a submitted form closes and
    /// queues the creation, a cancelled one closes; either leaves form
    /// mode. Without an open form, the form view is left.
    pub fn handle_create_key(&mut self, outcome: FormAction) -> (r: Option<Action>)
        requires
            old(self).inv(),
        ensures
            final(self).inv(),
            !old(self).form_open_spec() ==> {
                &&& r is None
                &&& !final(self).form_open_spec()
                &&& final(self).view_state_spec() == ViewState::List
                &&& final(self).volumes_spec() == old(self).volumes_spec()
                &&& final(self).outbox_spec() == old(self).outbox_spec()
                &&& final(self).selected_spec() == old(self).selected_spec()
                &&& final(self).loading_spec() == old(self).loading_spec()
                &&& final(self).error_spec() == old(self).error_spec()
                &&& final(self).confirm_spec() == old(self).confirm_spec()
                &&& final(self).admin_spec() == old(self).admin_spec()
                &&& final(self).all_tenants_spec() == old(self).all_tenants_spec()
                &&& final(self).servers_spec() == old(self).servers_spec()
            },
            old(self).form_open_spec() ==> match outcome {
                FormAction::Submit(values) => {
                    &&& r == Some(Action::ExitFormMode)
                    &&& !final(self).form_open_spec()
                    &&& final(self).view_state_spec() == ViewState::List
                    &&& final(self).outbox_spec().len() == old(self).outbox_spec().len() + 1
                    &&& final(self).outbox_spec().drop_last() == old(self).outbox_spec()
                    &&& final(self).outbox_spec().last() matches Action::CreateVolume(p) && volume_form_params(values@, p)
                },
                FormAction::Cancel => {
                    &&& r == Some(Action::ExitFormMode)
                    &&& !final(self).form_open_spec()
                    &&& final(self).view_state_spec() == ViewState::List
                    &&& final(self).outbox_spec() == old(self).outbox_spec()
                },
                FormAction::Pending => {
                    &&& r is None
                    &&& *final(self) == *old(self)
                },
            },
    {
        if self.form.is_none() {
            self.close_form();
            return None;
        }
        match outcome {
            FormAction::Submit(values) => self.submit_create(&values),
            FormAction::Cancel => self.cancel_create(),
            FormAction::Pending => None,
        }
    }

    /// A submitted create form: close it, queue the create request, and
    /// leave form mode.
    pub fn submit_create(&mut self, values: &Vec<(String, FormValue)>) -> (r: Option<Action>)
        requires
            old(self).inv(),
        ensures
            final(self).inv(),
            r == Some(Action::ExitFormMode),
            !final(self).form_open_spec(),
            final(self).view_state_spec() == ViewState::List,
            final(self).outbox_spec().len() == old(self).outbox_spec().len() + 1,
            final(self).outbox_spec().drop_last() == old(self).outbox_spec(),
            final(self).outbox_spec().last() matches Action::CreateVolume(p) && volume_form_params(values@, p),
    {
        let params = volume_params_from_form(values);
        self.close_form();
        self.outbox.push(Action::CreateVolume(params));
        proof {
            assert(self.outbox@.drop_last() =~= old(self).outbox@);
        }
        Some(Action::ExitFormMode)
    }
}

} // verus!
