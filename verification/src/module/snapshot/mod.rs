pub mod view_model;


use vstd::prelude::*;
use crate::action::Action;
use crate::event::AppEvent;
use crate::models::cinder::VolumeSnapshot;
use crate::module::{copy_list, error_text, format_error, confirm_answer, ConfirmHandler, PendingAction, ViewState};
use crate::text::{cat, cat3, char_prefix, opt_or, opt_str_or, str_eq, take_chars};
use crate::ui::confirm::{is_yes_no, ConfirmDialog};
use crate::ui::key::Key;
use crate::ui::resource_list::{kept_selection, nav_key, nav_target, rows_view, ResourceList, Row, RowView};
use self::view_model::{snapshot_row_spec, snapshot_to_row};

verus! {

/// The rows of a list of snapshots.
pub open spec fn snapshot_rows_spec(items: Seq<VolumeSnapshot>, show_tenant: bool) -> Seq<RowView> {
    items.map_values(|x: VolumeSnapshot| snapshot_row_spec(x, show_tenant))
}

/// The table rows of a list of snapshots.
fn snapshot_rows(items: &Vec<VolumeSnapshot>, show_tenant: bool) -> (r: Vec<Row>)
    ensures
        rows_view(r@) == snapshot_rows_spec(items@, show_tenant),
{
    let mut rows: Vec<Row> = Vec::new();
    let mut i: usize = 0;
    while i < items.len()
        invariant
            i <= items@.len(),
            rows_view(rows@) == snapshot_rows_spec(items@.subrange(0, i as int), show_tenant),
        decreases items@.len() - i,
    {
        let row = snapshot_to_row(&items[i], show_tenant);
        let ghost before = rows@;
        rows.push(row);
        proof {
            assert(rows_view(rows@) =~= rows_view(before).push(row@));
            assert(snapshot_rows_spec(items@.subrange(0, i + 1), show_tenant) =~= snapshot_rows_spec(items@.subrange(0, i as int), show_tenant).push(snapshot_row_spec(items@[i as int], show_tenant)));
        }
        i = i + 1;
    }
    proof {
        assert(items@.subrange(0, items@.len() as int) =~= items@);
    }
    rows
}

/// The first snapshot with the given ID.
pub open spec fn find_snapshot(items: Seq<VolumeSnapshot>, id: Seq<char>) -> Option<VolumeSnapshot>
    decreases items.len(),
{
    if items.len() == 0 {
        None
    } else if items[0].id@ == id {
        Some(items[0])
    } else {
        find_snapshot(items.drop_first(), id)
    }
}

/// What a key does to the snapshot list: table navigation, Enter opens
/// the selected snapshot, `d` asks to delete it, `r` reloads, Left goes to
/// the sidebar, Esc goes back.
pub open spec fn snapshot_list_step(a: SnapshotModule, b: SnapshotModule, key: Key, r: Option<Action>) -> bool {
    &&& b.snapshots_spec() == a.snapshots_spec()
    &&& b.outbox_spec() == a.outbox_spec()
    &&& b.selected_spec() == nav_target(key, a.selected_spec(), a.table_len_spec())
    &&& nav_key(key) ==> r is None && b.view_state_spec() == a.view_state_spec() && b.confirm_spec() == a.confirm_spec()
    &&& !nav_key(key) && key == Key::Enter ==> {
        &&& r is None
        &&& b.confirm_spec() == a.confirm_spec()
        &&& b.view_state_spec() == if a.selected_spec() < a.snapshots_spec().len() {
            ViewState::Detail(a.snapshots_spec()[a.selected_spec() as int].id)
        } else {
            a.view_state_spec()
        }
    }
    &&& !nav_key(key) && key == Key::Char('d') ==> {
        &&& r is None
        &&& b.view_state_spec() == a.view_state_spec()
        &&& if a.selected_spec() < a.snapshots_spec().len() {
            let s = a.snapshots_spec()[a.selected_spec() as int];
            let name = match s.name {
                Some(n) => n@,
                None => take_chars(s.id@, 8),
            };
            &&& b.pending_spec() matches Some(PendingAction::DeleteSnapshot { id, name: n }) && id == s.id && n@ == name
            &&& b.dialog_spec() matches Some(d) && is_yes_no(d, "Delete snapshot '"@ + name + "'?"@, Seq::empty())
        } else {
            b.confirm_spec() == a.confirm_spec()
        }
    }
    &&& !nav_key(key) && key != Key::Enter && key != Key::Char('d') ==> {
        &&& b.view_state_spec() == a.view_state_spec()
        &&& b.confirm_spec() == a.confirm_spec()
        &&& r == if key == Key::Char('r') {
            Some(Action::FetchSnapshots)
        } else if key == Key::Left {
            Some(Action::FocusSidebar)
        } else if key == Key::Esc {
            Some(Action::Back)
        } else {
            None
        }
    }
}

/// What a key does to a snapshot's detail view: Esc, `q` and Left go back
/// to the list.
pub open spec fn snapshot_detail_step(a: SnapshotModule, b: SnapshotModule, key: Key, r: Option<Action>) -> bool {
    &&& r is None
    &&& b.view_state_spec() == if key == Key::Esc || key == Key::Char('q') || key == Key::Left {
        ViewState::List
    } else {
        a.view_state_spec()
    }
    &&& b.snapshots_spec() == a.snapshots_spec()
    &&& b.outbox_spec() == a.outbox_spec()
}

/// The snapshot screen: the snapshots, their table, the delete
/// confirmation, and the requests waiting to be sent.
pub struct SnapshotModule {
    view_state: ViewState,
    snapshots: Vec<VolumeSnapshot>,
    loading: bool,
    error_message: Option<String>,
    confirm: ConfirmHandler,
    resource_list: ResourceList,
    all_tenants: bool,
    outbox: Vec<Action>,
}

impl SnapshotModule {
    /// The view shown.
    pub closed spec fn view_state_spec(&self) -> ViewState {
        self.view_state
    }

    /// The snapshots held.
    pub closed spec fn snapshots_spec(&self) -> Seq<VolumeSnapshot> {
        self.snapshots@
    }

    /// Whether a load is outstanding.
    pub closed spec fn loading_spec(&self) -> bool {
        self.loading
    }

    /// The last error shown.
    pub closed spec fn error_spec(&self) -> Option<Seq<char>> {
        match self.error_message {
            Some(e) => Some(e@),
            None => None,
        }
    }

    /// Whether a confirmation dialog is open.
    pub closed spec fn confirm_spec(&self) -> bool {
        self.confirm.dialog is Some
    }

    /// The action the open confirmation guards.
    pub closed spec fn pending_spec(&self) -> Option<PendingAction> {
        self.confirm.pending
    }

    /// The open confirmation dialog.
    pub closed spec fn dialog_spec(&self) -> Option<ConfirmDialog> {
        self.confirm.dialog
    }

    /// Whether the resources of all projects are shown.
    pub closed spec fn all_tenants_spec(&self) -> bool {
        self.all_tenants
    }

    /// The requests waiting to be sent, oldest first.
    pub closed spec fn outbox_spec(&self) -> Seq<Action> {
        self.outbox@
    }

    /// The selected row.
    pub closed spec fn selected_spec(&self) -> nat {
        self.resource_list.selected_spec()
    }

    /// The number of rows in the table.
    pub closed spec fn table_len_spec(&self) -> nat {
        self.resource_list.len_spec()
    }

    /// The table is empty (after a switch of the project column, until the next load) or shows one row per snapshot.
    pub closed spec fn inv(&self) -> bool {
        &&& self.resource_list.inv()
        &&& (self.resource_list.len_spec() == 0 || (self.resource_list.rows_spec() == snapshot_rows_spec(self.snapshots@, self.all_tenants) && self.resource_list.len_spec() == self.snapshots@.len()))
    }

    /// An empty screen showing its list.
    pub fn new() -> (r: Self)
        ensures
            r.inv(),
            r.view_state_spec() == ViewState::List,
            r.snapshots_spec() == Seq::<VolumeSnapshot>::empty(),
            !r.loading_spec(),
            r.error_spec() is None,
            !r.confirm_spec(),
            !r.all_tenants_spec(),
            r.outbox_spec() == Seq::<Action>::empty(),
            r.selected_spec() == 0,
            r.pending_spec() is None,
            r.table_len_spec() == 0,
    {
        SnapshotModule {
            view_state: ViewState::List,
            snapshots: Vec::new(),
            loading: false,
            error_message: None,
            confirm: ConfirmHandler::new(),
            resource_list: ResourceList::new(),
            all_tenants: false,
            outbox: Vec::new(),
        }
    }

    /// The view shown.
    pub fn view_state(&self) -> (r: &ViewState)
        ensures
            *r == self.view_state_spec(),
    {
        &self.view_state
    }

    /// The snapshots.
    pub fn snapshots(&self) -> (r: &[VolumeSnapshot])
        ensures
            r@ == self.snapshots_spec(),
    {
        self.snapshots.as_slice()
    }

    /// Index of the selected snapshot.
    pub fn selected_index(&self) -> (r: usize)
        ensures
            r == self.selected_spec(),
    {
        self.resource_list.selected_index()
    }

    /// The last error shown.
    pub fn error_message(&self) -> (r: Option<&str>)
        ensures
            match r {
                Some(s) => self.error_spec() == Some(s@),
                None => self.error_spec() is None,
            },
    {
        match &self.error_message {
            Some(e) => Some(e.as_str()),
            None => None,
        }
    }

    /// Whether a load is outstanding.
    pub fn is_loading(&self) -> (r: bool)
        ensures
            r == self.loading_spec(),
    {
        self.loading
    }

    /// Whether a confirmation dialog is open.
    pub fn confirm_is_active(&self) -> (r: bool)
        ensures
            r == self.confirm_spec(),
    {
        self.confirm.is_active()
    }

    /// Hand over the requests waiting to be sent, oldest first.
    pub fn take_actions(&mut self) -> (r: Vec<Action>)
        requires
            old(self).inv(),
        ensures
            final(self).inv(),
            r@ == old(self).outbox_spec(),
            final(self).outbox_spec() == Seq::<Action>::empty(),
            final(self).snapshots_spec() == old(self).snapshots_spec(),
            final(self).view_state_spec() == old(self).view_state_spec(),
            final(self).selected_spec() == old(self).selected_spec(),
    {
        let mut out: Vec<Action> = Vec::new();
        std::mem::swap(&mut out, &mut self.outbox);
        out
    }

    /// The request that reloads this screen.
    pub fn refresh_action(&self) -> (r: Option<Action>)
        ensures
            r == Some(Action::FetchSnapshots),
    {
        Some(Action::FetchSnapshots)
    }

    /// Whether a dialog or form takes every key.
    pub fn is_modal(&self) -> (r: bool)
        ensures
            r == self.confirm_spec(),
    {
        self.confirm.is_active()
    }

    /// Show or hide the project column; the table starts over empty.
    pub fn set_all_tenants(&mut self, v: bool)
        requires
            old(self).inv(),
        ensures
            final(self).inv(),
            final(self).all_tenants_spec() == v,
            final(self).table_len_spec() == 0,
            final(self).selected_spec() == 0,
            final(self).snapshots_spec() == old(self).snapshots_spec(),
            final(self).view_state_spec() == old(self).view_state_spec(),
            final(self).outbox_spec() == old(self).outbox_spec(),
    {
        self.all_tenants = v;
        self.resource_list = ResourceList::new();
    }

    /// The key help shown in the status bar.
    pub fn help_hint(&self) -> (r: &'static str)
        ensures
            r@ == match self.view_state_spec() {
                ViewState::List => "Enter:Detail d:Delete r:Refresh"@,
                ViewState::Detail(_) => "Esc:Back"@,
                ViewState::Create => ""@,
            },
    {
        match &self.view_state {
            ViewState::List => "Enter:Detail d:Delete r:Refresh",
            ViewState::Detail(_) => "Esc:Back",
            ViewState::Create => "",
        }
    }

    /// The title over the content: none on the list, the snapshot's name
    /// (`...` when unknown) on its detail, none otherwise.
    pub fn content_title(&self) -> (r: Option<String>)
        ensures
            match self.view_state_spec() {
                ViewState::List => r is None,
                ViewState::Detail(id) => r is Some && r->0@ == "Snapshot: "@ + match find_snapshot(self.snapshots_spec(), id@) {
                    Some(x) => opt_or(x.name, "..."@),
                    None => "..."@,
                },
                ViewState::Create => r is None,
            },
    {
        match &self.view_state {
            ViewState::List => None,
            ViewState::Detail(id) => {
                let n = self.snapshots.len();
                let mut j: usize = 0;
                proof {
                    assert(self.snapshots@.skip(0) =~= self.snapshots@);
                }
                while j < n
                    invariant
                        n == self.snapshots@.len(),
                        j <= n,
                        self.view_state_spec() == ViewState::Detail(*id),
                        find_snapshot(self.snapshots@, id@) == find_snapshot(self.snapshots@.skip(j as int), id@),
                    decreases n - j,
                {
                    let ghost rest = self.snapshots@.skip(j as int);
                    proof {
                        assert(rest[0] == self.snapshots@[j as int]);
                        assert(rest.drop_first() =~= self.snapshots@.skip(j + 1));
                    }
                    if str_eq(self.snapshots[j].id.as_str(), id.as_str()) {
                        return Some(cat("Snapshot: ", opt_str_or(&self.snapshots[j].name, "...").as_str()));
                    }
                    j = j + 1;
                }
                Some(cat("Snapshot: ", "..."))
            },
            ViewState::Create => None,
        }
    }

    /// What a confirmed dialog asks for.
    pub fn resolve_action(pending: PendingAction) -> (r: Option<Action>)
        ensures
            r == match pending {
                PendingAction::DeleteSnapshot { id, .. } => Some(Action::DeleteSnapshot { id }),
                _ => None,
            },
    {
        match pending {
            PendingAction::DeleteSnapshot { id, .. } => Some(Action::DeleteSnapshot { id }),
            _ => None,
        }
    }

    /// The confirmation state: the open dialog and the action it guards.
    pub closed spec fn confirm_state(&self) -> ConfirmHandler {
        self.confirm
    }

    /// This screen with its confirmation state replaced by `c`.
    pub closed spec fn with_confirm(&self, c: ConfirmHandler) -> Self {
        Self { confirm: c, ..*self }
    }

    /// Answer the open confirmation dialog with a key press, a confirmed
    /// dialog resolved by `resolve_action` (see `confirm_answer`); nothing
    /// but the dialog and its pending action changes. `None` when no
    /// dialog is open, so that the key goes to the view.
    pub fn handle_confirm_key(&mut self, key: Key) -> (r: Option<Option<Action>>)
        ensures
            confirm_answer(old(self).confirm_state(), final(self).confirm_state(), key, r, Self::resolve_action),
            *final(self) == old(self).with_confirm(final(self).confirm_state()),
            old(self).inv() ==> final(self).inv(),
    {
        self.confirm.handle_key(key, Self::resolve_action)
    }

    /// The dialog guarding a destructive action: a yes/no question (no
    /// project or cloud switch is tracked here that would call for more).
    fn destructive_confirm(&self, message: String) -> (d: ConfirmDialog)
        ensures
            is_yes_no(d, message@, Seq::empty()),
    {
        let d = ConfirmDialog::yes_no(message);
        proof {
            assert(crate::text::strs_view(d.details@) =~= Seq::<Seq<char>>::empty());
        }
        d
    }

    /// React to a key on the list: navigation moves the selection, Enter
    /// opens the selected snapshot, `d` asks whether to delete it (named by
    /// its name, else the first eight characters of its ID), `r` reloads,
    /// Left goes to the sidebar and Esc goes back.
    pub fn handle_list_key(&mut self, key: Key) -> (r: Option<Action>)
        requires
            old(self).inv(),
        ensures
            final(self).inv(),
            snapshot_list_step(*old(self), *final(self), key, r),
    {
        if self.resource_list.handle_nav_key(key) {
            return None;
        }
        match key {
            Key::Enter => {
                let i = self.resource_list.selected_index();
                if i < self.snapshots.len() {
                    self.view_state = ViewState::Detail(self.snapshots[i].id.clone());
                }
                None
            },
            Key::Char('d') => {
                let i = self.resource_list.selected_index();
                if i < self.snapshots.len() {
                    let id = self.snapshots[i].id.clone();
                    let name = match &self.snapshots[i].name {
                        Some(n) => n.clone(),
                        None => char_prefix(id.as_str(), 8),
                    };
                    let dialog = self.destructive_confirm(cat3("Delete snapshot '", name.as_str(), "'?"));
                    self.confirm.open(dialog, PendingAction::DeleteSnapshot { id, name });
                }
                None
            },
            Key::Char('r') => Some(Action::FetchSnapshots),
            Key::Left => Some(Action::FocusSidebar),
            Key::Esc => Some(Action::Back),
            _ => None,
        }
    }

    /// React to a key on the detail view: Esc, `q` or Left go back to the
    /// list.
    pub fn handle_detail_key(&mut self, key: Key) -> (r: Option<Action>)
        requires
            old(self).inv(),
        ensures
            final(self).inv(),
            snapshot_detail_step(*old(self), *final(self), key, r),
    {
        match key {
            Key::Esc | Key::Char('q') | Key::Left => {
                self.view_state = ViewState::List;
                None
            },
            _ => None,
        }
    }

    /// React to a key: an open dialog answers it first (see
    /// `handle_confirm_key`); otherwise the list or the detail view handles
    /// it.
    pub fn handle_key(&mut self, key: Key) -> (r: Option<Action>)
        requires
            old(self).inv(),
        ensures
            final(self).inv(),
            old(self).confirm_spec() ==> {
                &&& confirm_answer(old(self).confirm_state(), final(self).confirm_state(), key, Some(r), Self::resolve_action)
                &&& *final(self) == old(self).with_confirm(final(self).confirm_state())
            },
            !old(self).confirm_spec() ==> match old(self).view_state_spec() {
                ViewState::Detail(_) => snapshot_detail_step(*old(self), *final(self), key, r),
                _ => snapshot_list_step(*old(self), *final(self), key, r),
            },
    {
        match self.handle_confirm_key(key) {
            Some(answer) => {
                return answer;
            },
            None => {},
        }
        match self.view_state {
            ViewState::Detail(_) => self.handle_detail_key(key),
            _ => self.handle_list_key(key),
        }
    }

    /// Replace the snapshots with a loaded list and clear the error.
    fn take_snapshots(&mut self, items: &Vec<VolumeSnapshot>)
        requires
            old(self).inv(),
        ensures
            final(self).inv(),
            final(self).snapshots_spec() == items@,
            final(self).table_len_spec() == items@.len(),
            final(self).selected_spec() == kept_selection(old(self).selected_spec(), items@.len()),
            !final(self).loading_spec(),
            final(self).error_spec() is None,
            final(self).view_state_spec() == old(self).view_state_spec(),
            final(self).outbox_spec() == old(self).outbox_spec(),
            final(self).confirm_spec() == old(self).confirm_spec(),
            final(self).all_tenants_spec() == old(self).all_tenants_spec(),
    {
        proof {
            assert forall|a: VolumeSnapshot, b: VolumeSnapshot| #[trigger] cloned(a, b) implies a == b by {}
        }
        let copy = copy_list(items);
        let rows = snapshot_rows(&copy, self.all_tenants);
        self.snapshots = copy;
        self.loading = false;
        self.error_message = None;
        proof {
            assert(rows_view(rows@).len() == rows@.len());
        }
        self.resource_list.set_rows(rows);
    }

    /// Take in an event: a loaded list replaces the snapshots and clears the
    /// error; a created or deleted snapshot queues a reload; a failed request
    /// shows its error.
    pub fn handle_event(&mut self, event: &AppEvent)
        requires
            old(self).inv(),
        ensures
            final(self).inv(),
            final(self).confirm_spec() == old(self).confirm_spec(),
            match event {
                AppEvent::SnapshotsLoaded(x) => final(self).snapshots_spec() == x@
                    && final(self).table_len_spec() == x@.len()
                    && final(self).selected_spec() == kept_selection(old(self).selected_spec(), x@.len()),
                _ => final(self).snapshots_spec() == old(self).snapshots_spec()
                    && final(self).selected_spec() == old(self).selected_spec(),
            },
            final(self).loading_spec() == match event {
                AppEvent::SnapshotsLoaded(_) => false,
                AppEvent::ApiError { .. } => false,
                _ => old(self).loading_spec(),
            },
            final(self).error_spec() == match event {
                AppEvent::SnapshotsLoaded(_) => None,
                AppEvent::ApiError { operation, message } => Some(error_text(operation@, message@)),
                _ => old(self).error_spec(),
            },
            final(self).view_state_spec() == match event {
                _ => old(self).view_state_spec(),
            },
            final(self).outbox_spec() == match event {
                AppEvent::SnapshotCreated(_) => old(self).outbox_spec().push(Action::FetchSnapshots),
                AppEvent::SnapshotDeleted { .. } => old(self).outbox_spec().push(Action::FetchSnapshots),
                _ => old(self).outbox_spec(),
            },
    {
        match event {
            AppEvent::SnapshotsLoaded(items) => {
                self.take_snapshots(items);
            },
            AppEvent::SnapshotCreated(_) => {
                self.outbox.push(Action::FetchSnapshots);
            },
            AppEvent::SnapshotDeleted { .. } => {
                self.outbox.push(Action::FetchSnapshots);
            },
            AppEvent::ApiError { operation, message } => {
                self.error_message = Some(format_error(operation, message));
                self.loading = false;
            },
            _ => {},
        }
    }

    /// After a switch of project or cloud: drop everything held, close any
    /// confirmation, mark a load outstanding, and go back to the list.
    pub fn on_context_changed(&mut self)
        requires
            old(self).inv(),
        ensures
            final(self).inv(),
            final(self).snapshots_spec() == Seq::<VolumeSnapshot>::empty(),
            final(self).loading_spec(),
            final(self).error_spec() is None,
            final(self).table_len_spec() == 0,
            final(self).view_state_spec() == ViewState::List,
            !final(self).confirm_spec(),
            final(self).outbox_spec() == old(self).outbox_spec(),
            final(self).all_tenants_spec() == old(self).all_tenants_spec(),
    {
        self.snapshots.clear();
        self.loading = true;
        self.error_message = None;
        self.resource_list.set_rows(Vec::new());
        self.view_state = ViewState::List;
        self.confirm = ConfirmHandler::new();
    }
}

} // verus!

