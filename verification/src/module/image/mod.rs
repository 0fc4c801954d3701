pub mod view_model;

use vstd::prelude::*;
use crate::action::Action;
use crate::event::AppEvent;
use crate::models::glance::Image;
use crate::module::{copy_list, error_text, format_error, confirm_answer, ConfirmHandler, PendingAction, ViewState};
use crate::port::types::ImageCreateParams;
use crate::text::{cat, cat3, str_eq};
use crate::ui::confirm::ConfirmDialog;
use crate::ui::form::{FormAction, as_number, as_selected, as_text, form_lookup, selected_field, text_field, u32_field, FormValue, FormWidget};
use crate::ui::key::Key;
use crate::ui::resource_list::{kept_selection, nav_key, nav_target, rows_view, ResourceList, Row, RowView};
use self::view_model::{image_create_defs, image_row_spec, image_to_row};

verus! {

/// Whether `p` is what a submitted image form with `values` asks for.
pub open spec fn image_form_params(values: Seq<(String, FormValue)>, p: ImageCreateParams) -> bool {
    &&& p.name@ == match as_text(form_lookup(values, "Name"@)) {
        Some(s) => s,
        None => Seq::empty(),
        }
    &&& p.disk_format@ == match as_selected(form_lookup(values, "Disk Format"@)) {
        Some(s) => s,
        None => Seq::empty(),
        }
    &&& p.container_format@ == match as_selected(form_lookup(values, "Container Format"@)) {
        Some(s) => s,
        None => Seq::empty(),
        }
    &&& match p.visibility {
        Some(v) => as_selected(form_lookup(values, "Visibility"@)) == Some(v@) && v@.len() > 0,
        None => match as_selected(form_lookup(values, "Visibility"@)) {
            Some(s) => s.len() == 0,
            None => true,
        },
        }
    &&& match p.min_disk {
        Some(m) => as_number(form_lookup(values, "Min Disk (GB)"@), u32::MAX as nat) == Some(m as nat),
        None => as_number(form_lookup(values, "Min Disk (GB)"@), u32::MAX as nat) is None,
        }
    &&& match p.min_ram {
        Some(m) => as_number(form_lookup(values, "Min RAM (MB)"@), u32::MAX as nat) == Some(m as nat),
        None => as_number(form_lookup(values, "Min RAM (MB)"@), u32::MAX as nat) is None,
        }
}

/// The parameters a submitted image form asks for: the name, disk format
/// and container format (empty when missing), the visibility when a
/// non-empty one was chosen, and the minimum disk and RAM when given as
/// numbers.
pub fn image_params_from_form(values: &Vec<(String, FormValue)>) -> (p: ImageCreateParams)
    ensures
        image_form_params(values@, p),
{
    let name = match text_field(values, "Name") {
        Some(s) => s,
        None => String::new(),
    };
    let disk_format = match selected_field(values, "Disk Format") {
        Some(s) => s,
        None => String::new(),
    };
    let container_format = match selected_field(values, "Container Format") {
        Some(s) => s,
        None => String::new(),
    };
    let visibility = match selected_field(values, "Visibility") {
        Some(s) => if s.unicode_len() == 0 {
            None
        } else {
            Some(s)
        },
        None => None,
    };
    let min_disk = u32_field(values, "Min Disk (GB)");
    let min_ram = u32_field(values, "Min RAM (MB)");
    ImageCreateParams { name, disk_format, container_format, visibility, min_disk, min_ram }
}

/// The rows of a list of images.
pub open spec fn image_rows_spec(items: Seq<Image>) -> Seq<RowView> {
    items.map_values(|x: Image| image_row_spec(x))
}

/// The table rows of a list of images.
fn image_rows(items: &Vec<Image>) -> (r: Vec<Row>)
    ensures
        rows_view(r@) == image_rows_spec(items@),
{
    let mut rows: Vec<Row> = Vec::new();
    let mut i: usize = 0;
    while i < items.len()
        invariant
            i <= items@.len(),
            rows_view(rows@) == image_rows_spec(items@.subrange(0, i as int)),
        decreases items@.len() - i,
    {
        let row = image_to_row(&items[i]);
        let ghost before = rows@;
        rows.push(row);
        proof {
            assert(rows_view(rows@) =~= rows_view(before).push(row@));
            assert(image_rows_spec(items@.subrange(0, i + 1)) =~= image_rows_spec(items@.subrange(0, i as int)).push(image_row_spec(items@[i as int])));
        }
        i = i + 1;
    }
    proof {
        assert(items@.subrange(0, items@.len() as int) =~= items@);
    }
    rows
}

/// The first image with the given ID.
pub open spec fn find_image(items: Seq<Image>, id: Seq<char>) -> Option<Image>
    decreases items.len(),
{
    if items.len() == 0 {
        None
    } else if items[0].id@ == id {
        Some(items[0])
    } else {
        find_image(items.drop_first(), id)
    }
}

/// The image screen: the images, their table, the create form, the delete
/// confirmation, and the requests waiting to be sent.
pub struct ImageModule {
    view_state: ViewState,
    images: Vec<Image>,
    loading: bool,
    error_message: Option<String>,
    is_admin: bool,
    confirm: ConfirmHandler,
    resource_list: ResourceList,
    form: Option<FormWidget>,
    all_tenants: bool,
    outbox: Vec<Action>,
}

impl ImageModule {
    /// The view shown.
    pub closed spec fn view_state_spec(&self) -> ViewState {
        self.view_state
    }

    /// The images held.
    pub closed spec fn images_spec(&self) -> Seq<Image> {
        self.images@
    }

    /// Whether a load is outstanding.
    pub closed spec fn loading_spec(&self) -> bool {
        self.loading
    }

    /// The last error shown.
    pub closed spec fn error_spec(&self) -> Option<Seq<char>> {
        match self.error_message {
            Some(e) => Some(e@),
            None => None,
        }
    }

    /// Whether the user has the admin role.
    pub closed spec fn admin_spec(&self) -> bool {
        self.is_admin
    }

    /// Whether the form is open.
    pub closed spec fn form_open_spec(&self) -> bool {
        self.form is Some
    }

    /// Whether a confirmation dialog is open.
    pub closed spec fn confirm_spec(&self) -> bool {
        self.confirm.dialog is Some
    }

    /// The action the open confirmation guards.
    pub closed spec fn pending_spec(&self) -> Option<PendingAction> {
        self.confirm.pending
    }

    /// Whether the resources of all projects are shown.
    pub closed spec fn all_tenants_spec(&self) -> bool {
        self.all_tenants
    }

    /// The requests waiting to be sent, oldest first.
    pub closed spec fn outbox_spec(&self) -> Seq<Action> {
        self.outbox@
    }

    /// The selected row.
    pub closed spec fn selected_spec(&self) -> nat {
        self.resource_list.selected_spec()
    }

    /// The number of rows in the table.
    pub closed spec fn table_len_spec(&self) -> nat {
        self.resource_list.len_spec()
    }

    /// The table is empty (after a switch of the project column, until the next load) or shows one row per image.
    pub closed spec fn inv(&self) -> bool {
        &&& self.resource_list.inv()
        &&& (self.resource_list.len_spec() == 0 || (self.resource_list.rows_spec() == image_rows_spec(self.images@) && self.resource_list.len_spec() == self.images@.len()))
    }

    /// An empty screen showing its list, for a user without the admin role.
    pub fn new() -> (r: Self)
        ensures
            r.inv(),
            r.view_state_spec() == ViewState::List,
            r.images_spec() == Seq::<Image>::empty(),
            !r.loading_spec(),
            r.error_spec() is None,
            !r.admin_spec(),
            !r.form_open_spec(),
            !r.confirm_spec(),
            !r.all_tenants_spec(),
            r.outbox_spec() == Seq::<Action>::empty(),
            r.selected_spec() == 0,
            r.pending_spec() is None,
            r.table_len_spec() == 0,
    {
        ImageModule {
            view_state: ViewState::List,
            images: Vec::new(),
            loading: false,
            error_message: None,
            is_admin: false,
            confirm: ConfirmHandler::new(),
            resource_list: ResourceList::new(),
            form: None,
            all_tenants: false,
            outbox: Vec::new(),
        }
    }

    /// The view shown.
    pub fn view_state(&self) -> (r: &ViewState)
        ensures
            *r == self.view_state_spec(),
    {
        &self.view_state
    }

    /// The images.
    pub fn images(&self) -> (r: &[Image])
        ensures
            r@ == self.images_spec(),
    {
        self.images.as_slice()
    }

    /// Index of the selected image.
    pub fn selected_index(&self) -> (r: usize)
        ensures
            r == self.selected_spec(),
    {
        self.resource_list.selected_index()
    }

    /// The last error shown.
    pub fn error_message(&self) -> (r: Option<&str>)
        ensures
            match r {
                Some(s) => self.error_spec() == Some(s@),
                None => self.error_spec() is None,
            },
    {
        match &self.error_message {
            Some(e) => Some(e.as_str()),
            None => None,
        }
    }

    /// Whether a load is outstanding.
    pub fn is_loading(&self) -> (r: bool)
        ensures
            r == self.loading_spec(),
    {
        self.loading
    }

    /// Whether the user has the admin role.
    pub fn is_admin(&self) -> (r: bool)
        ensures
            r == self.admin_spec(),
    {
        self.is_admin
    }

    /// Give or take the admin role.
    pub fn set_admin(&mut self, is_admin: bool)
        requires
            old(self).inv(),
        ensures
            final(self).inv(),
            final(self).admin_spec() == is_admin,
            final(self).images_spec() == old(self).images_spec(),
            final(self).view_state_spec() == old(self).view_state_spec(),
            final(self).outbox_spec() == old(self).outbox_spec(),
    {
        self.is_admin = is_admin;
    }

    /// Whether the form is open.
    pub fn form_is_open(&self) -> (r: bool)
        ensures
            r == self.form_open_spec(),
    {
        self.form.is_some()
    }

    /// Whether a confirmation dialog is open.
    pub fn confirm_is_active(&self) -> (r: bool)
        ensures
            r == self.confirm_spec(),
    {
        self.confirm.is_active()
    }

    /// Hand over the requests waiting to be sent, oldest first.
    pub fn take_actions(&mut self) -> (r: Vec<Action>)
        requires
            old(self).inv(),
        ensures
            final(self).inv(),
            r@ == old(self).outbox_spec(),
            final(self).outbox_spec() == Seq::<Action>::empty(),
            final(self).images_spec() == old(self).images_spec(),
            final(self).view_state_spec() == old(self).view_state_spec(),
            final(self).selected_spec() == old(self).selected_spec(),
    {
        let mut out: Vec<Action> = Vec::new();
        std::mem::swap(&mut out, &mut self.outbox);
        out
    }

    /// The request that reloads this screen.
    pub fn refresh_action(&self) -> (r: Option<Action>)
        ensures
            r == Some(Action::FetchImages),
    {
        Some(Action::FetchImages)
    }

    /// Whether a dialog or form takes every key.
    pub fn is_modal(&self) -> (r: bool)
        ensures
            r == self.confirm_spec() || self.form_open_spec(),
    {
        self.confirm.is_active() || self.form.is_some()
    }

    /// Show or hide the project column; the table starts over empty.
    pub fn set_all_tenants(&mut self, v: bool)
        requires
            old(self).inv(),
        ensures
            final(self).inv(),
            final(self).all_tenants_spec() == v,
            final(self).table_len_spec() == 0,
            final(self).selected_spec() == 0,
            final(self).images_spec() == old(self).images_spec(),
            final(self).view_state_spec() == old(self).view_state_spec(),
            final(self).outbox_spec() == old(self).outbox_spec(),
    {
        self.all_tenants = v;
        self.resource_list = ResourceList::new();
    }

    /// The key help shown in the status bar.
    pub fn help_hint(&self) -> (r: &'static str)
        ensures
            r@ == match self.view_state_spec() {
                ViewState::List => if self.admin_spec() {
                    "Enter:Detail c:Create d:Delete r:Refresh"@
                } else {
                    "Enter:Detail r:Refresh"@
                },
                ViewState::Detail(_) => "Esc:Back"@,
                ViewState::Create => "Esc:Cancel Tab:Next Enter:Submit"@,
            },
    {
        match &self.view_state {
            ViewState::List => if self.is_admin {
                "Enter:Detail c:Create d:Delete r:Refresh"
            } else {
                "Enter:Detail r:Refresh"
            },
            ViewState::Detail(_) => "Esc:Back",
            ViewState::Create => "Esc:Cancel Tab:Next Enter:Submit",
        }
    }

    /// The title over the content: none on the list, the image's name
    /// (`...` when unknown) on its detail, `Create Image` on the form.
    pub fn content_title(&self) -> (r: Option<String>)
        ensures
            match self.view_state_spec() {
                ViewState::List => r is None,
                ViewState::Detail(id) => r is Some && r->0@ == "Image: "@ + match find_image(self.images_spec(), id@) {
                    Some(x) => x.name@,
                    None => "..."@,
                },
                ViewState::Create => r is Some && r->0@ == "Create Image"@,
            },
    {
        match &self.view_state {
            ViewState::List => None,
            ViewState::Detail(id) => {
                let n = self.images.len();
                let mut j: usize = 0;
                proof {
                    assert(self.images@.skip(0) =~= self.images@);
                }
                while j < n
                    invariant
                        n == self.images@.len(),
                        j <= n,
                        self.view_state_spec() == ViewState::Detail(*id),
                        find_image(self.images@, id@) == find_image(self.images@.skip(j as int), id@),
                    decreases n - j,
                {
                    let ghost rest = self.images@.skip(j as int);
                    proof {
                        assert(rest[0] == self.images@[j as int]);
                        assert(rest.drop_first() =~= self.images@.skip(j + 1));
                    }
                    if str_eq(self.images[j].id.as_str(), id.as_str()) {
                        return Some(cat("Image: ", self.images[j].name.as_str()));
                    }
                    j = j + 1;
                }
                Some(cat("Image: ", "..."))
            },
            ViewState::Create => Some(String::from_str("Create Image")),
        }
    }

    /// What a confirmed dialog asks for.
    pub fn resolve_action(pending: PendingAction) -> (r: Option<Action>)
        ensures
            r == match pending {
                PendingAction::DeleteImage { id, .. } => Some(Action::DeleteImage { id }),
                _ => None,
            },
    {
        match pending {
            PendingAction::DeleteImage { id, .. } => Some(Action::DeleteImage { id }),
            _ => None,
        }
    }

    /// The confirmation state: the open dialog and the action it guards.
    pub closed spec fn confirm_state(&self) -> ConfirmHandler {
        self.confirm
    }

    /// This screen with its confirmation state replaced by `c`.
    pub closed spec fn with_confirm(&self, c: ConfirmHandler) -> Self {
        Self { confirm: c, ..*self }
    }

    /// Answer the open confirmation dialog with a key press, a confirmed
    /// dialog resolved by `resolve_action` (see `confirm_answer`); nothing
    /// but the dialog and its pending action changes. `None` when no
    /// dialog is open, so that the key goes to the view.
    pub fn handle_confirm_key(&mut self, key: Key) -> (r: Option<Option<Action>>)
        ensures
            confirm_answer(old(self).confirm_state(), final(self).confirm_state(), key, r, Self::resolve_action),
            *final(self) == old(self).with_confirm(final(self).confirm_state()),
            old(self).inv() ==> final(self).inv(),
    {
        self.confirm.handle_key(key, Self::resolve_action)
    }

    /// Open the Create Image form.
    pub fn open_create_form(&mut self)
        requires
            old(self).inv(),
        ensures
            final(self).inv(),
            final(self).form_open_spec(),
            final(self).view_state_spec() == ViewState::Create,
            final(self).images_spec() == old(self).images_spec(),
            final(self).outbox_spec() == old(self).outbox_spec(),
            final(self).selected_spec() == old(self).selected_spec(),
            final(self).admin_spec() == old(self).admin_spec(),
            final(self).all_tenants_spec() == old(self).all_tenants_spec(),
            final(self).confirm_spec() == old(self).confirm_spec(),
    {
        let defs = image_create_defs();
        self.form = Some(FormWidget::new("Create Image", defs));
        self.view_state = ViewState::Create;
    }

    /// Close the form and go back to the list.
    pub fn close_form(&mut self)
        requires
            old(self).inv(),
        ensures
            final(self).inv(),
            !final(self).form_open_spec(),
            final(self).view_state_spec() == ViewState::List,
            final(self).images_spec() == old(self).images_spec(),
            final(self).outbox_spec() == old(self).outbox_spec(),
            final(self).selected_spec() == old(self).selected_spec(),
            final(self).loading_spec() == old(self).loading_spec(),
            final(self).error_spec() == old(self).error_spec(),
            final(self).confirm_spec() == old(self).confirm_spec(),
            final(self).admin_spec() == old(self).admin_spec(),
            final(self).all_tenants_spec() == old(self).all_tenants_spec(),
    {
        self.form = None;
        self.view_state = ViewState::List;
    }

    /// A cancelled form: close it and leave form mode.
    pub fn cancel_create(&mut self) -> (r: Option<Action>)
        requires
            old(self).inv(),
        ensures
            final(self).inv(),
            r == Some(Action::ExitFormMode),
            !final(self).form_open_spec(),
            final(self).view_state_spec() == ViewState::List,
            final(self).outbox_spec() == old(self).outbox_spec(),
    {
        self.close_form();
        Some(Action::ExitFormMode)
    }

    /// React to a key on the detail view: Esc, `q` or Left go back to the
    /// list.
    pub fn handle_detail_key(&mut self, key: Key) -> (r: Option<Action>)
        requires
            old(self).inv(),
        ensures
            final(self).inv(),
            r is None,
            final(self).view_state_spec() == if key == Key::Esc || key == Key::Char('q') || key == Key::Left {
                ViewState::List
            } else {
                old(self).view_state_spec()
            },
            final(self).images_spec() == old(self).images_spec(),
            final(self).outbox_spec() == old(self).outbox_spec(),
    {
        match key {
            Key::Esc | Key::Char('q') | Key::Left => {
                self.view_state = ViewState::List;
                None
            },
            _ => None,
        }
    }

    /// Replace the images with a loaded list and clear the error.
    fn take_images(&mut self, items: &Vec<Image>)
        requires
            old(self).inv(),
        ensures
            final(self).inv(),
            final(self).images_spec() == items@,
            final(self).table_len_spec() == items@.len(),
            final(self).selected_spec() == kept_selection(old(self).selected_spec(), items@.len()),
            !final(self).loading_spec(),
            final(self).error_spec() is None,
            final(self).view_state_spec() == old(self).view_state_spec(),
            final(self).outbox_spec() == old(self).outbox_spec(),
            final(self).form_open_spec() == old(self).form_open_spec(),
            final(self).confirm_spec() == old(self).confirm_spec(),
            final(self).admin_spec() == old(self).admin_spec(),
            final(self).all_tenants_spec() == old(self).all_tenants_spec(),
    {
        proof {
            assert forall|a: Image, b: Image| #[trigger] cloned(a, b) implies a == b by {}
        }
        let copy = copy_list(items);
        let rows = image_rows(&copy);
        self.images = copy;
        self.loading = false;
        self.error_message = None;
        proof {
            assert(rows_view(rows@).len() == rows@.len());
        }
        self.resource_list.set_rows(rows);
    }


    /// What the create form made of a key: a submitted form closes and
    /// queues the creation, a cancelled one closes; either leaves form
    /// mode. Without an open form, the form view is left.
    pub fn handle_create_key(&mut self, outcome: FormAction) -> (r: Option<Action>)
        requires
            old(self).inv(),
        ensures
            final(self).inv(),
            !old(self).form_open_spec() ==> {
                &&& r is None
                &&& !final(self).form_open_spec()
                &&& final(self).view_state_spec() == ViewState::List
                &&& final(self).images_spec() == old(self).images_spec()
                &&& final(self).outbox_spec() == old(self).outbox_spec()
                &&& final(self).selected_spec() == old(self).selected_spec()
                &&& final(self).loading_spec() == old(self).loading_spec()
                &&& final(self).error_spec() == old(self).error_spec()
                &&& final(self).confirm_spec() == old(self).confirm_spec()
                &&& final(self).admin_spec() == old(self).admin_spec()
                &&& final(self).all_tenants_spec() == old(self).all_tenants_spec()
            },
            old(self).form_open_spec() ==> match outcome {
                FormAction::Submit(values) => {
                    &&& r == Some(Action::ExitFormMode)
                    &&& !final(self).form_open_spec()
                    &&& final(self).view_state_spec() == ViewState::List
                    &&& final(self).outbox_spec().len() == old(self).outbox_spec().len() + 1
                    &&& final(self).outbox_spec().drop_last() == old(self).outbox_spec()
                    &&& final(self).outbox_spec().last() matches Action::CreateImage(p) && image_form_params(values@, p)
                },
                FormAction::Cancel => {
                    &&& r == Some(Action::ExitFormMode)
                    &&& !final(self).form_open_spec()
                    &&& final(self).view_state_spec() == ViewState::List
                    &&& final(self).outbox_spec() == old(self).outbox_spec()
                },
                FormAction::Pending => {
                    &&& r is None
                    &&& *final(self) == *old(self)
                },
            },
    {
        if self.form.is_none() {
            self.close_form();
            return None;
        }
        match outcome {
            FormAction::Submit(values) => self.submit_create(&values),
            FormAction::Cancel => self.cancel_create(),
            FormAction::Pending => None,
        }
    }

    /// Take in an event: a loaded list replaces the images and clears the
    /// error; a created image closes the form and queues a reload; a deleted
    /// one queues a reload; a failed request shows its error.
    pub fn handle_event(&mut self, event: &AppEvent)
        requires
            old(self).inv(),
        ensures
            final(self).inv(),
            final(self).admin_spec() == old(self).admin_spec(),
            final(self).confirm_spec() == old(self).confirm_spec(),
            match event {
                AppEvent::ImagesLoaded(x) => final(self).images_spec() == x@
                    && final(self).table_len_spec() == x@.len()
                    && final(self).selected_spec() == kept_selection(old(self).selected_spec(), x@.len()),
                _ => final(self).images_spec() == old(self).images_spec()
                    && final(self).selected_spec() == old(self).selected_spec(),
            },
            final(self).loading_spec() == match event {
                AppEvent::ImagesLoaded(_) => false,
                AppEvent::ApiError { .. } => false,
                _ => old(self).loading_spec(),
            },
            final(self).error_spec() == match event {
                AppEvent::ImagesLoaded(_) => None,
                AppEvent::ApiError { operation, message } => Some(error_text(operation@, message@)),
                _ => old(self).error_spec(),
            },
            final(self).form_open_spec() == match event {
                AppEvent::ImageCreated(_) => false,
                _ => old(self).form_open_spec(),
            },
            final(self).view_state_spec() == match event {
                AppEvent::ImageCreated(_) => ViewState::List,
                _ => old(self).view_state_spec(),
            },
            final(self).outbox_spec() == match event {
                AppEvent::ImageCreated(_) => old(self).outbox_spec().push(Action::FetchImages),
                AppEvent::ImageDeleted { .. } => old(self).outbox_spec().push(Action::FetchImages),
                _ => old(self).outbox_spec(),
            },
    {
        match event {
            AppEvent::ImagesLoaded(items) => {
                self.take_images(items);
            },
            AppEvent::ImageCreated(_) => {
                self.close_form();
                self.outbox.push(Action::FetchImages);
            },
            AppEvent::ImageDeleted { .. } => {
                self.outbox.push(Action::FetchImages);
            },
            AppEvent::ApiError { operation, message } => {
                self.error_message = Some(format_error(operation, message));
                self.loading = false;
            },
            _ => {},
        }
    }
    /// A submitted create form: close it, queue the create request, and
    /// leave form mode.
    pub fn submit_create(&mut self, values: &Vec<(String, FormValue)>) -> (r: Option<Action>)
        requires
            old(self).inv(),
        ensures
            final(self).inv(),
            r == Some(Action::ExitFormMode),
            !final(self).form_open_spec(),
            final(self).view_state_spec() == ViewState::List,
            final(self).outbox_spec().len() == old(self).outbox_spec().len() + 1,
            final(self).outbox_spec().drop_last() == old(self).outbox_spec(),
            final(self).outbox_spec().last() matches Action::CreateImage(p) && image_form_params(values@, p),
    {
        let params = image_params_from_form(values);
        self.close_form();
        self.outbox.push(Action::CreateImage(params));
        proof {
            assert(self.outbox@.drop_last() =~= old(self).outbox@);
        }
        Some(Action::ExitFormMode)
    }

    /// React to a key on the list: navigation; Enter shows the selected
    /// image; for an admin `c` opens the create form and `d` asks to delete
    /// the selected image; `r` reloads, Left goes to the sidebar, Esc goes
    /// back.
    pub fn handle_list_key(&mut self, key: Key) -> (r: Option<Action>)
        requires
            old(self).inv(),
        ensures
            final(self).inv(),
            final(self).images_spec() == old(self).images_spec(),
            final(self).outbox_spec() == old(self).outbox_spec(),
            final(self).admin_spec() == old(self).admin_spec(),
            final(self).selected_spec() == nav_target(key, old(self).selected_spec(), old(self).table_len_spec()),
            nav_key(key) ==> r is None && final(self).view_state_spec() == old(self).view_state_spec()
                && final(self).confirm_spec() == old(self).confirm_spec(),
            !nav_key(key) && key == Key::Enter ==> r is None && final(self).view_state_spec() == if old(self).selected_spec()
                < old(self).images_spec().len() {
                ViewState::Detail(old(self).images_spec()[old(self).selected_spec() as int].id)
            } else {
                old(self).view_state_spec()
            },
            !nav_key(key) && key == Key::Char('c') && old(self).admin_spec() ==> r == Some(Action::EnterFormMode)
                && final(self).form_open_spec() && final(self).view_state_spec() == ViewState::Create,
            !nav_key(key) && key == Key::Char('d') && old(self).admin_spec() ==> r is None && if old(self).selected_spec()
                < old(self).images_spec().len() {
                final(self).confirm_spec() && final(self).pending_spec() == Some(
                    PendingAction::DeleteImage {
                        id: old(self).images_spec()[old(self).selected_spec() as int].id,
                        name: old(self).images_spec()[old(self).selected_spec() as int].name,
                    },
                )
            } else {
                final(self).confirm_spec() == old(self).confirm_spec()
            },
            !nav_key(key) && key != Key::Enter && !((key == Key::Char('c') || key == Key::Char('d'))
                && old(self).admin_spec()) ==> {
                &&& final(self).view_state_spec() == old(self).view_state_spec()
                &&& final(self).confirm_spec() == old(self).confirm_spec()
                &&& r == if key == Key::Char('r') {
                    Some(Action::FetchImages)
                } else if key == Key::Left {
                    Some(Action::FocusSidebar)
                } else if key == Key::Esc {
                    Some(Action::Back)
                } else {
                    None
                }
            },
    {
        if self.resource_list.handle_nav_key(key) {
            return None;
        }
        match key {
            Key::Enter => {
                let i = self.resource_list.selected_index();
                if i < self.images.len() {
                    self.view_state = ViewState::Detail(self.images[i].id.clone());
                }
                None
            },
            Key::Char('c') => {
                if !self.is_admin {
                    return None;
                }
                self.open_create_form();
                Some(Action::EnterFormMode)
            },
            Key::Char('d') => {
                if !self.is_admin {
                    return None;
                }
                let i = self.resource_list.selected_index();
                if i < self.images.len() {
                    let id = self.images[i].id.clone();
                    let name = self.images[i].name.clone();
                    let message = cat3("Delete image '", name.as_str(), "'?");
                    self.confirm.open(ConfirmDialog::yes_no(message), PendingAction::DeleteImage { id, name });
                }
                None
            },
            Key::Char('r') => Some(Action::FetchImages),
            Key::Left => Some(Action::FocusSidebar),
            Key::Esc => Some(Action::Back),
            _ => None,
        }
    }
}

} // verus!
