//! The user screen: the user list, deletion and the create view.
pub mod view_model;

use vstd::prelude::*;
use crate::action::Action;
use crate::event::AppEvent;
use crate::models::keystone::User;
use crate::module::{copy_list, error_text, format_error, confirm_answer, ConfirmHandler, PendingAction, ViewState};
use crate::text::cat3;
use crate::ui::confirm::{is_typed, ConfirmDialog};
use crate::ui::key::Key;
use crate::ui::resource_list::{nav_key, nav_target, rows_view, ResourceList, Row, RowView};
use self::view_model::{user_row_spec, user_to_row};

verus! {

/// The rows of a list of users.
pub open spec fn user_rows_spec(users: Seq<User>) -> Seq<RowView> {
    users.map_values(|u: User| user_row_spec(u))
}

/// The table rows of a list of users.
fn user_rows(users: &Vec<User>) -> (r: Vec<Row>)
    ensures
        rows_view(r@) == user_rows_spec(users@),
{
    let mut rows: Vec<Row> = Vec::new();
    let mut i: usize = 0;
    while i < users.len()
        invariant
            i <= users@.len(),
            rows_view(rows@) == user_rows_spec(users@.take(i as int)),
        decreases users@.len() - i,
    {
        let row = user_to_row(&users[i]);
        let ghost before = rows@;
        rows.push(row);
        proof {
            assert(rows_view(rows@) =~= rows_view(before).push(row@));
            assert(user_rows_spec(users@.take(i + 1)) =~= user_rows_spec(users@.take(i as int)).push(
                user_row_spec(users@[i as int]),
            ));
        }
        i = i + 1;
    }
    proof {
        assert(users@.take(users@.len() as int) =~= users@);
    }
    rows
}

/// What a key does to the user list: table navigation, `c` shows the
/// create view, `d` asks to delete the selected user (typing its name),
/// `r` reloads, Left goes to the sidebar, Esc goes back.
pub open spec fn user_list_step(a: UserModule, b: UserModule, key: Key, r: Option<Action>) -> bool {
    &&& b.users_spec() == a.users_spec()
    &&& b.outbox_spec() == a.outbox_spec()
    &&& b.selected_spec() == nav_target(key, a.selected_spec(), a.users_spec().len())
    &&& nav_key(key) ==> {
        &&& r is None
        &&& b.view_state_spec() == a.view_state_spec()
        &&& b.dialog_spec() == a.dialog_spec()
        &&& b.pending_spec() == a.pending_spec()
    }
    &&& !nav_key(key) && key == Key::Char('c') ==> {
        &&& r is None
        &&& b.view_state_spec() == ViewState::Create
        &&& b.dialog_spec() == a.dialog_spec()
        &&& b.pending_spec() == a.pending_spec()
    }
    &&& !nav_key(key) && key == Key::Char('d') ==> {
        &&& r is None
        &&& b.view_state_spec() == a.view_state_spec()
        &&& if a.selected_spec() < a.users_spec().len() {
            let u = a.users_spec()[a.selected_spec() as int];
            &&& b.dialog_spec() matches Some(d) && is_typed(
                d,
                "Delete user '"@ + u.name@ + "'?"@,
                u.name@,
                Seq::empty(),
            )
            &&& b.pending_spec() == Some(PendingAction::DeleteUser { id: u.id, name: u.name })
        } else {
            &&& b.dialog_spec() == a.dialog_spec()
            &&& b.pending_spec() == a.pending_spec()
        }
    }
    &&& !nav_key(key) && key != Key::Char('c') && key != Key::Char('d') ==> {
        &&& b.view_state_spec() == a.view_state_spec()
        &&& b.dialog_spec() == a.dialog_spec()
        &&& b.pending_spec() == a.pending_spec()
        &&& r == if key == Key::Char('r') {
            Some(Action::FetchUsers)
        } else if key == Key::Left {
            Some(Action::FocusSidebar)
        } else if key == Key::Esc {
            Some(Action::Back)
        } else {
            None
        }
    }
}

/// What a key does to the user create view: Esc goes back to the list,
/// other keys change nothing.
pub open spec fn user_create_step(a: UserModule, b: UserModule, key: Key, r: Option<Action>) -> bool {
    &&& r is None
    &&& b.view_state_spec() == if key == Key::Esc {
        ViewState::List
    } else {
        a.view_state_spec()
    }
    &&& b.users_spec() == a.users_spec()
    &&& b.dialog_spec() == a.dialog_spec()
    &&& b.pending_spec() == a.pending_spec()
    &&& b.outbox_spec() == a.outbox_spec()
    &&& b.selected_spec() == a.selected_spec()
}

/// The user screen.
pub struct UserModule {
    view_state: ViewState,
    users: Vec<User>,
    loading: bool,
    error_message: Option<String>,
    confirm: ConfirmHandler,
    resource_list: ResourceList,
    outbox: Vec<Action>,
}

impl UserModule {
    /// The view shown.
    pub closed spec fn view_state_spec(&self) -> ViewState {
        self.view_state
    }

    /// The users held.
    pub closed spec fn users_spec(&self) -> Seq<User> {
        self.users@
    }

    /// Whether a load is outstanding.
    pub closed spec fn loading_spec(&self) -> bool {
        self.loading
    }

    /// The last error shown.
    pub closed spec fn error_spec(&self) -> Option<Seq<char>> {
        match self.error_message {
            Some(e) => Some(e@),
            None => None,
        }
    }

    /// The open confirmation dialog, if any.
    pub closed spec fn dialog_spec(&self) -> Option<ConfirmDialog> {
        self.confirm.dialog
    }

    /// The action the open confirmation guards.
    pub closed spec fn pending_spec(&self) -> Option<PendingAction> {
        self.confirm.pending
    }

    /// The requests waiting to be sent, oldest first.
    pub closed spec fn outbox_spec(&self) -> Seq<Action> {
        self.outbox@
    }

    /// The selected row.
    pub closed spec fn selected_spec(&self) -> nat {
        self.resource_list.selected_spec()
    }

    /// The table shows one row per user, and its selection is valid.
    pub closed spec fn inv(&self) -> bool {
        &&& self.resource_list.inv()
        &&& self.resource_list.rows_spec() == user_rows_spec(self.users@)
        &&& self.resource_list.len_spec() == self.users@.len()
    }

    /// An empty screen showing its list.
    pub fn new() -> (r: Self)
        ensures
            r.inv(),
            r.view_state_spec() == ViewState::List,
            r.users_spec().len() == 0,
            !r.loading_spec(),
            r.error_spec() is None,
            r.dialog_spec() is None,
            r.pending_spec() is None,
            r.outbox_spec().len() == 0,
            r.selected_spec() == 0,
    {
        let r = UserModule {
            view_state: ViewState::List,
            users: Vec::new(),
            loading: false,
            error_message: None,
            confirm: ConfirmHandler::new(),
            resource_list: ResourceList::new(),
            outbox: Vec::new(),
        };
        proof {
            assert(user_rows_spec(r.users@) =~= Seq::<RowView>::empty());
        }
        r
    }

    /// The view shown.
    pub fn view_state(&self) -> (r: &ViewState)
        ensures
            *r == self.view_state_spec(),
    {
        &self.view_state
    }

    /// The users.
    pub fn users(&self) -> (r: &[User])
        ensures
            r@ == self.users_spec(),
    {
        self.users.as_slice()
    }

    /// Index of the selected user.
    pub fn selected_index(&self) -> (r: usize)
        ensures
            r == self.selected_spec(),
    {
        self.resource_list.selected_index()
    }

    /// The last error shown.
    pub fn error_message(&self) -> (r: Option<&str>)
        ensures
            match r {
                Some(s) => self.error_spec() == Some(s@),
                None => self.error_spec() is None,
            },
    {
        match &self.error_message {
            Some(e) => Some(e.as_str()),
            None => None,
        }
    }

    /// Whether a confirmation dialog is open.
    pub fn confirm_is_active(&self) -> (r: bool)
        ensures
            r == self.dialog_spec() is Some,
    {
        self.confirm.is_active()
    }

    /// Hand over the requests waiting to be sent, oldest first.
    pub fn take_actions(&mut self) -> (r: Vec<Action>)
        requires
            old(self).inv(),
        ensures
            final(self).inv(),
            r@ == old(self).outbox_spec(),
            final(self).outbox_spec().len() == 0,
            final(self).view_state_spec() == old(self).view_state_spec(),
            final(self).users_spec() == old(self).users_spec(),
            final(self).dialog_spec() == old(self).dialog_spec(),
            final(self).pending_spec() == old(self).pending_spec(),
            final(self).selected_spec() == old(self).selected_spec(),
    {
        let mut out: Vec<Action> = Vec::new();
        std::mem::swap(&mut out, &mut self.outbox);
        out
    }

    /// The request a confirmed dialog stands for.
    pub fn resolve_action(pending: PendingAction) -> (r: Option<Action>)
        ensures
            r == match pending {
                PendingAction::DeleteUser { id, .. } => Some(Action::DeleteUser { id }),
                _ => None,
            },
    {
        match pending {
            PendingAction::DeleteUser { id, .. } => Some(Action::DeleteUser { id }),
            _ => None,
        }
    }

    /// The confirmation state: the open dialog and the action it guards.
    pub closed spec fn confirm_state(&self) -> ConfirmHandler {
        self.confirm
    }

    /// This screen with its confirmation state replaced by `c`.
    pub closed spec fn with_confirm(&self, c: ConfirmHandler) -> Self {
        Self { confirm: c, ..*self }
    }

    /// Answer the open confirmation dialog with a key press, a confirmed
    /// dialog resolved by `resolve_action` (see `confirm_answer`); nothing
    /// but the dialog and its pending action changes. `None` when no
    /// dialog is open, so that the key goes to the view.
    pub fn handle_confirm_key(&mut self, key: Key) -> (r: Option<Option<Action>>)
        ensures
            confirm_answer(old(self).confirm_state(), final(self).confirm_state(), key, r, Self::resolve_action),
            *final(self) == old(self).with_confirm(final(self).confirm_state()),
            old(self).inv() ==> final(self).inv(),
    {
        self.confirm.handle_key(key, Self::resolve_action)
    }

    /// React to a key in the list: table navigation, `c` shows the create
    /// view, `d` asks to delete the selected user (typing its name), `r`
    /// reloads, Left goes to the sidebar, Esc goes back.
    pub fn handle_list_key(&mut self, key: Key) -> (r: Option<Action>)
        requires
            old(self).inv(),
        ensures
            final(self).inv(),
            user_list_step(*old(self), *final(self), key, r),
    {
        if self.resource_list.handle_nav_key(key) {
            return None;
        }
        match key {
            Key::Char('c') => {
                self.view_state = ViewState::Create;
                None
            },
            Key::Char('d') => {
                let i = self.resource_list.selected_index();
                if i < self.users.len() {
                    let id = self.users[i].id.clone();
                    let name = self.users[i].name.clone();
                    let message = cat3("Delete user '", name.as_str(), "'?");
                    let dialog = ConfirmDialog::type_to_confirm(message, name.clone());
                    proof {
                        assert(crate::text::strs_view(dialog.details@) =~= Seq::<Seq<char>>::empty());
                    }
                    self.confirm.open(dialog, PendingAction::DeleteUser { id, name });
                }
                None
            },
            Key::Char('r') => Some(Action::FetchUsers),
            Key::Left => Some(Action::FocusSidebar),
            Key::Esc => Some(Action::Back),
            _ => None,
        }
    }

    /// React to a key in the create view: Esc goes back to the list.
    pub fn handle_create_key(&mut self, key: Key) -> (r: Option<Action>)
        requires
            old(self).inv(),
        ensures
            final(self).inv(),
            user_create_step(*old(self), *final(self), key, r),
    {
        match key {
            Key::Esc => {
                self.view_state = ViewState::List;
                None
            },
            _ => None,
        }
    }

    /// React to a key: an open dialog answers it first (see
    /// `handle_confirm_key`); otherwise the list or the create view
    /// handles it, and the detail view ignores it.
    pub fn handle_key(&mut self, key: Key) -> (r: Option<Action>)
        requires
            old(self).inv(),
        ensures
            final(self).inv(),
            old(self).dialog_spec() is Some ==> {
                &&& confirm_answer(old(self).confirm_state(), final(self).confirm_state(), key, Some(r), Self::resolve_action)
                &&& *final(self) == old(self).with_confirm(final(self).confirm_state())
            },
            old(self).dialog_spec() is None ==> match old(self).view_state_spec() {
                ViewState::List => user_list_step(*old(self), *final(self), key, r),
                ViewState::Create => user_create_step(*old(self), *final(self), key, r),
                ViewState::Detail(_) => r is None && *final(self) == *old(self),
            },
    {
        match self.handle_confirm_key(key) {
            Some(answer) => {
                return answer;
            },
            None => {},
        }
        match self.view_state {
            ViewState::List => self.handle_list_key(key),
            ViewState::Create => self.handle_create_key(key),
            ViewState::Detail(_) => None,
        }
    }

    /// Take in an event: loaded users replace the list, a created user
    /// returns to the list and reloads, a deleted user reloads, a failed
    /// request is shown; other events change nothing.
    pub fn handle_event(&mut self, event: &AppEvent)
        requires
            old(self).inv(),
        ensures
            final(self).inv(),
            final(self).dialog_spec() == old(self).dialog_spec(),
            final(self).pending_spec() == old(self).pending_spec(),
            match event {
                AppEvent::UsersLoaded(users) => {
                    &&& final(self).users_spec() == users@
                    &&& !final(self).loading_spec()
                    &&& final(self).error_spec() is None
                    &&& final(self).view_state_spec() == old(self).view_state_spec()
                    &&& final(self).outbox_spec() == old(self).outbox_spec()
                },
                AppEvent::UserCreated(_) => {
                    &&& final(self).view_state_spec() == ViewState::List
                    &&& final(self).outbox_spec() == old(self).outbox_spec().push(Action::FetchUsers)
                    &&& final(self).users_spec() == old(self).users_spec()
                },
                AppEvent::UserDeleted { .. } => {
                    &&& final(self).view_state_spec() == old(self).view_state_spec()
                    &&& final(self).outbox_spec() == old(self).outbox_spec().push(Action::FetchUsers)
                    &&& final(self).users_spec() == old(self).users_spec()
                },
                AppEvent::ApiError { operation, message } => {
                    &&& final(self).error_spec() == Some(error_text(operation@, message@))
                    &&& !final(self).loading_spec()
                    &&& final(self).view_state_spec() == old(self).view_state_spec()
                    &&& final(self).users_spec() == old(self).users_spec()
                    &&& final(self).outbox_spec() == old(self).outbox_spec()
                },
                _ => {
                    &&& final(self).view_state_spec() == old(self).view_state_spec()
                    &&& final(self).users_spec() == old(self).users_spec()
                    &&& final(self).outbox_spec() == old(self).outbox_spec()
                    &&& final(self).selected_spec() == old(self).selected_spec()
                },
            },
    {
        match event {
            AppEvent::UsersLoaded(users) => {
                proof {
                    assert forall|a: User, b: User| #[trigger] cloned(a, b) implies a == b by {}
                }
                self.users = copy_list(users);
                self.loading = false;
                self.error_message = None;
                let rows = user_rows(&self.users);
                proof {
                    assert(rows_view(rows@).len() == rows@.len());
                }
                self.resource_list.set_rows(rows);
            },
            AppEvent::UserCreated(_) => {
                self.view_state = ViewState::List;
                self.outbox.push(Action::FetchUsers);
            },
            AppEvent::UserDeleted { .. } => {
                self.outbox.push(Action::FetchUsers);
            },
            AppEvent::ApiError { operation, message } => {
                self.error_message = Some(format_error(operation, message));
                self.loading = false;
            },
            _ => {},
        }
    }
}

} // verus!
