//! The console's screens and the state they share.
pub mod agent;
pub mod aggregate;
pub mod common;
pub mod compute_service;
pub mod flavor;
pub mod floating_ip;
pub mod host;
pub mod hypervisor;
pub mod image;
pub mod migration;
pub mod network;
pub mod project;
pub mod security_group;
pub mod server;
pub mod snapshot;
pub mod usage;
pub mod user;
pub mod volume;

use vstd::prelude::*;
use crate::text::cat3;
use crate::ui::confirm::{confirm_step, ConfirmDialog, ConfirmResult};
use crate::ui::key::Key;
use crate::action::Action;

verus! {

/// How a screen wants the window laid out: beside the sidebar, or across
/// the whole width.
#[derive(Debug, Clone, Copy, PartialEq, Eq, Structural)]
pub enum LayoutHint {
    Standard,
    FullWidth,
}

/// Which view a resource screen shows.
#[derive(Debug, Clone, PartialEq)]
pub enum ViewState {
    List,
    Detail(String),
    Create,
}

/// What to do once the user confirms a dialog.
#[derive(Debug, Clone, PartialEq)]
pub enum PendingAction {
    Delete { id: String, name: String },
    Reboot { id: String, hard: bool },
    Stop { id: String },
    Resize { id: String, flavor_id: String },
    ConfirmResize { id: String },
    RevertResize { id: String },
    Submit,
    // Network
    DeleteSecurityGroup { id: String, name: String },
    DeleteSecurityGroupRule { rule_id: String },
    DeleteFloatingIp { id: String, ip: String },
    AssociateFloatingIp { fip_id: String, port_id: String },
    DisassociateFloatingIp { fip_id: String },
    // Block storage
    DeleteVolume { id: String, name: String },
    AttachVolume { volume_id: String, server_id: String, device: Option<String> },
    DetachVolume { volume_id: String, server_id: String, attachment_id: String },
    ForceDetachVolume { volume_id: String, server_id: String, attachment_id: String },
    ForceResetVolumeState { volume_id: String },
    DeleteSnapshot { id: String, name: String },
    // Images
    DeleteImage { id: String, name: String },
    // Identity
    DeleteProject { id: String, name: String },
    DeleteUser { id: String, name: String },
    // Migration and evacuation
    LiveMigrate { id: String },
    ColdMigrate { id: String },
    ConfirmMigrate { id: String },
    RevertMigrate { id: String },
    Evacuate { id: String },
}

/// How a key press answers the dialog of `a`, leaving `b` and the result
/// `r`: with no dialog open, `None` and nothing changes. Confirmed, the
/// dialog closes and the pending action is taken and resolved, `Some` of
/// what `resolve` makes of it (`Some(None)` with nothing pending).
/// Cancelled, the dialog closes and the pending action is dropped,
/// `Some(None)`. Still waiting, the dialog stays open with the typed text
/// updated and the pending action kept, `Some(None)`.
pub open spec fn confirm_answer<F: FnOnce(PendingAction) -> Option<Action>>(
    a: ConfirmHandler,
    b: ConfirmHandler,
    key: Key,
    r: Option<Option<Action>>,
    resolve: F,
) -> bool {
    match a.dialog {
        None => r is None && b == a,
        Some(d) => {
            let (answer, typed) = confirm_step(d.mode, d.input@, key);
            match answer {
                ConfirmResult::Confirmed => {
                    &&& b.dialog is None
                    &&& b.pending is None
                    &&& match a.pending {
                        Some(p) => r matches Some(x) && call_ensures(resolve, (p,), x),
                        None => r == Some(None::<Action>),
                    }
                },
                ConfirmResult::Cancelled => {
                    &&& b.dialog is None
                    &&& b.pending is None
                    &&& r == Some(None::<Action>)
                },
                ConfirmResult::Pending => {
                    &&& r == Some(None::<Action>)
                    &&& b.pending == a.pending
                    &&& b.dialog matches Some(e) && e.message == d.message && e.mode == d.mode && e.details
                        == d.details && e.input@ == typed
                },
            }
        },
    }
}

/// A confirmation dialog and the action it guards.
pub struct ConfirmHandler {
    pub dialog: Option<ConfirmDialog>,
    pub pending: Option<PendingAction>,
}

impl ConfirmHandler {
    /// No dialog open.
    pub fn new() -> (r: Self)
        ensures
            r.dialog.is_none(),
            r.pending.is_none(),
    {
        ConfirmHandler { dialog: None, pending: None }
    }

    /// Whether a dialog is open.
    pub fn is_active(&self) -> (r: bool)
        ensures
            r == self.dialog.is_some(),
    {
        self.dialog.is_some()
    }

    /// Open `dialog` guarding `action`.
    pub fn open(&mut self, dialog: ConfirmDialog, action: PendingAction)
        ensures
            final(self).dialog == Some(dialog),
            final(self).pending == Some(action),
    {
        self.dialog = Some(dialog);
        self.pending = Some(action);
    }

    /// Answer the open dialog with a key press. With no dialog open this
    /// is `None` and nothing changes. A confirmed dialog closes and its
    /// pending action is taken and resolved: `Some` of what `resolve`
    /// makes of it. A cancelled dialog closes and drops the pending action:
    /// `Some(None)`. A dialog still waiting stays open: `Some(None)`.
    pub fn handle_key<F: FnOnce(PendingAction) -> Option<Action>>(&mut self, key: Key, resolve: F) -> (r: Option<
        Option<Action>,
    >)
        requires
            old(self).pending matches Some(p) ==> call_requires(resolve, (p,)),
        ensures
            confirm_answer(*old(self), *final(self), key, r, resolve),
    {
        let mut dialog = match self.dialog.take() {
            Some(d) => d,
            None => return None,
        };
        match dialog.handle_key(key) {
            ConfirmResult::Confirmed => {
                match self.pending.take() {
                    Some(p) => Some(resolve(p)),
                    None => Some(None),
                }
            },
            ConfirmResult::Cancelled => {
                self.pending = None;
                Some(None)
            },
            ConfirmResult::Pending => {
                self.dialog = Some(dialog);
                Some(None)
            },
        }
    }
}

/// The message a screen shows for a failed request: `operation: message`.
pub open spec fn error_text(operation: Seq<char>, message: Seq<char>) -> Seq<char> {
    operation + ": "@ + message
}

/// The message a screen shows for a failed request.
pub fn format_error(operation: &String, message: &String) -> (r: String)
    ensures
        r@ == error_text(operation@, message@),
{
    cat3(operation.as_str(), ": ", message.as_str())
}

/// Whether every clone of a `T` equals the original.
pub open spec fn clones_equal<T: Clone>() -> bool {
    forall|a: T, b: T| #[trigger] cloned(a, b) ==> a == b
}

/// A copy of a list whose elements clone to equal values.
pub fn copy_list<T: Clone>(v: &Vec<T>) -> (r: Vec<T>)
    requires
        clones_equal::<T>(),
    ensures
        r@ == v@,
{
    let r = v.clone();
    proof {
        assert forall|i: int| 0 <= i < r@.len() implies r@[i] == v@[i] by {
            assert(cloned(v@[i], r@[i]));
        }
        assert(r@ =~= v@);
    }
    r
}

/// A copy of a list whose elements clone to values related to the
/// originals by `same`.
pub fn copy_list_by<T: Clone>(v: &Vec<T>, Ghost(same): Ghost<spec_fn(T, T) -> bool>) -> (r: Vec<T>)
    requires
        forall|a: T, b: T| #[trigger] cloned(a, b) ==> same(b, a),
    ensures
        r@.len() == v@.len(),
        forall|i: int| 0 <= i < v@.len() ==> same(#[trigger] r@[i], v@[i]),
{
    let r = v.clone();
    proof {
        assert forall|i: int| 0 <= i < v@.len() implies same(#[trigger] r@[i], v@[i]) by {
            assert(cloned(v@[i], r@[i]));
        }
    }
    r
}

} // verus!
