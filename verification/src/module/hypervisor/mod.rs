pub mod view_model;

use vstd::prelude::*;
use crate::action::Action;
use crate::event::AppEvent;
use crate::models::nova::Hypervisor;
use crate::module::{clones_equal, copy_list, error_text, format_error, ViewState};
use crate::ui::key::Key;
use crate::ui::resource_list::{nav_key, nav_target, rows_view, ResourceList, Row, RowView};
use self::view_model::{hypervisor_row_spec, hypervisor_to_row};

verus! {

/// The rows of a list of hypervisors.
pub open spec fn hypervisor_rows_spec(hvs: Seq<Hypervisor>) -> Seq<RowView> {
    hvs.map_values(|h: Hypervisor| hypervisor_row_spec(h))
}

/// The table rows of a list of hypervisors.
fn hypervisor_rows(hvs: &Vec<Hypervisor>) -> (r: Vec<Row>)
    ensures
        rows_view(r@) == hypervisor_rows_spec(hvs@),
{
    let mut rows: Vec<Row> = Vec::new();
    let mut i: usize = 0;
    while i < hvs.len()
        invariant
            i <= hvs@.len(),
            rows_view(rows@) == hypervisor_rows_spec(hvs@.subrange(0, i as int)),
        decreases hvs@.len() - i,
    {
        let row = hypervisor_to_row(&hvs[i]);
        let ghost before = rows@;
        rows.push(row);
        proof {
            assert(rows_view(rows@) =~= rows_view(before).push(row@));
            assert(hypervisor_rows_spec(hvs@.subrange(0, i + 1)) =~= hypervisor_rows_spec(
                hvs@.subrange(0, i as int),
            ).push(hypervisor_row_spec(hvs@[i as int])));
        }
        i = i + 1;
    }
    proof {
        assert(hvs@.subrange(0, hvs@.len() as int) =~= hvs@);
    }
    rows
}

/// The hypervisor screen: the hypervisors, their table and the last
/// error.
pub struct HypervisorModule {
    view_state: ViewState,
    hypervisors: Vec<Hypervisor>,
    loading: bool,
    error_message: Option<String>,
    resource_list: ResourceList,
}

impl HypervisorModule {
    /// The hypervisors held.
    pub closed spec fn hypervisors_spec(&self) -> Seq<Hypervisor> {
        self.hypervisors@
    }

    /// Whether a load is outstanding.
    pub closed spec fn loading_spec(&self) -> bool {
        self.loading
    }

    /// The last error shown.
    pub closed spec fn error_spec(&self) -> Option<Seq<char>> {
        match self.error_message {
            Some(e) => Some(e@),
            None => None,
        }
    }

    /// The selected row.
    pub closed spec fn selected_spec(&self) -> nat {
        self.resource_list.selected_spec()
    }

    /// The view shown.
    pub closed spec fn view_state_spec(&self) -> ViewState {
        self.view_state
    }

    /// The table shows one row per hypervisor and the screen stays on its
    /// list.
    pub closed spec fn inv(&self) -> bool {
        &&& self.resource_list.inv()
        &&& self.resource_list.rows_spec() == hypervisor_rows_spec(self.hypervisors@)
        &&& self.resource_list.len_spec() == self.hypervisors@.len()
        &&& self.view_state == ViewState::List
    }

    /// An empty screen showing its list.
    pub fn new() -> (r: Self)
        ensures
            r.inv(),
            r.hypervisors_spec() == Seq::<Hypervisor>::empty(),
            !r.loading_spec(),
            r.error_spec() is None,
            r.selected_spec() == 0,
            r.view_state_spec() == ViewState::List,
    {
        let r = HypervisorModule {
            view_state: ViewState::List,
            hypervisors: Vec::new(),
            loading: false,
            error_message: None,
            resource_list: ResourceList::new(),
        };
        proof {
            assert(hypervisor_rows_spec(r.hypervisors@) =~= Seq::<RowView>::empty());
        }
        r
    }

    /// The view shown.
    pub fn view_state(&self) -> (r: &ViewState)
        ensures
            *r == self.view_state_spec(),
    {
        &self.view_state
    }

    /// The hypervisors.
    pub fn hypervisors(&self) -> (r: &[Hypervisor])
        ensures
            r@ == self.hypervisors_spec(),
    {
        self.hypervisors.as_slice()
    }

    /// Index of the selected hypervisor.
    pub fn selected_index(&self) -> (r: usize)
        ensures
            r == self.selected_spec(),
    {
        self.resource_list.selected_index()
    }

    /// React to a key: table navigation, `r` reloads, Left goes to the
    /// sidebar, Esc goes back.
    pub fn handle_key(&mut self, key: Key) -> (r: Option<Action>)
        requires
            old(self).inv(),
        ensures
            final(self).inv(),
            final(self).hypervisors_spec() == old(self).hypervisors_spec(),
            final(self).loading_spec() == old(self).loading_spec(),
            final(self).error_spec() == old(self).error_spec(),
            final(self).selected_spec() == nav_target(
                key,
                old(self).selected_spec(),
                old(self).hypervisors_spec().len(),
            ),
            r == if nav_key(key) {
                None
            } else if key == Key::Char('r') {
                Some(Action::FetchHypervisors)
            } else if key == Key::Left {
                Some(Action::FocusSidebar)
            } else if key == Key::Esc {
                Some(Action::Back)
            } else {
                None
            },
    {
        if self.resource_list.handle_nav_key(key) {
            return None;
        }
        match key {
            Key::Char('r') => Some(Action::FetchHypervisors),
            Key::Left => Some(Action::FocusSidebar),
            Key::Esc => Some(Action::Back),
            _ => None,
        }
    }

    /// Take in a loaded hypervisor list (clearing the error) or a failed
    /// request; other events change nothing.
    pub fn handle_event(&mut self, event: &AppEvent)
        requires
            old(self).inv(),
        ensures
            final(self).inv(),
            match event {
                AppEvent::HypervisorsLoaded(hvs) => {
                    &&& final(self).hypervisors_spec() == hvs@
                    &&& !final(self).loading_spec()
                    &&& final(self).error_spec() is None
                },
                AppEvent::ApiError { operation, message } => {
                    &&& final(self).hypervisors_spec() == old(self).hypervisors_spec()
                    &&& !final(self).loading_spec()
                    &&& final(self).error_spec() == Some(error_text(operation@, message@))
                    &&& final(self).selected_spec() == old(self).selected_spec()
                },
                _ => {
                    &&& final(self).hypervisors_spec() == old(self).hypervisors_spec()
                    &&& final(self).loading_spec() == old(self).loading_spec()
                    &&& final(self).error_spec() == old(self).error_spec()
                    &&& final(self).selected_spec() == old(self).selected_spec()
                },
            },
    {
        match event {
            AppEvent::HypervisorsLoaded(hvs) => {
                proof {
                    assert forall|a: Hypervisor, b: Hypervisor| #[trigger] cloned(a, b) implies a == b by {}
                }
                self.hypervisors = copy_list(hvs);
                self.loading = false;
                self.error_message = None;
                let rows = hypervisor_rows(&self.hypervisors);
                proof {
                    assert(rows_view(rows@).len() == rows@.len());
                }
                self.resource_list.set_rows(rows);
            },
            AppEvent::ApiError { operation, message } => {
                self.error_message = Some(format_error(operation, message));
                self.loading = false;
            },
            _ => {},
        }
    }
}

} // verus!
