pub mod view_model;

use vstd::prelude::*;
use crate::action::Action;
use crate::event::AppEvent;
use crate::models::nova::ComputeService;
use crate::module::{clones_equal, copy_list};
use crate::ui::key::Key;
use crate::ui::resource_list::{nav_key, nav_target, rows_view, ResourceList, Row, RowView};
use self::view_model::{compute_service_row_spec, compute_service_to_row};

verus! {

/// The rows of a list of services.
pub open spec fn service_rows_spec(services: Seq<ComputeService>) -> Seq<RowView> {
    services.map_values(|s: ComputeService| compute_service_row_spec(s))
}

/// The table rows of a list of services.
fn service_rows(items: &Vec<ComputeService>) -> (r: Vec<Row>)
    ensures
        rows_view(r@) == service_rows_spec(items@),
{
    let mut rows: Vec<Row> = Vec::new();
    let mut i: usize = 0;
    while i < items.len()
        invariant
            i <= items@.len(),
            rows_view(rows@) == service_rows_spec(items@.subrange(0, i as int)),
        decreases items@.len() - i,
    {
        let row = compute_service_to_row(&items[i]);
        let ghost before = rows@;
        rows.push(row);
        proof {
            assert(rows_view(rows@) =~= rows_view(before).push(row@));
            assert(service_rows_spec(items@.subrange(0, i + 1)) =~= service_rows_spec(
                items@.subrange(0, i as int),
            ).push(compute_service_row_spec(items@[i as int])));
        }
        i = i + 1;
    }
    proof {
        assert(items@.subrange(0, items@.len() as int) =~= items@);
    }
    rows
}

/// The compute service screen: the services and their table.
pub struct ComputeServiceModule {
    services: Vec<ComputeService>,
    loading: bool,
    resource_list: ResourceList,
}

impl ComputeServiceModule {
    /// The services held.
    pub closed spec fn services_spec(&self) -> Seq<ComputeService> {
        self.services@
    }

    /// Whether a load is outstanding.
    pub closed spec fn loading_spec(&self) -> bool {
        self.loading
    }

    /// The selected row.
    pub closed spec fn selected_spec(&self) -> nat {
        self.resource_list.selected_spec()
    }

    /// The table shows one row per service, and its selection is valid.
    pub closed spec fn inv(&self) -> bool {
        &&& self.resource_list.inv()
        &&& self.resource_list.rows_spec() == service_rows_spec(self.services@)
        &&& self.resource_list.len_spec() == self.services@.len()
    }

    /// An empty screen.
    pub fn new() -> (r: Self)
        ensures
            r.inv(),
            r.services_spec() == Seq::<ComputeService>::empty(),
            !r.loading_spec(),
            r.selected_spec() == 0,
    {
        let r = ComputeServiceModule { services: Vec::new(), loading: false, resource_list: ResourceList::new() };
        proof {
            assert(service_rows_spec(r.services@) =~= Seq::<RowView>::empty());
        }
        r
    }

    /// The services.
    pub fn services(&self) -> (r: &[ComputeService])
        ensures
            r@ == self.services_spec(),
    {
        self.services.as_slice()
    }

    /// Index of the selected service.
    pub fn selected_index(&self) -> (r: usize)
        ensures
            r == self.selected_spec(),
    {
        self.resource_list.selected_index()
    }

    /// The key help shown in the status bar.
    pub fn help_hint(&self) -> (r: &'static str)
        ensures
            r@ == "r:Refresh"@,
    {
        "r:Refresh"
    }

    /// The request that reloads this screen.
    pub fn refresh_action(&self) -> (r: Option<Action>)
        ensures
            r == Some(Action::FetchComputeServices),
    {
        Some(Action::FetchComputeServices)
    }

    /// React to a key: table navigation, `r` reloads, Left goes to the
    /// sidebar, Esc goes back.
    pub fn handle_key(&mut self, key: Key) -> (r: Option<Action>)
        requires
            old(self).inv(),
        ensures
            final(self).inv(),
            final(self).services_spec() == old(self).services_spec(),
            final(self).loading_spec() == old(self).loading_spec(),
            final(self).selected_spec() == nav_target(key, old(self).selected_spec(), old(self).services_spec().len()),
            r == if nav_key(key) {
                None
            } else if key == Key::Char('r') {
                Some(Action::FetchComputeServices)
            } else if key == Key::Left {
                Some(Action::FocusSidebar)
            } else if key == Key::Esc {
                Some(Action::Back)
            } else {
                None
            },
    {
        if self.resource_list.handle_nav_key(key) {
            return None;
        }
        match key {
            Key::Char('r') => Some(Action::FetchComputeServices),
            Key::Left => Some(Action::FocusSidebar),
            Key::Esc => Some(Action::Back),
            _ => None,
        }
    }

    /// Take in a loaded service list; other events change nothing.
    pub fn handle_event(&mut self, event: &AppEvent)
        requires
            old(self).inv(),
        ensures
            final(self).inv(),
            match event {
                AppEvent::ComputeServicesLoaded(services) => {
                    &&& final(self).services_spec() == services@
                    &&& !final(self).loading_spec()
                },
                _ => {
                    &&& final(self).services_spec() == old(self).services_spec()
                    &&& final(self).loading_spec() == old(self).loading_spec()
                    &&& final(self).selected_spec() == old(self).selected_spec()
                },
            },
    {
        match event {
            AppEvent::ComputeServicesLoaded(services) => {
                proof {
                    assert forall|a: ComputeService, b: ComputeService| #[trigger] cloned(a, b) implies a == b by {}
                }
                self.services = copy_list(services);
                self.loading = false;
                let rows = service_rows(&self.services);
                proof {
                    assert(rows_view(rows@).len() == rows@.len());
                }
                self.resource_list.set_rows(rows);
            },
            _ => {},
        }
    }
}

} // verus!
