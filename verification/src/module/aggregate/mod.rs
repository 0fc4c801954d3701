pub mod view_model;

use vstd::prelude::*;
use crate::action::Action;
use crate::event::AppEvent;
use crate::models::nova::Aggregate;
use crate::module::copy_list_by;
use crate::ui::key::Key;
use crate::ui::resource_list::{nav_key, nav_target, rows_view, ResourceList, Row, RowView};
use self::view_model::{aggregate_row_spec, aggregate_to_row};

verus! {

/// The rows of a list of aggregates.
pub open spec fn aggregate_rows_spec(aggs: Seq<Aggregate>) -> Seq<RowView> {
    aggs.map_values(|a: Aggregate| aggregate_row_spec(a))
}

/// Two aggregate lists hold equal aggregates, position by position.
pub open spec fn aggregates_eqv(a: Seq<Aggregate>, b: Seq<Aggregate>) -> bool {
    a.len() == b.len() && forall|i: int| 0 <= i < a.len() ==> (#[trigger] a[i]).eqv(&b[i])
}

/// The table rows of a list of aggregates.
fn aggregate_rows(aggs: &Vec<Aggregate>) -> (r: Vec<Row>)
    ensures
        rows_view(r@) == aggregate_rows_spec(aggs@),
{
    let mut rows: Vec<Row> = Vec::new();
    let mut i: usize = 0;
    while i < aggs.len()
        invariant
            i <= aggs@.len(),
            rows_view(rows@) == aggregate_rows_spec(aggs@.subrange(0, i as int)),
        decreases aggs@.len() - i,
    {
        let row = aggregate_to_row(&aggs[i]);
        let ghost before = rows@;
        rows.push(row);
        proof {
            assert(rows_view(rows@) =~= rows_view(before).push(row@));
            assert(aggregate_rows_spec(aggs@.subrange(0, i + 1)) =~= aggregate_rows_spec(
                aggs@.subrange(0, i as int),
            ).push(aggregate_row_spec(aggs@[i as int])));
        }
        i = i + 1;
    }
    proof {
        assert(aggs@.subrange(0, aggs@.len() as int) =~= aggs@);
    }
    rows
}

/// The host aggregate screen: the aggregates and their table.
pub struct AggregateModule {
    aggregates: Vec<Aggregate>,
    loading: bool,
    resource_list: ResourceList,
}

impl AggregateModule {
    /// The aggregates held.
    pub closed spec fn aggregates_spec(&self) -> Seq<Aggregate> {
        self.aggregates@
    }

    /// Whether a load is outstanding.
    pub closed spec fn loading_spec(&self) -> bool {
        self.loading
    }

    /// The selected row.
    pub closed spec fn selected_spec(&self) -> nat {
        self.resource_list.selected_spec()
    }

    /// The table shows one row per aggregate.
    pub closed spec fn inv(&self) -> bool {
        &&& self.resource_list.inv()
        &&& self.resource_list.rows_spec() == aggregate_rows_spec(self.aggregates@)
        &&& self.resource_list.len_spec() == self.aggregates@.len()
    }

    /// An empty screen.
    pub fn new() -> (r: Self)
        ensures
            r.inv(),
            r.aggregates_spec() == Seq::<Aggregate>::empty(),
            !r.loading_spec(),
            r.selected_spec() == 0,
    {
        let r = AggregateModule { aggregates: Vec::new(), loading: false, resource_list: ResourceList::new() };
        proof {
            assert(aggregate_rows_spec(r.aggregates@) =~= Seq::<RowView>::empty());
        }
        r
    }

    /// The aggregates.
    pub fn aggregates(&self) -> (r: &[Aggregate])
        ensures
            r@ == self.aggregates_spec(),
    {
        self.aggregates.as_slice()
    }

    /// React to a key: table navigation, `r` reloads, Esc goes back.
    pub fn handle_key(&mut self, key: Key) -> (r: Option<Action>)
        requires
            old(self).inv(),
        ensures
            final(self).inv(),
            final(self).aggregates_spec() == old(self).aggregates_spec(),
            final(self).loading_spec() == old(self).loading_spec(),
            final(self).selected_spec() == nav_target(
                key,
                old(self).selected_spec(),
                old(self).aggregates_spec().len(),
            ),
            r == if nav_key(key) {
                None
            } else if key == Key::Char('r') {
                Some(Action::FetchAggregates)
            } else if key == Key::Esc {
                Some(Action::Back)
            } else {
                None
            },
    {
        if self.resource_list.handle_nav_key(key) {
            return None;
        }
        match key {
            Key::Char('r') => Some(Action::FetchAggregates),
            Key::Esc => Some(Action::Back),
            _ => None,
        }
    }

    /// Take in a loaded aggregate list; other events change nothing.
    pub fn handle_event(&mut self, event: &AppEvent)
        requires
            old(self).inv(),
        ensures
            final(self).inv(),
            match event {
                AppEvent::AggregatesLoaded(aggs) => {
                    &&& aggregates_eqv(final(self).aggregates_spec(), aggs@)
                    &&& !final(self).loading_spec()
                },
                _ => {
                    &&& final(self).aggregates_spec() == old(self).aggregates_spec()
                    &&& final(self).loading_spec() == old(self).loading_spec()
                    &&& final(self).selected_spec() == old(self).selected_spec()
                },
            },
    {
        match event {
            AppEvent::AggregatesLoaded(aggs) => {
                self.aggregates = copy_list_by(aggs, Ghost(|a: Aggregate, b: Aggregate| a.eqv(&b)));
                self.loading = false;
                let rows = aggregate_rows(&self.aggregates);
                proof {
                    assert(rows_view(rows@).len() == rows@.len());
                }
                self.resource_list.set_rows(rows);
            },
            _ => {},
        }
    }
}

} // verus!
