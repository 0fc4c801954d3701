pub mod view_model;

use vstd::prelude::*;
use crate::action::Action;
use crate::event::AppEvent;
use crate::models::neutron::NetworkAgent;
use crate::module::{clones_equal, copy_list};
use crate::ui::key::Key;
use crate::ui::resource_list::{nav_key, nav_target, rows_view, ResourceList, Row, RowView};
use self::view_model::{agent_row_spec, agent_to_row};

verus! {

/// The rows of a list of agents.
pub open spec fn agent_rows_spec(agents: Seq<NetworkAgent>) -> Seq<RowView> {
    agents.map_values(|a: NetworkAgent| agent_row_spec(a))
}

/// The table rows of a list of agents.
fn agent_rows(agents: &Vec<NetworkAgent>) -> (r: Vec<Row>)
    ensures
        rows_view(r@) == agent_rows_spec(agents@),
{
    let mut rows: Vec<Row> = Vec::new();
    let mut i: usize = 0;
    while i < agents.len()
        invariant
            i <= agents@.len(),
            rows_view(rows@) == agent_rows_spec(agents@.subrange(0, i as int)),
        decreases agents@.len() - i,
    {
        let row = agent_to_row(&agents[i]);
        let ghost before = rows@;
        rows.push(row);
        proof {
            assert(rows_view(rows@) =~= rows_view(before).push(row@));
            assert(agent_rows_spec(agents@.subrange(0, i + 1)) =~= agent_rows_spec(
                agents@.subrange(0, i as int),
            ).push(agent_row_spec(agents@[i as int])));
        }
        i = i + 1;
    }
    proof {
        assert(agents@.subrange(0, agents@.len() as int) =~= agents@);
    }
    rows
}

/// The network agent screen: the agents and their table.
pub struct AgentModule {
    agents: Vec<NetworkAgent>,
    loading: bool,
    resource_list: ResourceList,
}

impl AgentModule {
    /// The agents held.
    pub closed spec fn agents_spec(&self) -> Seq<NetworkAgent> {
        self.agents@
    }

    /// Whether a load is outstanding.
    pub closed spec fn loading_spec(&self) -> bool {
        self.loading
    }

    /// The selected row.
    pub closed spec fn selected_spec(&self) -> nat {
        self.resource_list.selected_spec()
    }

    /// The table shows one row per agent, and its selection is valid.
    pub closed spec fn inv(&self) -> bool {
        &&& self.resource_list.inv()
        &&& self.resource_list.rows_spec() == agent_rows_spec(self.agents@)
        &&& self.resource_list.len_spec() == self.agents@.len()
    }

    /// An empty screen.
    pub fn new() -> (r: Self)
        ensures
            r.inv(),
            r.agents_spec() == Seq::<NetworkAgent>::empty(),
            !r.loading_spec(),
            r.selected_spec() == 0,
    {
        let r = AgentModule { agents: Vec::new(), loading: false, resource_list: ResourceList::new() };
        proof {
            assert(agent_rows_spec(r.agents@) =~= Seq::<RowView>::empty());
        }
        r
    }

    /// The agents.
    pub fn agents(&self) -> (r: &[NetworkAgent])
        ensures
            r@ == self.agents_spec(),
    {
        self.agents.as_slice()
    }

    /// Index of the selected agent.
    pub fn selected_index(&self) -> (r: usize)
        ensures
            r == self.selected_spec(),
    {
        self.resource_list.selected_index()
    }

    /// The request that reloads this screen.
    pub fn refresh_action(&self) -> (r: Option<Action>)
        ensures
            r == Some(Action::FetchAgents),
    {
        Some(Action::FetchAgents)
    }

    /// React to a key: table navigation, `r` reloads, Left goes to the
    /// sidebar, Esc goes back.
    pub fn handle_key(&mut self, key: Key) -> (r: Option<Action>)
        requires
            old(self).inv(),
        ensures
            final(self).inv(),
            final(self).agents_spec() == old(self).agents_spec(),
            final(self).loading_spec() == old(self).loading_spec(),
            final(self).selected_spec() == nav_target(key, old(self).selected_spec(), old(self).agents_spec().len()),
            r == if nav_key(key) {
                None
            } else if key == Key::Char('r') {
                Some(Action::FetchAgents)
            } else if key == Key::Left {
                Some(Action::FocusSidebar)
            } else if key == Key::Esc {
                Some(Action::Back)
            } else {
                None
            },
    {
        if self.resource_list.handle_nav_key(key) {
            return None;
        }
        match key {
            Key::Char('r') => Some(Action::FetchAgents),
            Key::Left => Some(Action::FocusSidebar),
            Key::Esc => Some(Action::Back),
            _ => None,
        }
    }

    /// Take in a loaded agent list; other events change nothing.
    pub fn handle_event(&mut self, event: &AppEvent)
        requires
            old(self).inv(),
        ensures
            final(self).inv(),
            match event {
                AppEvent::AgentsLoaded(agents) => {
                    &&& final(self).agents_spec() == agents@
                    &&& !final(self).loading_spec()
                },
                _ => {
                    &&& final(self).agents_spec() == old(self).agents_spec()
                    &&& final(self).loading_spec() == old(self).loading_spec()
                    &&& final(self).selected_spec() == old(self).selected_spec()
                },
            },
    {
        match event {
            AppEvent::AgentsLoaded(agents) => {
                proof {
                    assert forall|a: NetworkAgent, b: NetworkAgent| #[trigger] cloned(a, b) implies a == b by {}
                }
                self.agents = copy_list(agents);
                self.loading = false;
                let rows = agent_rows(&self.agents);
                proof {
                    assert(rows_view(rows@).len() == rows@.len());
                }
                self.resource_list.set_rows(rows);
            },
            _ => {},
        }
    }
}

} // verus!
