//! The instances on the selected host: a status filter, check marks for
//! batch operations, and the per-instance evacuation status.
use vstd::prelude::*;
use crate::models::nova::Server;
use crate::text::str_eq;

verus! {

/// Which instances the list shows.
#[derive(Debug, Clone, Copy, PartialEq, Eq, Structural)]
pub enum StatusFilter {
    All,
    Active,
    Error,
    Shutoff,
}

/// Whether `f` shows an instance with `status`.
pub open spec fn filter_matches(f: StatusFilter, status: Seq<char>) -> bool {
    match f {
        StatusFilter::All => true,
        StatusFilter::Active => status == "ACTIVE"@,
        StatusFilter::Error => status == "ERROR"@,
        StatusFilter::Shutoff => status == "SHUTOFF"@ || status == "STOPPED"@,
    }
}

/// The filter after `f` in the cycle All, Active, Error, Shutoff.
pub open spec fn next_filter(f: StatusFilter) -> StatusFilter {
    match f {
        StatusFilter::All => StatusFilter::Active,
        StatusFilter::Active => StatusFilter::Error,
        StatusFilter::Error => StatusFilter::Shutoff,
        StatusFilter::Shutoff => StatusFilter::All,
    }
}

impl StatusFilter {
    /// The next filter in the cycle.
    pub fn cycle(self) -> (r: Self)
        ensures
            r == next_filter(self),
    {
        match self {
            StatusFilter::All => StatusFilter::Active,
            StatusFilter::Active => StatusFilter::Error,
            StatusFilter::Error => StatusFilter::Shutoff,
            StatusFilter::Shutoff => StatusFilter::All,
        }
    }

    /// The filter's name as shown in the list title.
    pub fn label(self) -> (r: &'static str)
        ensures
            r@ == match self {
                StatusFilter::All => "ALL"@,
                StatusFilter::Active => "ACTIVE"@,
                StatusFilter::Error => "ERROR"@,
                StatusFilter::Shutoff => "SHUTOFF"@,
            },
    {
        match self {
            StatusFilter::All => "ALL",
            StatusFilter::Active => "ACTIVE",
            StatusFilter::Error => "ERROR",
            StatusFilter::Shutoff => "SHUTOFF",
        }
    }

    /// Whether the filter shows an instance with `status`.
    pub fn matches(self, status: &str) -> (r: bool)
        ensures
            r == filter_matches(self, status@),
    {
        match self {
            StatusFilter::All => true,
            StatusFilter::Active => str_eq(status, "ACTIVE"),
            StatusFilter::Error => str_eq(status, "ERROR"),
            StatusFilter::Shutoff => str_eq(status, "SHUTOFF") || str_eq(status, "STOPPED"),
        }
    }
}

/// Evacuation status shown next to an instance.
#[derive(Debug, Clone, Copy, PartialEq, Eq, Structural)]
pub enum EvacInlineStatus {
    InFlight,
    Success,
    Failed,
}

/// Indices of the first `n` servers that `f` shows, in order.
pub open spec fn matching_indices(servers: Seq<Server>, f: StatusFilter, n: nat) -> Seq<int>
    decreases n,
{
    if n == 0 {
        Seq::empty()
    } else {
        let prev = matching_indices(servers, f, (n - 1) as nat);
        if filter_matches(f, servers[n - 1].status@) { prev.push(n - 1) } else { prev }
    }
}

/// The ids, among the shown servers `idxs`, that are checked, in list order.
pub open spec fn checked_visible(servers: Seq<Server>, idxs: Seq<int>, checked: Seq<Seq<char>>) -> Seq<Seq<char>>
    decreases idxs.len(),
{
    if idxs.len() == 0 {
        Seq::empty()
    } else {
        let prev = checked_visible(servers, idxs.drop_last(), checked);
        let id = servers[idxs.last()].id@;
        if checked.contains(id) { prev.push(id) } else { prev }
    }
}

/// The status last set for `id` in `entries` (later entries win).
pub open spec fn evac_lookup(entries: Seq<(Seq<char>, EvacInlineStatus)>, id: Seq<char>) -> Option<EvacInlineStatus>
    decreases entries.len(),
{
    if entries.len() == 0 {
        None
    } else if entries.last().0 == id {
        Some(entries.last().1)
    } else {
        evac_lookup(entries.drop_last(), id)
    }
}

/// Views of a list of ids.
pub open spec fn id_views(v: Seq<String>) -> Seq<Seq<char>> {
    v.map_values(|s: String| s@)
}

/// `b` is `a` with the selection moved up one, stopping at the top.
pub open spec fn moved_up(a: InstanceList, b: InstanceList) -> bool {
    &&& b.selected_spec() == if a.selected_spec() > 0 {
        (a.selected_spec() - 1) as nat
        } else {
        0
        }
    &&& b.servers_spec() == a.servers_spec()
    &&& b.shown_spec() == a.shown_spec()
    &&& b.filter_spec() == a.filter_spec()
    &&& b.checked_spec() == a.checked_spec()
    &&& b.evac_spec() == a.evac_spec()
}

/// `b` is `a` with the selection moved down one, stopping at the bottom.
pub open spec fn moved_down(a: InstanceList, b: InstanceList) -> bool {
    &&& b.selected_spec() == if a.selected_spec() + 1 < a.shown_spec().len() {
        a.selected_spec() + 1
        } else {
        a.selected_spec()
        }
    &&& b.servers_spec() == a.servers_spec()
    &&& b.shown_spec() == a.shown_spec()
    &&& b.filter_spec() == a.filter_spec()
    &&& b.checked_spec() == a.checked_spec()
    &&& b.evac_spec() == a.evac_spec()
}

/// `b` is `a` with the selected instance's check mark flipped.
pub open spec fn toggled(a: InstanceList, b: InstanceList) -> bool {
    &&& b.servers_spec() == a.servers_spec()
    &&& b.shown_spec() == a.shown_spec()
    &&& b.selected_spec() == a.selected_spec()
    &&& b.filter_spec() == a.filter_spec()
    &&& b.evac_spec() == a.evac_spec()
    &&& match a.selected_server_spec() {
        None => b.checked_spec() == a.checked_spec(),
        Some(i) => {
            let id = a.servers_spec()[i].id@;
            forall|x: Seq<char>| #[trigger] b.checked_spec().contains(x) == if x == id {
                !a.checked_spec().contains(id)
            } else {
                a.checked_spec().contains(x)
            }
        },
        }
}

/// `b` is `a` with every shown instance checked.
pub open spec fn all_checked(a: InstanceList, b: InstanceList) -> bool {
    &&& b.servers_spec() == a.servers_spec()
    &&& b.shown_spec() == a.shown_spec()
    &&& b.selected_spec() == a.selected_spec()
    &&& b.filter_spec() == a.filter_spec()
    &&& b.evac_spec() == a.evac_spec()
    &&& forall|x: Seq<char>| #[trigger] b.checked_spec().contains(x) == (a.checked_spec().contains(x)
        || exists|k: int| 0 <= k < a.shown_spec().len() && a.servers_spec()[a.shown_spec()[k]].id@ == x)
}

/// `b` is `a` with every check mark removed.
pub open spec fn none_checked(a: InstanceList, b: InstanceList) -> bool {
    &&& b.checked_spec().len() == 0
    &&& b.servers_spec() == a.servers_spec()
    &&& b.shown_spec() == a.shown_spec()
    &&& b.selected_spec() == a.selected_spec()
    &&& b.filter_spec() == a.filter_spec()
    &&& b.evac_spec() == a.evac_spec()
}

/// The selection once `shown` instances are shown: kept where it still
/// points at one, else moved to the last shown, and 0 when none is shown.
pub open spec fn clamped_selection(selected: nat, shown: nat) -> nat {
    if shown == 0 {
        0
    } else if selected >= shown {
        (shown - 1) as nat
    } else {
        selected
    }
}

/// `b` is `a` with the next status filter applied.
pub open spec fn filter_cycled(a: InstanceList, b: InstanceList) -> bool {
    &&& b.filter_spec() == next_filter(a.filter_spec())
    &&& b.selected_spec() == clamped_selection(a.selected_spec(), b.shown_spec().len())
    &&& b.servers_spec() == a.servers_spec()
    &&& b.checked_spec() == a.checked_spec()
    &&& b.evac_spec() == a.evac_spec()
}

/// The instance list.
pub struct InstanceList {
    servers: Vec<Server>,
    filtered_indices: Vec<usize>,
    selected: usize,
    /// Ids of the checked servers; `inv` keeps each id once.
    checked: Vec<String>,
    filter: StatusFilter,
    evac_status: Vec<(String, EvacInlineStatus)>,
}

impl InstanceList {
    /// All instances on the host.
    pub closed spec fn servers_spec(&self) -> Seq<Server> {
        self.servers@
    }

    /// The current filter.
    pub closed spec fn filter_spec(&self) -> StatusFilter {
        self.filter
    }

    /// Indices (into `servers_spec`) of the shown instances, in order.
    pub closed spec fn shown_spec(&self) -> Seq<int> {
        self.filtered_indices@.map_values(|i: usize| i as int)
    }

    /// Position of the selection among the shown instances.
    pub closed spec fn selected_spec(&self) -> nat {
        self.selected as nat
    }

    /// Checked instance ids (no id twice).
    pub closed spec fn checked_spec(&self) -> Seq<Seq<char>> {
        id_views(self.checked@)
    }

    /// Evacuation status entries, later ones overriding earlier ones.
    pub closed spec fn evac_spec(&self) -> Seq<(Seq<char>, EvacInlineStatus)> {
        self.evac_status@.map_values(|e: (String, EvacInlineStatus)| (e.0@, e.1))
    }

    /// The list's invariant: the shown instances are exactly those the
    /// filter matches, the selection lies among them when there are any
    /// (and is 0 otherwise), and no id is checked twice.
    pub open spec fn inv(&self) -> bool {
        &&& self.shown_spec() == matching_indices(
            self.servers_spec(),
            self.filter_spec(),
            self.servers_spec().len(),
        )
        &&& if self.shown_spec().len() == 0 {
            self.selected_spec() == 0
        } else {
            self.selected_spec() < self.shown_spec().len()
        }
        &&& self.checked_spec().no_duplicates()
    }

    /// The selected instance's index into `servers_spec`, if any.
    pub open spec fn selected_server_spec(&self) -> Option<int> {
        if self.selected_spec() < self.shown_spec().len() {
            Some(self.shown_spec()[self.selected_spec() as int])
        } else {
            None
        }
    }

    /// An empty list showing all instances.
    pub fn new() -> (r: Self)
        ensures
            r.inv(),
            r.servers_spec().len() == 0,
            r.filter_spec() == StatusFilter::All,
            r.checked_spec().len() == 0,
            r.evac_spec().len() == 0,
            r.selected_spec() == 0,
    {
        let r = InstanceList {
            servers: Vec::new(),
            filtered_indices: Vec::new(),
            selected: 0,
            checked: Vec::new(),
            filter: StatusFilter::All,
            evac_status: Vec::new(),
        };
        proof {
            assert(r.shown_spec() =~= matching_indices(r.servers@, StatusFilter::All, 0));
        }
        r
    }

    /// Recompute the shown instances for the current filter and keep the
    /// selection among them.
    fn rebuild_filter(&mut self)
        requires
            old(self).checked_spec().no_duplicates(),
        ensures
            final(self).inv(),
            final(self).servers_spec() == old(self).servers_spec(),
            final(self).filter_spec() == old(self).filter_spec(),
            final(self).checked_spec() == old(self).checked_spec(),
            final(self).evac_spec() == old(self).evac_spec(),
            final(self).selected_spec() == clamped_selection(old(self).selected_spec(), final(self).shown_spec().len()),
    {
        let n = self.servers.len();
        let mut idxs: Vec<usize> = Vec::new();
        let mut i: usize = 0;
        while i < n
            invariant
                n == self.servers@.len(),
                i <= n,
                idxs@.map_values(|k: usize| k as int) == matching_indices(self.servers@, self.filter, i as nat),
            decreases n - i,
        {
            let ghost before = idxs@;
            if self.filter.matches(self.servers[i].status.as_str()) {
                idxs.push(i);
                proof {
                    assert(idxs@.map_values(|k: usize| k as int) =~= before.map_values(|k: usize| k as int).push(i as int));
                }
            }
            i = i + 1;
        }
        self.filtered_indices = idxs;
        if self.selected >= self.filtered_indices.len() && self.filtered_indices.len() != 0 {
            self.selected = self.filtered_indices.len() - 1;
        } else if self.filtered_indices.len() == 0 {
            self.selected = 0;
        }
    }

    /// Replace the instances; check marks and evacuation statuses are
    /// cleared and the filter is applied anew.
    pub fn set_servers(&mut self, servers: Vec<Server>)
        requires
            old(self).inv(),
        ensures
            final(self).inv(),
            final(self).servers_spec() == servers@,
            final(self).filter_spec() == old(self).filter_spec(),
            final(self).checked_spec().len() == 0,
            final(self).evac_spec().len() == 0,
            final(self).selected_spec() == clamped_selection(old(self).selected_spec(), final(self).shown_spec().len()),
    {
        self.servers = servers;
        self.checked.clear();
        self.evac_status.clear();
        proof {
            assert(self.checked_spec() =~= Seq::<Seq<char>>::empty());
        }
        self.rebuild_filter();
    }

    /// All instances.
    pub fn servers(&self) -> (r: &[Server])
        ensures
            r@ == self.servers_spec(),
    {
        self.servers.as_slice()
    }

    /// The current filter.
    pub fn filter(&self) -> (r: StatusFilter)
        ensures
            r == self.filter_spec(),
    {
        self.filter
    }

    /// Switch to the next filter and apply it.
    pub fn cycle_filter(&mut self)
        requires
            old(self).inv(),
        ensures
            final(self).inv(),
            filter_cycled(*old(self), *final(self)),
    {
        self.filter = self.filter.cycle();
        self.rebuild_filter();
    }

    /// Number of shown instances.
    pub fn filtered_count(&self) -> (r: usize)
        ensures
            r == self.shown_spec().len(),
    {
        self.filtered_indices.len()
    }

    /// The selected instance, if any.
    pub fn selected_server(&self) -> (r: Option<&Server>)
        requires
            self.inv(),
        ensures
            match self.selected_server_spec() {
                Some(i) => r == Some(&self.servers_spec()[i]),
                None => r.is_none(),
            },
    {
        if self.selected < self.filtered_indices.len() {
            let i = self.filtered_indices[self.selected];
            proof {
                lemma_matching_bounds(self.servers@, self.filter, self.servers@.len());
                assert(self.shown_spec()[self.selected as int] == i as int);
            }
            Some(&self.servers[i])
        } else {
            None
        }
    }

    /// Move the selection up, stopping at the first shown instance.
    pub fn move_up(&mut self)
        requires
            old(self).inv(),
        ensures
            final(self).inv(),
            moved_up(*old(self), *final(self)),
    {
        if self.selected > 0 {
            self.selected = self.selected - 1;
        }
    }

    /// Move the selection down, stopping at the last shown instance.
    pub fn move_down(&mut self)
        requires
            old(self).inv(),
        ensures
            final(self).inv(),
            moved_down(*old(self), *final(self)),
    {
        if self.filtered_indices.len() != 0 && self.selected < self.filtered_indices.len() - 1 {
            self.selected = self.selected + 1;
        }
    }

    /// Check the selected instance, or uncheck it if it was checked.
    pub fn toggle_check(&mut self)
        requires
            old(self).inv(),
        ensures
            final(self).inv(),
            toggled(*old(self), *final(self)),
    {
        if self.selected < self.filtered_indices.len() {
            let i = self.filtered_indices[self.selected];
            proof {
                lemma_matching_bounds(self.servers@, self.filter, self.servers@.len());
                assert(self.shown_spec()[self.selected as int] == i as int);
            }
            let id = self.servers[i].id.clone();
            let ghost c = self.checked_spec();
            match find_string(&self.checked, id.as_str()) {
                Some(k) => {
                    let _ = self.checked.remove(k);
                    proof {
                        assert(c[k as int] == id@);
                        assert(c.contains(id@));
                        assert(self.checked_spec() =~= c.remove(k as int));
                        lemma_remove_unique(c, k as int);
                    }
                },
                None => {
                    self.checked.push(id);
                    proof {
                        assert(self.checked_spec() =~= c.push(id@));
                        lemma_push_new(c, id@);
                    }
                },
            }
        }
    }

    /// Check every shown instance.
    pub fn select_all(&mut self)
        requires
            old(self).inv(),
        ensures
            final(self).inv(),
            all_checked(*old(self), *final(self)),
    {
        let n = self.filtered_indices.len();
        let mut j: usize = 0;
        proof {
            lemma_matching_bounds(self.servers@, self.filter, self.servers@.len());
        }
        while j < n
            invariant
                n == self.filtered_indices@.len(),
                j <= n,
                self.inv(),
                self.servers_spec() == old(self).servers_spec(),
                self.shown_spec() == old(self).shown_spec(),
                self.selected_spec() == old(self).selected_spec(),
                self.filter_spec() == old(self).filter_spec(),
                self.evac_spec() == old(self).evac_spec(),
                forall|k: int| 0 <= k < self.shown_spec().len() ==> 0 <= #[trigger] self.shown_spec()[k] < self.servers_spec().len(),
                forall|x: Seq<char>| #[trigger] self.checked_spec().contains(x) == (old(self).checked_spec().contains(x)
                    || exists|k: int| 0 <= k < j && self.servers_spec()[self.shown_spec()[k]].id@ == x),
            decreases n - j,
        {
            let i = self.filtered_indices[j];
            proof {
                assert(self.shown_spec()[j as int] == i as int);
            }
            let ghost c = self.checked_spec();
            let ghost sid = self.servers@[i as int].id@;
            if i < self.servers.len() {
                let id = self.servers[i].id.clone();
                match find_string(&self.checked, id.as_str()) {
                    None => {
                        self.checked.push(id);
                        proof {
                            assert(self.checked_spec() =~= c.push(sid));
                            lemma_push_new(c, sid);
                        }
                    },
                    Some(k) => {
                        proof {
                            assert(c[k as int] == sid);
                        }
                    },
                }
            }
            proof {
                assert(self.checked_spec().contains(sid));
                assert forall|x: Seq<char>| x != sid implies #[trigger] self.checked_spec().contains(x) == c.contains(x) by {
                }
            }
            proof {
                assert forall|x: Seq<char>| #[trigger] self.checked_spec().contains(x) == (old(self).checked_spec().contains(x)
                    || exists|k: int| 0 <= k < j + 1 && self.servers_spec()[self.shown_spec()[k]].id@ == x) by {
                    if x == sid {
                        assert(self.servers_spec()[self.shown_spec()[j as int]].id@ == x);
                    }
                    if exists|k: int| 0 <= k < j + 1 && self.servers_spec()[self.shown_spec()[k]].id@ == x {
                        let k = choose|k: int| 0 <= k < j + 1 && self.servers_spec()[self.shown_spec()[k]].id@ == x;
                        if k < j {
                            assert(exists|k2: int| 0 <= k2 < j && self.servers_spec()[self.shown_spec()[k2]].id@ == x);
                        }
                    }
                }
            }
            j = j + 1;
        }
    }

    /// Uncheck everything.
    pub fn deselect_all(&mut self)
        requires
            old(self).inv(),
        ensures
            final(self).inv(),
            none_checked(*old(self), *final(self)),
    {
        self.checked.clear();
        proof {
            assert(self.checked_spec() =~= Seq::<Seq<char>>::empty());
        }
    }

    /// The checked ids among the shown instances, in list order. Checked
    /// instances hidden by the filter are left out.
    pub fn checked_ids(&self) -> (r: Vec<String>)
        requires
            self.inv(),
        ensures
            id_views(r@) == checked_visible(self.servers_spec(), self.shown_spec(), self.checked_spec()),
    {
        let n = self.filtered_indices.len();
        let mut out: Vec<String> = Vec::new();
        let mut j: usize = 0;
        proof {
            lemma_matching_bounds(self.servers@, self.filter, self.servers@.len());
        }
        while j < n
            invariant
                n == self.filtered_indices@.len(),
                j <= n,
                forall|k: int| 0 <= k < self.shown_spec().len() ==> 0 <= #[trigger] self.shown_spec()[k] < self.servers_spec().len(),
                id_views(out@) == checked_visible(self.servers_spec(), self.shown_spec().subrange(0, j as int), self.checked_spec()),
            decreases n - j,
        {
            let i = self.filtered_indices[j];
            let ghost before = out@;
            proof {
                assert(self.shown_spec()[j as int] == i as int);
                assert(self.shown_spec().subrange(0, j + 1).drop_last() =~= self.shown_spec().subrange(0, j as int));
            }
            proof {
                assert(self.shown_spec().subrange(0, j + 1).last() == i as int);
            }
            if i < self.servers.len() {
                let sid = self.servers[i].id.as_str();
                match find_string(&self.checked, sid) {
                    Some(k) => {
                        proof {
                            assert(self.checked_spec()[k as int] == sid@);
                        }
                        out.push(self.servers[i].id.clone());
                        proof {
                            assert(id_views(out@) =~= id_views(before).push(self.servers@[i as int].id@));
                        }
                    },
                    None => {},
                }
            }
            j = j + 1;
        }
        proof {
            assert(self.shown_spec().subrange(0, n as int) =~= self.shown_spec());
        }
        out
    }

    /// Number of checked ids among the shown instances.
    pub fn checked_count(&self) -> (r: usize)
        requires
            self.inv(),
        ensures
            r == checked_visible(self.servers_spec(), self.shown_spec(), self.checked_spec()).len(),
    {
        let ids = self.checked_ids();
        ids.len()
    }

    /// Whether `id` is checked (whether or not it is shown).
    pub fn is_checked(&self, id: &str) -> (r: bool)
        ensures
            r == self.checked_spec().contains(id@),
    {
        match find_string(&self.checked, id) {
            Some(k) => {
                proof {
                    assert(self.checked_spec()[k as int] == id@);
                }
                true
            },
            None => false,
        }
    }

    /// Show `status` next to instance `server_id`.
    pub fn set_evac_status(&mut self, server_id: &str, status: EvacInlineStatus)
        requires
            old(self).inv(),
        ensures
            final(self).inv(),
            final(self).evac_spec() == old(self).evac_spec().push((server_id@, status)),
            forall|x: Seq<char>| #[trigger] evac_lookup(final(self).evac_spec(), x) == if x == server_id@ {
                Some(status)
            } else {
                evac_lookup(old(self).evac_spec(), x)
            },
            final(self).servers_spec() == old(self).servers_spec(),
            final(self).shown_spec() == old(self).shown_spec(),
            final(self).selected_spec() == old(self).selected_spec(),
            final(self).filter_spec() == old(self).filter_spec(),
            final(self).checked_spec() == old(self).checked_spec(),
    {
        let ghost e = self.evac_spec();
        self.evac_status.push((String::from_str(server_id), status));
        proof {
            assert(self.evac_spec() =~= e.push((server_id@, status)));
            assert forall|x: Seq<char>| #[trigger] evac_lookup(self.evac_spec(), x) == if x == server_id@ {
                Some(status)
            } else {
                evac_lookup(e, x)
            } by {
                assert(self.evac_spec().drop_last() =~= e);
            }
        }
    }

    /// Remove every evacuation status.
    pub fn clear_evac_status(&mut self)
        requires
            old(self).inv(),
        ensures
            final(self).inv(),
            final(self).evac_spec().len() == 0,
            final(self).servers_spec() == old(self).servers_spec(),
            final(self).shown_spec() == old(self).shown_spec(),
            final(self).selected_spec() == old(self).selected_spec(),
            final(self).filter_spec() == old(self).filter_spec(),
            final(self).checked_spec() == old(self).checked_spec(),
    {
        self.evac_status.clear();
    }

    /// The evacuation status shown next to `server_id`, if any.
    pub fn evac_status(&self, server_id: &str) -> (r: Option<EvacInlineStatus>)
        ensures
            r == evac_lookup(self.evac_spec(), server_id@),
    {
        let mut j: usize = self.evac_status.len();
        let ghost e = self.evac_spec();
        proof {
            assert(e.subrange(0, j as int) =~= e);
        }
        while j > 0
            invariant
                j <= self.evac_status@.len(),
                e == self.evac_spec(),
                evac_lookup(e, server_id@) == evac_lookup(e.subrange(0, j as int), server_id@),
            decreases j,
        {
            let ghost sub = e.subrange(0, j as int);
            proof {
                assert(sub.drop_last() =~= e.subrange(0, j - 1));
            }
            if str_eq(self.evac_status[j - 1].0.as_str(), server_id) {
                return Some(self.evac_status[j - 1].1);
            }
            j = j - 1;
        }
        None
    }

    /// Whether no evacuation status is shown.
    pub fn evac_status_is_empty(&self) -> (r: bool)
        ensures
            r == (self.evac_spec().len() == 0),
    {
        self.evac_status.len() == 0
    }
}

/// Index of `id` in `v`, if it is there.
fn find_string(v: &Vec<String>, id: &str) -> (r: Option<usize>)
    ensures
        match r {
            Some(i) => i < v@.len() && v@[i as int]@ == id@,
            None => !id_views(v@).contains(id@),
        },
{
    let n = v.len();
    let mut i: usize = 0;
    while i < n
        invariant
            n == v@.len(),
            i <= n,
            forall|j: int| 0 <= j < i ==> (#[trigger] v@[j])@ != id@,
        decreases n - i,
    {
        if str_eq(v[i].as_str(), id) {
            return Some(i);
        }
        i = i + 1;
    }
    proof {
        if id_views(v@).contains(id@) {
            let k = choose|k: int| 0 <= k < id_views(v@).len() && id_views(v@)[k] == id@;
            assert(v@[k]@ == id@);
        }
    }
    None
}

/// Removing the one occurrence of an element from a duplicate-free list
/// removes exactly that element.
pub proof fn lemma_remove_unique(c: Seq<Seq<char>>, k: int)
    requires
        c.no_duplicates(),
        0 <= k < c.len(),
    ensures
        c.remove(k).no_duplicates(),
        forall|x: Seq<char>| #[trigger] c.remove(k).contains(x) == (x != c[k] && c.contains(x)),
{
    let g = c.remove(k);
    assert forall|a: int, b: int| 0 <= a < g.len() && 0 <= b < g.len() && a != b implies g[a] != g[b] by {
        let a2 = if a < k { a } else { a + 1 };
        let b2 = if b < k { b } else { b + 1 };
        assert(g[a] == c[a2]);
        assert(g[b] == c[b2]);
    }
    assert forall|x: Seq<char>| #[trigger] g.contains(x) == (x != c[k] && c.contains(x)) by {
        if g.contains(x) {
            let a = choose|a: int| 0 <= a < g.len() && g[a] == x;
            let a2 = if a < k { a } else { a + 1 };
            assert(c[a2] == x);
        }
        if x != c[k] && c.contains(x) {
            let a = choose|a: int| 0 <= a < c.len() && c[a] == x;
            if a < k {
                assert(g[a] == x);
            } else {
                assert(a != k);
                assert(g[a - 1] == x);
            }
        }
    }
}

/// Appending a new element keeps a list duplicate-free and adds exactly it.
pub proof fn lemma_push_new(c: Seq<Seq<char>>, x: Seq<char>)
    requires
        c.no_duplicates(),
        !c.contains(x),
    ensures
        c.push(x).no_duplicates(),
        forall|y: Seq<char>| #[trigger] c.push(x).contains(y) == (y == x || c.contains(y)),
{
    let g = c.push(x);
    assert forall|a: int, b: int| 0 <= a < g.len() && 0 <= b < g.len() && a != b implies g[a] != g[b] by {
        if a == c.len() as int {
            assert(g[b] == c[b]);
        } else if b == c.len() as int {
            assert(g[a] == c[a]);
        }
    }
    assert forall|y: Seq<char>| #[trigger] g.contains(y) == (y == x || c.contains(y)) by {
        if g.contains(y) {
            let a = choose|a: int| 0 <= a < g.len() && g[a] == y;
            if a < c.len() {
                assert(c[a] == y);
            }
        }
        if c.contains(y) {
            let a = choose|a: int| 0 <= a < c.len() && c[a] == y;
            assert(g[a] == y);
        }
        if y == x {
            assert(g[c.len() as int] == y);
        }
    }
}

/// Every shown index lies within the server list and the indices increase.
pub proof fn lemma_matching_bounds(servers: Seq<Server>, f: StatusFilter, n: nat)
    requires
        n <= servers.len(),
    ensures
        forall|k: int| 0 <= k < matching_indices(servers, f, n).len() ==> 0 <= #[trigger] matching_indices(servers, f, n)[k] < n,
        matching_indices(servers, f, n).len() <= n,
    decreases n,
{
    if n > 0 {
        lemma_matching_bounds(servers, f, (n - 1) as nat);
    }
}

/// The filter cycles through its four settings: four steps return to the
/// start, and each step changes it.
pub proof fn lemma_filter_cycle(f: StatusFilter)
    ensures
        next_filter(next_filter(next_filter(next_filter(f)))) == f,
        next_filter(f) != f,
{
}

/// Toggling the same row twice leaves the checked set as it was.
pub proof fn lemma_toggle_twice(a: InstanceList, b: InstanceList, c: InstanceList)
    requires
        toggled(a, b),
        toggled(b, c),
    ensures
        forall|x: Seq<char>| #[trigger] c.checked_spec().contains(x) == a.checked_spec().contains(x),
{
    assert(b.selected_server_spec() == a.selected_server_spec());
}

} // verus!
