//! The table of screens: what each contributes to the sidebar, the
//! request it loads with, and the labels of the routes it owns.
use vstd::prelude::*;
use crate::action::Action;
use crate::models::common::Route;
use crate::ui::sidebar::SidebarItem;

verus! {

/// One screen: its sidebar entry, its state (`C`), the request that first
/// loads it, the other routes it serves, and the name shown for them all.
pub struct ModuleEntry<C> {
    pub sidebar: SidebarItem,
    pub component: C,
    pub initial_action: Option<Action>,
    pub related_routes: &'static [Route],
    pub display_name: &'static str,
}

impl<C> Default for ModuleRegistry<C> {
    /// An empty registry.
    fn default() -> (r: Self)
        ensures
            r.entries_spec().len() == 0,
            r.extras_spec().len() == 0,
    {
        ModuleRegistry::new()
    }
}

/// Every route labelled by `entries`, in the order they are labelled: each
/// entry's own route, then its related routes.
pub open spec fn labelled_routes<C>(entries: Seq<ModuleEntry<C>>) -> Seq<Route>
    decreases entries.len(),
{
    if entries.len() == 0 {
        Seq::empty()
    } else {
        labelled_routes(entries.drop_last()) + seq![entries.last().sidebar.route]
            + entries.last().related_routes@
    }
}

/// The entries can be assembled: no two entries own the same route, and
/// no related route is labelled a second time (assembling such entries is
/// a programming error).
pub open spec fn entries_ok<C>(entries: Seq<ModuleEntry<C>>) -> bool {
    &&& entries.map_values(|e: ModuleEntry<C>| e.sidebar.route).no_duplicates()
    &&& forall|k: int, j: int|
        0 <= k < entries.len() && 0 <= j < entries[k].related_routes@.len() ==> !(labelled_routes(
            entries.take(k),
        ) + seq![entries[k].sidebar.route] + entries[k].related_routes@.take(j)).contains(
            #[trigger] entries[k].related_routes@[j],
        )
}

/// The name shown for route `x` by `entries`: that of the last entry that
/// serves it.
pub open spec fn entry_label<C>(entries: Seq<ModuleEntry<C>>, x: Route) -> Option<Seq<char>>
    decreases entries.len(),
{
    if entries.len() == 0 {
        None
    } else if entries.last().sidebar.route == x || entries.last().related_routes@.contains(x) {
        Some(entries.last().display_name@)
    } else {
        entry_label(entries.drop_last(), x)
    }
}

/// The name given to route `x` by the first of `extras` that names it.
pub open spec fn extra_label(extras: Seq<(Route, &'static str)>, x: Route) -> Option<Seq<char>>
    decreases extras.len(),
{
    if extras.len() == 0 {
        None
    } else {
        let prev = extra_label(extras.drop_last(), x);
        if prev is Some {
            prev
        } else if extras.last().0 == x {
            Some(extras.last().1@)
        } else {
            None
        }
    }
}

/// The label a list of (route, label) pairs gives `x`: the last pair's.
pub open spec fn label_lookup(pairs: Seq<(Route, &'static str)>, x: Route) -> Option<Seq<char>>
    decreases pairs.len(),
{
    if pairs.len() == 0 {
        None
    } else if pairs.last().0 == x {
        Some(pairs.last().1@)
    } else {
        label_lookup(pairs.drop_last(), x)
    }
}

/// The requests of the entries that load with one, in entry order.
pub open spec fn initial_actions_of<C>(entries: Seq<ModuleEntry<C>>) -> Seq<Action>
    decreases entries.len(),
{
    if entries.len() == 0 {
        Seq::empty()
    } else {
        let prev = initial_actions_of(entries.drop_last());
        match entries.last().initial_action {
            Some(a) => prev.push(a),
            None => prev,
        }
    }
}

/// What the application needs from the registered screens: each screen's
/// state by route, the sidebar, the first requests to send, and the label
/// of every known route (the last pair for a route counts).
pub struct RegistryParts<C> {
    pub components: Vec<(Route, C)>,
    pub sidebar_items: Vec<SidebarItem>,
    pub initial_actions: Vec<Action>,
    pub route_labels: Vec<(Route, &'static str)>,
}

impl<C> RegistryParts<C> {
    /// Whether a screen serves `route`.
    pub fn has_component(&self, route: Route) -> (r: bool)
        ensures
            r == exists|i: int| 0 <= i < self.components@.len() && (#[trigger] self.components@[i]).0 == route,
    {
        let mut i: usize = 0;
        while i < self.components.len()
            invariant
                i <= self.components@.len(),
                forall|j: int| 0 <= j < i ==> (#[trigger] self.components@[j]).0 != route,
            decreases self.components@.len() - i,
        {
            if self.components[i].0 == route {
                return true;
            }
            i = i + 1;
        }
        false
    }

    /// The label shown for `route`, if it has one.
    pub fn route_label(&self, route: Route) -> (r: Option<&'static str>)
        ensures
            match r {
                Some(l) => label_lookup(self.route_labels@, route) == Some(l@),
                None => label_lookup(self.route_labels@, route) is None,
            },
    {
        let mut i: usize = self.route_labels.len();
        proof {
            assert(self.route_labels@.take(i as int) =~= self.route_labels@);
        }
        while i > 0
            invariant
                i <= self.route_labels@.len(),
                label_lookup(self.route_labels@, route) == label_lookup(self.route_labels@.take(i as int), route),
            decreases i,
        {
            proof {
                assert(self.route_labels@.take(i as int).drop_last() =~= self.route_labels@.take(i - 1));
            }
            if self.route_labels[i - 1].0 == route {
                return Some(self.route_labels[i - 1].1);
            }
            i = i - 1;
        }
        proof {
            assert(self.route_labels@.take(0) =~= Seq::<(Route, &'static str)>::empty());
        }
        None
    }
}

/// Screens registered so far, and labels for routes no screen serves.
pub struct ModuleRegistry<C> {
    entries: Vec<ModuleEntry<C>>,
    extra_labels: Vec<(Route, &'static str)>,
}

impl<C> ModuleRegistry<C> {
    /// The registered screens, in order.
    pub closed spec fn entries_spec(&self) -> Seq<ModuleEntry<C>> {
        self.entries@
    }

    /// The extra route labels, in order.
    pub closed spec fn extras_spec(&self) -> Seq<(Route, &'static str)> {
        self.extra_labels@
    }

    /// An empty registry.
    pub fn new() -> (r: Self)
        ensures
            r.entries_spec().len() == 0,
            r.extras_spec().len() == 0,
    {
        ModuleRegistry { entries: Vec::new(), extra_labels: Vec::new() }
    }

    /// Register a screen.
    pub fn register(&mut self, entry: ModuleEntry<C>)
        ensures
            final(self).entries_spec() == old(self).entries_spec().push(entry),
            final(self).extras_spec() == old(self).extras_spec(),
    {
        self.entries.push(entry);
    }

    /// Add a label for a route that no screen serves yet.
    pub fn add_route_label(&mut self, route: Route, label: &'static str)
        ensures
            final(self).entries_spec() == old(self).entries_spec(),
            final(self).extras_spec() == old(self).extras_spec().push((route, label)),
    {
        self.extra_labels.push((route, label));
    }

    /// Whether the registered screens can be assembled (`entries_ok`).
    pub fn can_assemble(&self) -> (r: bool)
        ensures
            r == entries_ok(self.entries_spec()),
    {
        let ghost all = self.entries@;
        let ghost routes = all.map_values(|e: ModuleEntry<C>| e.sidebar.route);
        let mut owned: Vec<Route> = Vec::new();
        let mut seen: Vec<Route> = Vec::new();
        let mut k: usize = 0;
        proof {
            assert(all.take(0) =~= Seq::<ModuleEntry<C>>::empty());
            assert(routes.take(0) =~= Seq::<Route>::empty());
        }
        while k < self.entries.len()
            invariant
                all == self.entries@,
                routes == all.map_values(|e: ModuleEntry<C>| e.sidebar.route),
                k <= all.len(),
                owned@ == routes.take(k as int),
                routes.take(k as int).no_duplicates(),
                seen@ == labelled_routes(all.take(k as int)),
                forall|k2: int, j: int|
                    0 <= k2 < k && 0 <= j < all[k2].related_routes@.len() ==> !(labelled_routes(
                        all.take(k2),
                    ) + seq![all[k2].sidebar.route] + all[k2].related_routes@.take(j)).contains(
                        #[trigger] all[k2].related_routes@[j],
                    ),
            decreases all.len() - k,
        {
            let route = self.entries[k].sidebar.route;
            let related = self.entries[k].related_routes;
            if route_in(&owned, route) {
                proof {
                    let t = routes.take(k as int);
                    let i = choose|i: int| 0 <= i < t.len() && t[i] == route;
                    assert(routes[i] == routes[k as int]);
                }
                return false;
            }
            proof {
                let t = routes.take(k as int);
                assert(routes.take(k + 1) =~= t.push(route));
                let t1 = routes.take(k + 1);
                assert forall|a: int, b: int| 0 <= a < t1.len() && 0 <= b < t1.len() && a != b implies #[trigger] t1[a] != #[trigger] t1[b] by {
                    if b == k {
                        assert(t[a] == t1[a]);
                    } else if a == k {
                        assert(t[b] == t1[b]);
                    }
                }
            }
            owned.push(route);
            seen.push(route);
            let ghost base = labelled_routes(all.take(k as int)) + seq![route];
            let mut j: usize = 0;
            proof {
                assert(related@.take(0) =~= Seq::<Route>::empty());
                assert(seen@ =~= base + related@.take(0));
            }
            while j < related.len()
                invariant
                    all == self.entries@,
                    k < all.len(),
                    related@ == all[k as int].related_routes@,
                    route == all[k as int].sidebar.route,
                    base == labelled_routes(all.take(k as int)) + seq![route],
                    j <= related@.len(),
                    seen@ == base + related@.take(j as int),
                    forall|j2: int| 0 <= j2 < j ==> !(base + related@.take(j2)).contains(#[trigger] related@[j2]),
                decreases related@.len() - j,
            {
                if route_in(&seen, related[j]) {
                    return false;
                }
                seen.push(related[j]);
                proof {
                    assert(related@.take(j + 1) =~= related@.take(j as int).push(related@[j as int]));
                    assert(seen@ =~= base + related@.take(j + 1));
                }
                j = j + 1;
            }
            proof {
                assert(related@.take(related@.len() as int) =~= related@);
                assert(all.take(k + 1).drop_last() =~= all.take(k as int));
                assert(all.take(k + 1).last() == all[k as int]);
                assert(seen@ =~= labelled_routes(all.take(k + 1)));
                assert forall|k2: int, j2: int|
                    0 <= k2 < k + 1 && 0 <= j2 < all[k2].related_routes@.len() implies !(labelled_routes(
                        all.take(k2),
                    ) + seq![all[k2].sidebar.route] + all[k2].related_routes@.take(j2)).contains(
                        #[trigger] all[k2].related_routes@[j2],
                    ) by {
                    if k2 == k {
                        assert(!(base + related@.take(j2)).contains(related@[j2]));
                    }
                }
            }
            k = k + 1;
        }
        proof {
            assert(all.take(k as int) =~= all);
            assert(routes.take(k as int) =~= routes);
        }
        true
    }

    /// Assemble the registered screens: their states keyed by route and
    /// sidebar entries, in registration order; the first requests of those
    /// that have one; and a label for every route a screen serves (its
    /// display name) or that was given an extra label (the first such, and
    /// only where no screen names the route).
    pub fn into_parts(self) -> (r: RegistryParts<C>)
        requires
            entries_ok(self.entries_spec()),
        ensures
            r.components@.len() == self.entries_spec().len(),
            forall|i: int| 0 <= i < r.components@.len() ==> #[trigger] r.components@[i] == (
                self.entries_spec()[i].sidebar.route,
                self.entries_spec()[i].component,
            ),
            r.sidebar_items@ == self.entries_spec().map_values(|e: ModuleEntry<C>| e.sidebar),
            r.initial_actions@ == initial_actions_of(self.entries_spec()),
            forall|x: Route| #[trigger] label_lookup(r.route_labels@, x) == match entry_label(self.entries_spec(), x) {
                Some(l) => Some(l),
                None => extra_label(self.extras_spec(), x),
            },
    {
        let ghost all = self.entries@;
        let mut entries = self.entries;
        let extras = self.extra_labels;
        let mut components: Vec<(Route, C)> = Vec::new();
        let mut sidebar_items: Vec<SidebarItem> = Vec::new();
        let mut initial_actions: Vec<Action> = Vec::new();
        let mut route_labels: Vec<(Route, &'static str)> = Vec::new();
        let mut k: usize = 0;
        let n = entries.len();
        proof {
            assert(all.skip(0) =~= all);
            assert(all.take(0) =~= Seq::<ModuleEntry<C>>::empty());
        }
        while entries.len() > 0
            invariant
                n == all.len(),
                k + entries@.len() == all.len(),
                entries@ == all.skip(k as int),
                components@.len() == k,
                forall|i: int| 0 <= i < k ==> #[trigger] components@[i] == (all[i].sidebar.route, all[i].component),
                sidebar_items@ == all.take(k as int).map_values(|e: ModuleEntry<C>| e.sidebar),
                initial_actions@ == initial_actions_of(all.take(k as int)),
                forall|x: Route| #[trigger] label_lookup(route_labels@, x) == entry_label(all.take(k as int), x),
            decreases entries@.len(),
        {
            let ghost before = route_labels@;
            let ghost e0 = entries@[0];
            let entry = entries.remove(0);
            proof {
                assert(all.take(k + 1).drop_last() =~= all.take(k as int));
                assert(all.take(k + 1).last() == e0);
                assert(all[k as int] == e0);
                assert(entries@ =~= all.skip(k + 1));
            }
            let route = entry.sidebar.route;
            route_labels.push((route, entry.display_name));
            let related = entry.related_routes;
            proof {
                assert(route_labels@.drop_last() =~= before);
                assert(related@.take(0) =~= Seq::<Route>::empty());
            }
            let mut j: usize = 0;
            while j < related.len()
                invariant
                    j <= related@.len(),
                    related@ == e0.related_routes@,
                    route == e0.sidebar.route,
                    entry.display_name == e0.display_name,
                    forall|x: Route| #[trigger] label_lookup(route_labels@, x) == if x == route
                        || related@.take(j as int).contains(x) {
                        Some(e0.display_name@)
                    } else {
                        label_lookup(before, x)
                    },
                decreases related@.len() - j,
            {
                let ghost prev = route_labels@;
                route_labels.push((related[j], entry.display_name));
                proof {
                    assert(route_labels@.drop_last() =~= prev);
                    assert forall|x: Route| #[trigger] label_lookup(route_labels@, x) == if x == route
                        || related@.take(j + 1).contains(x) {
                        Some(e0.display_name@)
                    } else {
                        label_lookup(before, x)
                    } by {
                        assert(related@.take(j + 1) =~= related@.take(j as int).push(related@[j as int]));
                        let s1 = related@.take(j as int);
                        let s2 = related@.take(j + 1);
                        assert(s2[j as int] == related@[j as int]);
                        assert(route_labels@.last() == (related@[j as int], e0.display_name));
                        assert(label_lookup(prev, x) == if x == route || s1.contains(x) {
                            Some(e0.display_name@)
                        } else {
                            label_lookup(before, x)
                        });
                        if x == related@[j as int] {
                            assert(label_lookup(route_labels@, x) == Some(e0.display_name@));
                            assert(s2.contains(x));
                        } else {
                            assert(label_lookup(route_labels@, x) == label_lookup(prev, x));
                        }
                        if s1.contains(x) {
                            let t = choose|t: int| 0 <= t < s1.len() && s1[t] == x;
                            assert(s2[t] == x);
                        }
                        if s2.contains(x) && x != related@[j as int] {
                            let t = choose|t: int| 0 <= t < s2.len() && s2[t] == x;
                            assert(s1[t] == x);
                        }
                    }
                }
                j = j + 1;
            }
            proof {
                assert(related@.take(related@.len() as int) =~= related@);
            }
            sidebar_items.push(entry.sidebar);
            match entry.initial_action {
                Some(a) => initial_actions.push(a),
                None => {},
            }
            components.push((route, entry.component));
            proof {
                assert(sidebar_items@ =~= all.take(k + 1).map_values(|e: ModuleEntry<C>| e.sidebar));
            }
            k = k + 1;
        }
        proof {
            assert(all.take(k as int) =~= all);
        }
        let mut m: usize = 0;
        proof {
            assert(extras@.take(0) =~= Seq::<(Route, &'static str)>::empty());
        }
        while m < extras.len()
            invariant
                m <= extras@.len(),
                forall|x: Route| #[trigger] label_lookup(route_labels@, x) == match entry_label(all, x) {
                    Some(l) => Some(l),
                    None => extra_label(extras@.take(m as int), x),
                },
            decreases extras@.len() - m,
        {
            let (route, label) = extras[m];
            proof {
                assert(extras@.take(m + 1).drop_last() =~= extras@.take(m as int));
            }
            let known = self_label_known(&route_labels, route);
            let ghost prev = route_labels@;
            if !known {
                route_labels.push((route, label));
                proof {
                    assert(route_labels@.drop_last() =~= prev);
                }
            }
            proof {
                let t1 = extras@.take(m + 1);
                assert(t1.last() == (route, label));
                assert forall|x: Route| #[trigger] label_lookup(route_labels@, x) == match entry_label(all, x) {
                    Some(l) => Some(l),
                    None => extra_label(t1, x),
                } by {
                    assert(label_lookup(prev, x) == match entry_label(all, x) {
                        Some(l) => Some(l),
                        None => extra_label(extras@.take(m as int), x),
                    });
                }
            }
            m = m + 1;
        }
        proof {
            assert(extras@.take(extras@.len() as int) =~= extras@);
        }
        RegistryParts { components, sidebar_items, initial_actions, route_labels }
    }
}

/// The standard screens, in sidebar order: label (also the display name),
/// route, shortcut, whether only admins see it, the request it loads with,
/// and its related routes.
pub open spec fn standard_screen(i: int) -> (Seq<char>, Route, Seq<char>, bool, Option<Action>, Seq<Route>) {
    if i == 0 {
        ("Servers"@, Route::Servers, "1"@, false, Some(Action::FetchServers), seq![Route::ServerDetail, Route::ServerCreate])
    } else if i == 1 {
        ("Flavors"@, Route::Flavors, "2"@, false, Some(Action::FetchFlavors), Seq::empty())
    } else if i == 2 {
        ("Networks"@, Route::Networks, "3"@, false, Some(Action::FetchNetworks), seq![Route::NetworkDetail])
    } else if i == 3 {
        ("Security Groups"@, Route::SecurityGroups, "4"@, false, Some(Action::FetchSecurityGroups), seq![Route::SecurityGroupDetail])
    } else if i == 4 {
        ("Floating IPs"@, Route::FloatingIps, "5"@, false, Some(Action::FetchFloatingIps), Seq::empty())
    } else if i == 5 {
        ("Volumes"@, Route::Volumes, "6"@, false, Some(Action::FetchVolumes), seq![Route::VolumeDetail, Route::VolumeCreate])
    } else if i == 6 {
        ("Snapshots"@, Route::Snapshots, "7"@, false, Some(Action::FetchSnapshots), Seq::empty())
    } else if i == 7 {
        ("Images"@, Route::Images, "8"@, false, Some(Action::FetchImages), seq![Route::ImageDetail])
    } else if i == 8 {
        ("Projects"@, Route::Projects, "9"@, true, Some(Action::FetchProjects), Seq::empty())
    } else if i == 9 {
        ("Users"@, Route::Users, "0"@, true, Some(Action::FetchUsers), Seq::empty())
    } else if i == 10 {
        ("Host Ops"@, Route::Hosts, "h"@, true, Some(Action::FetchHypervisors), Seq::empty())
    } else {
        ("Usage"@, Route::Usage, "u"@, true, None, Seq::empty())
    }
}

/// How many standard screens there are.
pub open spec fn standard_count() -> int {
    12
}

/// Whether `e` is standard screen `i`, its state one that `make` gives for
/// the screen's route.
pub open spec fn is_standard_entry<C, F: Fn(Route) -> C>(i: int, e: ModuleEntry<C>, make: F) -> bool {
    let s = standard_screen(i);
    &&& e.sidebar.label@ == s.0
    &&& e.sidebar.route == s.1
    &&& e.sidebar.shortcut@ == s.2
    &&& e.sidebar.admin_only == s.3
    &&& e.initial_action == s.4
    &&& e.related_routes@ == s.5
    &&& e.display_name@ == s.0
    &&& call_ensures(make, (s.1,), e.component)
}

/// The routes no screen serves yet, with their labels.
pub open spec fn standard_extras() -> Seq<(Route, Seq<char>)> {
    seq![(Route::Migrations, "Migrations"@), (Route::Aggregates, "Aggregates"@), (Route::ComputeServices, "Compute Services"@), (Route::Hypervisors, "Hypervisors"@), (Route::Agents, "Agents"@)]
}

/// `entries`, from `base` on, are the standard screens in order.
pub open spec fn standard_entries_at<C, F: Fn(Route) -> C>(entries: Seq<ModuleEntry<C>>, base: int, make: F) -> bool {
    &&& is_standard_entry(0, entries[base + 0], make)
    &&& is_standard_entry(1, entries[base + 1], make)
    &&& is_standard_entry(2, entries[base + 2], make)
    &&& is_standard_entry(3, entries[base + 3], make)
    &&& is_standard_entry(4, entries[base + 4], make)
    &&& is_standard_entry(5, entries[base + 5], make)
    &&& is_standard_entry(6, entries[base + 6], make)
    &&& is_standard_entry(7, entries[base + 7], make)
    &&& is_standard_entry(8, entries[base + 8], make)
    &&& is_standard_entry(9, entries[base + 9], make)
    &&& is_standard_entry(10, entries[base + 10], make)
    &&& is_standard_entry(11, entries[base + 11], make)
}

/// Register the standard screens, each with the state `make` gives for
/// its route, and label the routes no screen serves yet.
pub fn register_all_modules<C, F: Fn(Route) -> C>(registry: &mut ModuleRegistry<C>, make: F)
    requires
        forall|r: Route| call_requires(make, (r,)),
    ensures
        final(registry).entries_spec().len() == old(registry).entries_spec().len() + standard_count(),
        final(registry).entries_spec().take(old(registry).entries_spec().len() as int) == old(registry).entries_spec(),
        standard_entries_at(final(registry).entries_spec(), old(registry).entries_spec().len() as int, make),
        final(registry).extras_spec().len() == old(registry).extras_spec().len() + standard_extras().len(),
        final(registry).extras_spec().take(old(registry).extras_spec().len() as int) == old(registry).extras_spec(),
        forall|i: int| 0 <= i < standard_extras().len() ==> {
            let x = #[trigger] final(registry).extras_spec()[old(registry).extras_spec().len() + i];
            x.0 == standard_extras()[i].0 && x.1@ == standard_extras()[i].1
        },
{
    let ghost e0 = registry.entries_spec();
    let ghost x0 = registry.extras_spec();
    let e = entry_for(&make, "Servers", Route::Servers, "1", false, Some(Action::FetchServers), &[Route::ServerDetail, Route::ServerCreate]);
    proof {
        assert(e.related_routes@ =~= standard_screen(0).5);
        assert(is_standard_entry(0, e, make));
    }
    registry.register(e);
    let e = entry_for(&make, "Flavors", Route::Flavors, "2", false, Some(Action::FetchFlavors), &[]);
    proof {
        assert(e.related_routes@ =~= standard_screen(1).5);
        assert(is_standard_entry(1, e, make));
    }
    registry.register(e);
    let e = entry_for(&make, "Networks", Route::Networks, "3", false, Some(Action::FetchNetworks), &[Route::NetworkDetail]);
    proof {
        assert(e.related_routes@ =~= standard_screen(2).5);
        assert(is_standard_entry(2, e, make));
    }
    registry.register(e);
    let e = entry_for(&make, "Security Groups", Route::SecurityGroups, "4", false, Some(Action::FetchSecurityGroups), &[Route::SecurityGroupDetail]);
    proof {
        assert(e.related_routes@ =~= standard_screen(3).5);
        assert(is_standard_entry(3, e, make));
    }
    registry.register(e);
    let e = entry_for(&make, "Floating IPs", Route::FloatingIps, "5", false, Some(Action::FetchFloatingIps), &[]);
    proof {
        assert(e.related_routes@ =~= standard_screen(4).5);
        assert(is_standard_entry(4, e, make));
    }
    registry.register(e);
    let e = entry_for(&make, "Volumes", Route::Volumes, "6", false, Some(Action::FetchVolumes), &[Route::VolumeDetail, Route::VolumeCreate]);
    proof {
        assert(e.related_routes@ =~= standard_screen(5).5);
        assert(is_standard_entry(5, e, make));
    }
    registry.register(e);
    let e = entry_for(&make, "Snapshots", Route::Snapshots, "7", false, Some(Action::FetchSnapshots), &[]);
    proof {
        assert(e.related_routes@ =~= standard_screen(6).5);
        assert(is_standard_entry(6, e, make));
    }
    registry.register(e);
    let e = entry_for(&make, "Images", Route::Images, "8", false, Some(Action::FetchImages), &[Route::ImageDetail]);
    proof {
        assert(e.related_routes@ =~= standard_screen(7).5);
        assert(is_standard_entry(7, e, make));
    }
    registry.register(e);
    let e = entry_for(&make, "Projects", Route::Projects, "9", true, Some(Action::FetchProjects), &[]);
    proof {
        assert(e.related_routes@ =~= standard_screen(8).5);
        assert(is_standard_entry(8, e, make));
    }
    registry.register(e);
    let e = entry_for(&make, "Users", Route::Users, "0", true, Some(Action::FetchUsers), &[]);
    proof {
        assert(e.related_routes@ =~= standard_screen(9).5);
        assert(is_standard_entry(9, e, make));
    }
    registry.register(e);
    let e = entry_for(&make, "Host Ops", Route::Hosts, "h", true, Some(Action::FetchHypervisors), &[]);
    proof {
        assert(e.related_routes@ =~= standard_screen(10).5);
        assert(is_standard_entry(10, e, make));
    }
    registry.register(e);
    let e = entry_for(&make, "Usage", Route::Usage, "u", true, None, &[]);
    proof {
        assert(e.related_routes@ =~= standard_screen(11).5);
        assert(is_standard_entry(11, e, make));
    }
    registry.register(e);
    registry.add_route_label(Route::Migrations, "Migrations");
    registry.add_route_label(Route::Aggregates, "Aggregates");
    registry.add_route_label(Route::ComputeServices, "Compute Services");
    registry.add_route_label(Route::Hypervisors, "Hypervisors");
    registry.add_route_label(Route::Agents, "Agents");
    proof {
        let es = registry.entries_spec();
        let b = e0.len() as int;
        assert(es.take(b) =~= e0);
        assert(registry.extras_spec().take(x0.len() as int) =~= x0);
    }
}

/// A screen entry whose state `make` gives for `route`.
fn entry_for<C, F: Fn(Route) -> C>(
    make: &F,
    label: &'static str,
    route: Route,
    shortcut: &'static str,
    admin_only: bool,
    initial_action: Option<Action>,
    related_routes: &'static [Route],
) -> (e: ModuleEntry<C>)
    requires
        call_requires(*make, (route,)),
    ensures
        e.sidebar.label@ == label@,
        e.sidebar.route == route,
        e.sidebar.shortcut@ == shortcut@,
        e.sidebar.admin_only == admin_only,
        e.initial_action == initial_action,
        e.related_routes == related_routes,
        e.display_name == label,
        call_ensures(*make, (route,), e.component),
{
    let component = make(route);
    ModuleEntry {
        sidebar: SidebarItem {
            label: String::from_str(label),
            route,
            shortcut: String::from_str(shortcut),
            admin_only,
        },
        component,
        initial_action,
        related_routes,
        display_name: label,
    }
}

/// The standard screens can be assembled: no route is served by two of
/// them and no related route is labelled twice.
pub proof fn lemma_standard_entries_ok<C, F: Fn(Route) -> C>(entries: Seq<ModuleEntry<C>>, make: F)
    requires
        entries.len() == standard_count(),
        standard_entries_at(entries, 0, make),
    ensures
        entries_ok(entries),
{
    let routes = entries.map_values(|e: ModuleEntry<C>| e.sidebar.route);
    assert(routes =~= seq![
        Route::Servers, Route::Flavors, Route::Networks, Route::SecurityGroups, Route::FloatingIps,
        Route::Volumes, Route::Snapshots, Route::Images, Route::Projects, Route::Users, Route::Hosts,
        Route::Usage,
    ]);
    assert forall|k: int, j: int|
        0 <= k < entries.len() && 0 <= j < entries[k].related_routes@.len() implies !(labelled_routes(
            entries.take(k),
        ) + seq![entries[k].sidebar.route] + entries[k].related_routes@.take(j)).contains(
            #[trigger] entries[k].related_routes@[j],
        ) by {
        lemma_labelled_prefix(entries, make, k);
        reveal_with_fuel(labelled_upto, 13);
        let r = entries[k].related_routes@;
        let before = labelled_routes(entries.take(k)) + seq![entries[k].sidebar.route] + r.take(j);
        if k == 0 {
            assert(before =~= seq![Route::Servers] + r.take(j));
        } else if k == 2 {
            assert(before =~= seq![Route::Servers, Route::ServerDetail, Route::ServerCreate, Route::Flavors, Route::Networks]);
        } else if k == 3 {
            assert(before =~= seq![Route::Servers, Route::ServerDetail, Route::ServerCreate, Route::Flavors, Route::Networks, Route::NetworkDetail, Route::SecurityGroups]);
        } else if k == 5 {
            assert(before =~= seq![Route::Servers, Route::ServerDetail, Route::ServerCreate, Route::Flavors, Route::Networks, Route::NetworkDetail, Route::SecurityGroups, Route::SecurityGroupDetail, Route::FloatingIps, Route::Volumes] + r.take(j));
        } else if k == 7 {
            assert(before =~= seq![Route::Servers, Route::ServerDetail, Route::ServerCreate, Route::Flavors, Route::Networks, Route::NetworkDetail, Route::SecurityGroups, Route::SecurityGroupDetail, Route::FloatingIps, Route::Volumes, Route::VolumeDetail, Route::VolumeCreate, Route::Snapshots, Route::Images]);
        } else {
            assert(r.len() == 0);
        }
    }
}

/// The routes labelled by the first `k` standard screens.
pub open spec fn labelled_upto(k: int) -> Seq<Route>
    decreases k,
{
    if k <= 0 {
        Seq::empty()
    } else {
        labelled_upto(k - 1) + seq![standard_screen(k - 1).1] + standard_screen(k - 1).5
    }
}

/// The routes labelled by the first `k` standard screens, for each `k`.
proof fn lemma_labelled_prefix<C, F: Fn(Route) -> C>(entries: Seq<ModuleEntry<C>>, make: F, k: int)
    requires
        entries.len() == 12,
        standard_entries_at(entries, 0, make),
        0 <= k < 12,
    ensures
        labelled_routes(entries.take(k)) == labelled_upto(k),
    decreases k,
{
    if k > 0 {
        lemma_labelled_prefix(entries, make, k - 1);
        assert(entries.take(k).drop_last() =~= entries.take(k - 1));
        assert(entries.take(k).last() == entries[k - 1]);
    } else {
        assert(entries.take(0) =~= Seq::<ModuleEntry<C>>::empty());
    }
}

/// Whether `route` is among `routes`.
fn route_in(routes: &Vec<Route>, route: Route) -> (r: bool)
    ensures
        r == routes@.contains(route),
{
    let mut i: usize = 0;
    while i < routes.len()
        invariant
            i <= routes@.len(),
            forall|j: int| 0 <= j < i ==> routes@[j] != route,
        decreases routes@.len() - i,
    {
        if routes[i] == route {
            return true;
        }
        i = i + 1;
    }
    false
}

/// Whether some pair of `pairs` labels `route`.
fn self_label_known(pairs: &Vec<(Route, &'static str)>, route: Route) -> (r: bool)
    ensures
        r == label_lookup(pairs@, route) is Some,
{
    let mut i: usize = pairs.len();
    proof {
        assert(pairs@.take(i as int) =~= pairs@);
    }
    while i > 0
        invariant
            i <= pairs@.len(),
            label_lookup(pairs@, route) == label_lookup(pairs@.take(i as int), route),
        decreases i,
    {
        proof {
            assert(pairs@.take(i as int).drop_last() =~= pairs@.take(i - 1));
        }
        if pairs[i - 1].0 == route {
            return true;
        }
        i = i - 1;
    }
    proof {
        assert(pairs@.take(0) =~= Seq::<(Route, &'static str)>::empty());
    }
    false
}

} // verus!
