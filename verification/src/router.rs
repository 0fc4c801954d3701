//! Screen navigation with a bounded back-history.
use std::collections::VecDeque;
use vstd::prelude::*;
use crate::models::common::Route;

verus! {

/// How many earlier screens the back-history keeps.
pub const MAX_HISTORY: usize = 20;

/// The current screen and the screens visited before it (oldest first).
#[derive(Debug)]
pub struct Router {
    current: Route,
    history: VecDeque<Route>,
}

/// The history after leaving `from`: `from` is appended, and the oldest
/// entry is dropped when that makes the history longer than the bound.
pub open spec fn pushed_history(history: Seq<Route>, from: Route) -> Seq<Route> {
    let h = history.push(from);
    if h.len() > MAX_HISTORY { h.subrange(1, h.len() as int) } else { h }
}

impl Router {
    /// The current route.
    pub closed spec fn current_spec(&self) -> Route {
        self.current
    }

    /// The back-history, oldest first.
    pub closed spec fn history_spec(&self) -> Seq<Route> {
        self.history@
    }

    /// The history never holds more than `MAX_HISTORY` routes.
    pub open spec fn inv(&self) -> bool {
        self.history_spec().len() <= MAX_HISTORY
    }

    /// A router on `initial` with an empty history.
    pub fn new(initial: Route) -> (r: Self)
        ensures
            r.current_spec() == initial,
            r.history_spec() == Seq::<Route>::empty(),
            r.inv(),
    {
        Router { current: initial, history: VecDeque::new() }
    }

    /// Go to `to`, remembering the current route; nothing changes when
    /// `to` is already current.
    pub fn navigate(&mut self, to: Route)
        requires
            old(self).inv(),
        ensures
            final(self).inv(),
            old(self).current_spec() == to ==> *final(self) == *old(self),
            old(self).current_spec() != to ==> {
                &&& final(self).current_spec() == to
                &&& final(self).history_spec() == pushed_history(
                    old(self).history_spec(),
                    old(self).current_spec(),
                )
            },
    {
        if self.current == to {
            return;
        }
        self.history.push_back(self.current);
        if self.history.len() > MAX_HISTORY {
            let _ = self.history.pop_front();
        }
        self.current = to;
    }

    /// Return to the most recent earlier route, if there is one.
    pub fn back(&mut self) -> (r: Option<Route>)
        requires
            old(self).inv(),
        ensures
            final(self).inv(),
            old(self).history_spec().len() == 0 ==> {
                &&& r.is_none()
                &&& final(self).current_spec() == old(self).current_spec()
                &&& final(self).history_spec() == old(self).history_spec()
            },
            old(self).history_spec().len() > 0 ==> {
                let h = old(self).history_spec();
                &&& r == Some(h.last())
                &&& final(self).current_spec() == h.last()
                &&& final(self).history_spec() == h.drop_last()
            },
    {
        match self.history.pop_back() {
            Some(prev) => {
                self.current = prev;
                Some(prev)
            },
            None => None,
        }
    }

    /// The current route.
    pub fn current(&self) -> (r: Route)
        ensures
            r == self.current_spec(),
    {
        self.current
    }

    /// The route `back` would return to, if any.
    pub fn previous(&self) -> (r: Option<Route>)
        ensures
            self.history_spec().len() == 0 ==> r.is_none(),
            self.history_spec().len() > 0 ==> r == Some(self.history_spec().last()),
    {
        let n = self.history.len();
        if n == 0 {
            None
        } else {
            Some(self.history[n - 1])
        }
    }

    /// Change the current route without touching the history.
    pub fn replace(&mut self, to: Route)
        requires
            old(self).inv(),
        ensures
            final(self).inv(),
            final(self).current_spec() == to,
            final(self).history_spec() == old(self).history_spec(),
    {
        self.current = to;
    }

    /// Forget the history and go to `to`.
    pub fn reset(&mut self, to: Route)
        ensures
            final(self).inv(),
            final(self).current_spec() == to,
            final(self).history_spec() == Seq::<Route>::empty(),
    {
        self.history.clear();
        self.current = to;
    }

    /// The back-history, oldest first.
    pub fn history(&self) -> (r: &VecDeque<Route>)
        ensures
            r@ == self.history_spec(),
    {
        &self.history
    }
}

/// Going back right after navigating to a different route returns to the
/// route navigated away from.
pub proof fn lemma_back_after_navigate(before: Router, mid: Router, after: Router, r: Option<Route>)
    requires
        before.inv(),
        mid.inv(),
        mid.current_spec() != before.current_spec(),
        mid.history_spec() == pushed_history(before.history_spec(), before.current_spec()),
        after.current_spec() == mid.history_spec().last(),
        r == Some(mid.history_spec().last()),
        after.history_spec() == mid.history_spec().drop_last(),
    ensures
        r == Some(before.current_spec()),
        after.current_spec() == before.current_spec(),
        before.history_spec().len() < MAX_HISTORY ==> after.history_spec() == before.history_spec(),
{
    let h = before.history_spec().push(before.current_spec());
    if h.len() > MAX_HISTORY {
        assert(h.subrange(1, h.len() as int).last() == h.last());
    } else {
        assert(h.drop_last() =~= before.history_spec());
    }
}

} // verus!
