//! Bounded-concurrency evacuation of a batch of servers off a host.
use std::collections::VecDeque;
use vstd::prelude::*;
use crate::action::Action;
use crate::port::types::EvacuateParams;
use crate::text::str_eq;

verus! {

/// Phase of an evacuation batch.
#[derive(Debug, Clone, Copy, PartialEq, Eq, Structural)]
pub enum EvacState {
    Idle,
    Executing,
    Completed,
}

/// The outcome recorded for one server: its id and `Ok` or the error text.
pub type EvacResult = (String, Result<(), String>);

/// View of an outcome.
pub open spec fn outcome_view(r: Result<(), String>) -> Result<(), Seq<char>> {
    match r {
        Ok(()) => Ok(()),
        Err(e) => Err(e@),
    }
}

/// View of a recorded outcome.
pub open spec fn result_view(r: EvacResult) -> (Seq<char>, Result<(), Seq<char>>) {
    (r.0@, outcome_view(r.1))
}

/// Views of recorded outcomes.
pub open spec fn results_view(rs: Seq<EvacResult>) -> Seq<(Seq<char>, Result<(), Seq<char>>)> {
    rs.map_values(|r: EvacResult| result_view(r))
}

/// Views of server ids.
pub open spec fn ids_view(ids: Seq<String>) -> Seq<Seq<char>> {
    ids.map_values(|s: String| s@)
}

/// `s` with `x` added unless it is already there (set insertion).
pub open spec fn insert_id(s: Seq<Seq<char>>, x: Seq<char>) -> Seq<Seq<char>> {
    if s.contains(x) { s } else { s.push(x) }
}

/// The dispatch loop: while fewer than `max` servers are in flight, no
/// cancel was requested and the queue is not empty, the next queued server
/// is taken into flight and dispatched. Yields the queue, the in-flight set
/// and the dispatched ids, in order.
pub open spec fn dispatch(
    queue: Seq<Seq<char>>,
    in_flight: Seq<Seq<char>>,
    max: nat,
    cancel: bool,
) -> (Seq<Seq<char>>, Seq<Seq<char>>, Seq<Seq<char>>)
    decreases queue.len(),
{
    if cancel || in_flight.len() >= max || queue.len() == 0 {
        (queue, in_flight, Seq::empty())
    } else {
        let id = queue[0];
        let rest = dispatch(queue.drop_first(), insert_id(in_flight, id), max, cancel);
        (rest.0, rest.1, seq![id] + rest.2)
    }
}

/// Number of successful outcomes.
pub open spec fn ok_count(rs: Seq<(Seq<char>, Result<(), Seq<char>>)>) -> nat
    decreases rs.len(),
{
    if rs.len() == 0 {
        0
    } else {
        ok_count(rs.drop_last()) + if rs.last().1 is Ok { 1nat } else { 0nat }
    }
}

/// What one `poll_next` does: from `before` to `after`, sending `actions`.
pub open spec fn poll_step(before: EvacTask, after: EvacTask, actions: Seq<Action>) -> bool {
    &&& after.wf()
    &&& after.completed_spec() == before.completed_spec()
    &&& after.cancel_spec() == before.cancel_spec()
    &&& after.max_spec() == before.max_spec()
    &&& after.params_spec() == before.params_spec()
    &&& after.total_spec() <= before.total_spec()
    &&& before.ids_distinct() ==> after.all_ids() == before.all_ids()
    &&& before.state_spec() != EvacState::Executing ==> {
        &&& actions.len() == 0
        &&& after.state_spec() == before.state_spec()
        &&& after.queue_spec() == before.queue_spec()
        &&& after.in_flight_spec() == before.in_flight_spec()
    }
    &&& before.state_spec() == EvacState::Executing ==> {
        let d = dispatch(
            before.queue_spec(),
            before.in_flight_spec(),
            before.max_spec(),
            before.cancel_spec(),
        );
        &&& after.queue_spec() == d.0
        &&& after.in_flight_spec() == d.1
        &&& actions.len() == d.2.len()
        &&& forall|i: int|
            0 <= i < actions.len() ==> (#[trigger] actions[i] matches Action::EvacuateServer {
                id,
                params,
            } && id@ == d.2[i] && params == before.params_spec())
        &&& after.state_spec() == if d.0.len() == 0 && d.1.len() == 0 {
            EvacState::Completed
        } else {
            EvacState::Executing
        }
    }
}

/// What one `on_completed` does: from `before` to `after`, recording
/// `outcome` for server `id`.
pub open spec fn completion_step(
    before: EvacTask,
    id: Seq<char>,
    outcome: Result<(), Seq<char>>,
    after: EvacTask,
) -> bool {
    &&& after.wf()
    &&& after.queue_spec() == before.queue_spec()
    &&& after.cancel_spec() == before.cancel_spec()
    &&& after.max_spec() == before.max_spec()
    &&& after.params_spec() == before.params_spec()
    &&& after.total_spec() == before.total_spec()
    &&& before.ids_distinct() ==> after.ids_distinct()
    &&& !before.in_flight_spec().contains(id) ==> {
        &&& after.state_spec() == before.state_spec()
        &&& after.in_flight_spec() == before.in_flight_spec()
        &&& after.completed_spec() == before.completed_spec()
    }
    &&& before.in_flight_spec().contains(id) ==> {
        &&& exists|i: int|
            0 <= i < before.in_flight_spec().len() && before.in_flight_spec()[i]
                == id && after.in_flight_spec()
                == before.in_flight_spec().remove(i)
        &&& after.completed_spec() == before.completed_spec().push(
            (id, outcome),
        )
        &&& after.state_spec() == if after.queue_spec().len() == 0
            && after.in_flight_spec().len() == 0 {
            EvacState::Completed
        } else {
            before.state_spec()
        }
    }
}

/// What `request_cancel` does: from `a` to `b`, every waiting server is
/// recorded as aborted and nothing more will be dispatched.
pub open spec fn cancel_step(a: EvacTask, b: EvacTask) -> bool {
    &&& b.wf()
    &&& b.cancel_spec()
    &&& b.queue_spec().len() == 0
    &&& b.in_flight_spec() == a.in_flight_spec()
    &&& b.completed_spec() == a.completed_spec() + a.queue_spec().map_values(
        |id: Seq<char>| (id, Err::<(), Seq<char>>("Aborted"@)),
        )
    &&& b.max_spec() == a.max_spec()
    &&& b.params_spec() == a.params_spec()
    &&& b.total_spec() == a.total_spec()
    &&& a.ids_distinct() ==> b.ids_distinct()
    &&& b.state_spec() == if a.in_flight_spec().len() == 0 {
        EvacState::Completed
        } else {
        a.state_spec()
        }
}

/// An evacuation batch: servers waiting, servers in flight (at most
/// `max_concurrent`, no id twice), outcomes recorded so far, and whether
/// the user asked to stop.
pub struct EvacTask {
    state: EvacState,
    queue: VecDeque<String>,
    in_flight: Vec<String>,
    completed: Vec<EvacResult>,
    cancel_requested: bool,
    params: EvacuateParams,
    max_concurrent: usize,
}

impl EvacTask {
    /// Phase.
    pub closed spec fn state_spec(&self) -> EvacState {
        self.state
    }

    /// Servers waiting, in dispatch order.
    pub closed spec fn queue_spec(&self) -> Seq<Seq<char>> {
        ids_view(self.queue@)
    }

    /// Servers dispatched and not yet reported.
    pub closed spec fn in_flight_spec(&self) -> Seq<Seq<char>> {
        ids_view(self.in_flight@)
    }

    /// Outcomes recorded so far, in the order they arrived.
    pub closed spec fn completed_spec(&self) -> Seq<(Seq<char>, Result<(), Seq<char>>)> {
        results_view(self.completed@)
    }

    /// Whether a cancel was requested.
    pub closed spec fn cancel_spec(&self) -> bool {
        self.cancel_requested
    }

    /// How many servers may be in flight at once.
    pub closed spec fn max_spec(&self) -> nat {
        self.max_concurrent as nat
    }

    /// Parameters sent with every evacuation.
    pub closed spec fn params_spec(&self) -> EvacuateParams {
        self.params
    }

    /// Total servers the batch accounts for.
    pub open spec fn total_spec(&self) -> nat {
        self.completed_spec().len() + self.in_flight_spec().len() + self.queue_spec().len()
    }

    /// Every server the batch holds: those with a recorded outcome, then
    /// those in flight, then those waiting.
    pub open spec fn all_ids(&self) -> Seq<Seq<char>> {
        self.completed_spec().map_values(|r: (Seq<char>, Result<(), Seq<char>>)| r.0) + self.in_flight_spec()
            + self.queue_spec()
    }

    /// No server is held twice, whether recorded, in flight or waiting.
    pub open spec fn ids_distinct(&self) -> bool {
        self.all_ids().no_duplicates()
    }

    /// The batch's invariant: at least one server may be in flight, no more
    /// than `max_spec` are, none twice, the counters fit in a `usize`, and a
    /// completed batch has nothing waiting or in flight.
    pub open spec fn wf(&self) -> bool {
        &&& self.max_spec() >= 1
        &&& self.in_flight_spec().len() <= self.max_spec()
        &&& self.in_flight_spec().no_duplicates()
        &&& self.total_spec() <= usize::MAX
        &&& self.state_spec() == EvacState::Completed ==> self.queue_spec().len() == 0
            && self.in_flight_spec().len() == 0
    }

    /// A batch for `server_ids`, idle, with at most `max_concurrent` (at
    /// least one) servers in flight at a time.
    pub fn new(server_ids: Vec<String>, params: EvacuateParams, max_concurrent: usize) -> (r: Self)
        ensures
            r.wf(),
            r.state_spec() == EvacState::Idle,
            r.queue_spec() == ids_view(server_ids@),
            r.in_flight_spec().len() == 0,
            r.completed_spec().len() == 0,
            !r.cancel_spec(),
            r.params_spec() == params,
            r.max_spec() == if max_concurrent == 0 { 1 } else { max_concurrent as nat },
            r.all_ids() == ids_view(server_ids@),
            ids_view(server_ids@).no_duplicates() ==> r.ids_distinct(),
    {
        let mut queue: VecDeque<String> = VecDeque::new();
        let n = server_ids.len();
        let mut i: usize = 0;
        let ids = server_ids;
        let ghost orig = ids@;
        // Move the ids into the queue, preserving their order.
        while i < n
            invariant
                n == orig.len(),
                i <= n,
                ids@ == orig,
                queue@ == orig.subrange(0, i as int),
            decreases n - i,
        {
            let id = ids[i].clone();
            queue.push_back(id);
            proof {
                assert(orig.subrange(0, i + 1) =~= orig.subrange(0, i as int).push(orig[i as int]));
            }
            i = i + 1;
        }
        proof {
            assert(orig.subrange(0, n as int) =~= orig);
        }
        let r = EvacTask {
            state: EvacState::Idle,
            queue,
            in_flight: Vec::new(),
            completed: Vec::new(),
            cancel_requested: false,
            params,
            max_concurrent: if max_concurrent == 0 { 1 } else { max_concurrent },
        };
        proof {
            assert(r.all_ids() =~= ids_view(orig));
        }
        r
    }

    /// Begin executing (dispatching is done by `poll_next`).
    pub fn start(&mut self)
        requires
            old(self).wf(),
        ensures
            final(self).wf(),
            final(self).state_spec() == EvacState::Executing,
            final(self).queue_spec() == old(self).queue_spec(),
            final(self).in_flight_spec() == old(self).in_flight_spec(),
            final(self).completed_spec() == old(self).completed_spec(),
            final(self).cancel_spec() == old(self).cancel_spec(),
            final(self).max_spec() == old(self).max_spec(),
            final(self).params_spec() == old(self).params_spec(),
    {
        self.state = EvacState::Executing;
    }

    /// Whether the batch has not been started.
    pub fn is_idle(&self) -> (r: bool)
        ensures
            r == (self.state_spec() == EvacState::Idle),
    {
        self.state == EvacState::Idle
    }

    /// Whether the batch is running.
    pub fn is_executing(&self) -> (r: bool)
        ensures
            r == (self.state_spec() == EvacState::Executing),
    {
        self.state == EvacState::Executing
    }

    /// Whether the batch has finished.
    pub fn is_completed(&self) -> (r: bool)
        ensures
            r == (self.state_spec() == EvacState::Completed),
    {
        self.state == EvacState::Completed
    }

    /// Number of servers in flight.
    pub fn in_flight_count(&self) -> (r: usize)
        ensures
            r == self.in_flight_spec().len(),
    {
        self.in_flight.len()
    }

    /// Dispatch queued servers while the in-flight bound allows and no
    /// cancel was requested; finish the batch once nothing is waiting or in
    /// flight. Does nothing unless the batch is executing.
    pub fn poll_next(&mut self) -> (actions: Vec<Action>)
        requires
            old(self).wf(),
        ensures
            poll_step(*old(self), *final(self), actions@),
    {
        let mut actions: Vec<Action> = Vec::new();
        if self.state != EvacState::Executing {
            return actions;
        }
        let ghost q0 = self.queue_spec();
        let ghost f0 = self.in_flight_spec();
        let ghost d = dispatch(q0, f0, self.max_spec(), self.cancel_spec());
        proof {
            lemma_dispatch_props(q0, f0, self.max_spec(), self.cancel_spec());
        }
        loop
            invariant
                self.wf(),
                self.state_spec() == old(self).state_spec(),
                self.completed_spec() == old(self).completed_spec(),
                self.cancel_spec() == old(self).cancel_spec(),
                self.max_spec() == old(self).max_spec(),
                self.params_spec() == old(self).params_spec(),
                self.total_spec() <= old(self).total_spec(),
                old(self).ids_distinct() ==> self.all_ids() == old(self).all_ids(),
                d == dispatch(q0, f0, self.max_spec(), self.cancel_spec()),
                ({
                    let rest = dispatch(self.queue_spec(), self.in_flight_spec(), self.max_spec(), self.cancel_spec());
                    &&& rest.0 == d.0
                    &&& rest.1 == d.1
                    &&& d.2 == ids_of_actions(actions@) + rest.2
                }),
                forall|i: int|
                    0 <= i < actions@.len() ==> (#[trigger] actions@[i] matches Action::EvacuateServer {
                        params,
                        ..
                    } && params == old(self).params_spec()),
            ensures
                self.cancel_spec() || self.in_flight_spec().len() >= self.max_spec()
                    || self.queue_spec().len() == 0,
            decreases self.queue_spec().len(),
        {
            if !(self.in_flight.len() < self.max_concurrent && !self.cancel_requested) {
                break;
            }
            let ghost q = self.queue_spec();
            let ghost f = self.in_flight_spec();
            let ghost acts = actions@;
            match self.queue.pop_front() {
                Some(id) => {
                    proof {
                        assert(ids_view(self.queue@) =~= q.drop_first());
                        assert(q[0] == id@);
                        lemma_dispatch_props(q.drop_first(), insert_id(f, id@), self.max_spec(), self.cancel_spec());
                        let rest = dispatch(q.drop_first(), insert_id(f, id@), self.max_spec(), self.cancel_spec());
                        assert(dispatch(q, f, self.max_spec(), self.cancel_spec()) == (rest.0, rest.1, seq![id@] + rest.2));
                    }
                    let found = find_id(&self.in_flight, id.as_str());
                    if found.is_none() {
                        self.in_flight.push(id.clone());
                        proof {
                            assert(ids_view(self.in_flight@) =~= f.push(id@));
                            let cids = self.completed_spec().map_values(|r: (Seq<char>, Result<(), Seq<char>>)| r.0);
                            assert(cids + f.push(id@) + q.drop_first() =~= cids + f + q);
                            assert(!f.contains(id@));
                            assert(ids_view(self.in_flight@) == insert_id(f, id@));
                        }
                    } else {
                        proof {
                            let k = found.unwrap() as int;
                            assert(f[k] == id@);
                            assert(f.contains(id@));
                            if old(self).ids_distinct() {
                                let cids = self.completed_spec().map_values(|r: (Seq<char>, Result<(), Seq<char>>)| r.0);
                                let all = cids + f + q;
                                assert(all[cids.len() + k] == all[(cids.len() + f.len()) as int]);
                                assert(false);
                            }
                            assert(ids_view(self.in_flight@) == insert_id(f, id@));
                        }
                    }
                    let p = self.params.clone();
                    actions.push(Action::EvacuateServer { id, params: p });
                    proof {
                        assert(ids_of_actions(actions@) =~= ids_of_actions(acts).push(id@));
                        assert(ids_of_actions(actions@) + dispatch(q.drop_first(), insert_id(f, id@), self.max_spec(), self.cancel_spec()).2
                            =~= ids_of_actions(acts) + (seq![id@] + dispatch(q.drop_first(), insert_id(f, id@), self.max_spec(), self.cancel_spec()).2));
                    }
                },
                None => {
                    break;
                },
            }
        }
        proof {
            assert(dispatch(self.queue_spec(), self.in_flight_spec(), self.max_spec(), self.cancel_spec()).2 =~= Seq::<Seq<char>>::empty());
            assert(d.2 =~= ids_of_actions(actions@));
        }
        if self.queue.len() == 0 && self.in_flight.len() == 0 {
            self.state = EvacState::Completed;
        }
        actions
    }

    /// Record the outcome of an in-flight server; an id that is not in
    /// flight is ignored. The batch completes once nothing is waiting or in
    /// flight.
    pub fn on_completed(&mut self, server_id: &str, result: Result<(), String>)
        requires
            old(self).wf(),
        ensures
            completion_step(*old(self), server_id@, outcome_view(result), *final(self)),
    {
        let found = find_id(&self.in_flight, server_id);
        match found {
            None => {
                return;
            },
            Some(i) => {
                let ghost f = self.in_flight_spec();
                let _ = self.in_flight.remove(i);
                proof {
                    assert(ids_view(self.in_flight@) =~= f.remove(i as int));
                    assert(f[i as int] == server_id@);
                    assert(f.remove(i as int).no_duplicates()) by {
                        let g = f.remove(i as int);
                        assert forall|a: int, b: int| 0 <= a < g.len() && 0 <= b < g.len() && a != b implies g[a] != g[b] by {
                            let a2 = if a < i { a } else { a + 1 };
                            let b2 = if b < i { b } else { b + 1 };
                            assert(g[a] == f[a2]);
                            assert(g[b] == f[b2]);
                        }
                    }
                }
                let id = String::from_str(server_id);
                let ghost entry = (id, result);
                self.completed.push((id, result));
                proof {
                    assert(results_view(self.completed@) =~= results_view(old(self).completed@).push(result_view(entry)));
                    let cids0 = old(self).completed_spec().map_values(|r: (Seq<char>, Result<(), Seq<char>>)| r.0);
                    assert(self.completed_spec().map_values(|r: (Seq<char>, Result<(), Seq<char>>)| r.0) =~= cids0.push(f[i as int]));
                    if old(self).ids_distinct() {
                        lemma_distinct_after_completion(cids0, f, self.queue_spec(), i as int);
                    }
                }
                if self.queue.len() == 0 && self.in_flight.len() == 0 {
                    self.state = EvacState::Completed;
                }
            },
        }
    }

    /// Stop dispatching: every waiting server is recorded as aborted, and
    /// the batch completes at once if nothing is in flight.
    pub fn request_cancel(&mut self)
        requires
            old(self).wf(),
        ensures
            cancel_step(*old(self), *final(self)),
    {
        self.cancel_requested = true;
        let ghost q0 = self.queue_spec();
        let ghost c0 = self.completed_spec();
        let ghost aborted = q0.map_values(|id: Seq<char>| (id, Err::<(), Seq<char>>("Aborted"@)));
        let n = self.queue.len();
        let mut k: usize = 0;
        while k < n
            invariant
                n == q0.len(),
                k <= n,
                self.queue_spec() == q0.subrange(k as int, n as int),
                self.completed_spec() == c0 + aborted.subrange(0, k as int),
                self.in_flight_spec() == old(self).in_flight_spec(),
                self.cancel_spec(),
                self.max_spec() == old(self).max_spec(),
                self.params_spec() == old(self).params_spec(),
                self.state_spec() == old(self).state_spec(),
                c0.len() + old(self).in_flight_spec().len() + q0.len() <= usize::MAX,
                aborted == q0.map_values(|id: Seq<char>| (id, Err::<(), Seq<char>>("Aborted"@))),
            decreases n - k,
        {
            let ghost q = self.queue_spec();
            let ghost c = self.completed_spec();
            let ghost qraw = self.queue@;
            proof {
                assert(q.len() == qraw.len());
                assert(q.len() == n - k);
            }
            match self.queue.pop_front() {
                Some(id) => {
                    let msg = String::from_str("Aborted");
                    let ghost entry = (id, Err::<(), String>(msg));
                    self.completed.push((id, Err(msg)));
                    proof {
                        assert(ids_view(self.queue@) =~= q.drop_first());
                        assert(q.drop_first() =~= q0.subrange(k + 1, n as int));
                        assert(results_view(self.completed@) =~= c.push(result_view(entry)));
                        assert(aborted.subrange(0, k + 1) =~= aborted.subrange(0, k as int).push(aborted[k as int]));
                        assert(qraw[0] == id);
                        assert(q[0] == qraw[0]@);
                        assert(q0.subrange(k as int, n as int)[0] == q0[k as int]);
                        assert(q0[k as int] == id@);
                    }
                },
                None => {
                    proof {
                        assert(false);
                    }
                },
            }
            k = k + 1;
        }
        proof {
            assert(aborted.subrange(0, n as int) =~= aborted);
            assert(q0.subrange(n as int, n as int) =~= Seq::<Seq<char>>::empty());
            let cids0 = c0.map_values(|r: (Seq<char>, Result<(), Seq<char>>)| r.0);
            let f0 = old(self).in_flight_spec();
            assert(self.completed_spec().map_values(|r: (Seq<char>, Result<(), Seq<char>>)| r.0) =~= cids0 + q0);
            assert(self.all_ids() =~= cids0 + q0 + f0);
            assert(old(self).all_ids() =~= cids0 + f0 + q0);
            if old(self).ids_distinct() {
                lemma_distinct_swap(cids0, f0, q0);
            }
        }
        if self.in_flight.len() == 0 {
            self.state = EvacState::Completed;
        }
    }

    /// Outcomes recorded so far, and the total number of servers.
    pub fn progress(&self) -> (r: (usize, usize))
        requires
            self.wf(),
        ensures
            r.0 == self.completed_spec().len(),
            r.1 == self.total_spec(),
    {
        (self.completed.len(), self.completed.len() + self.in_flight.len() + self.queue.len())
    }

    /// The recorded outcomes, in arrival order.
    pub fn results(&self) -> (r: &[EvacResult])
        ensures
            results_view(r@) == self.completed_spec(),
    {
        self.completed.as_slice()
    }

    /// How many servers were evacuated successfully.
    pub fn succeeded_count(&self) -> (r: usize)
        ensures
            r == ok_count(self.completed_spec()),
    {
        let n = self.completed.len();
        let mut i: usize = 0;
        let mut count: usize = 0;
        while i < n
            invariant
                n == self.completed@.len(),
                i <= n,
                count == ok_count(results_view(self.completed@.subrange(0, i as int))),
                count <= i,
            decreases n - i,
        {
            proof {
                let s = results_view(self.completed@.subrange(0, i + 1));
                assert(s.drop_last() =~= results_view(self.completed@.subrange(0, i as int)));
            }
            if self.completed[i].1.is_ok() {
                count = count + 1;
            }
            i = i + 1;
        }
        proof {
            assert(self.completed@.subrange(0, n as int) =~= self.completed@);
        }
        count
    }

    /// The failed outcomes (errors and aborts), in arrival order.
    pub fn failed_results(&self) -> (r: Vec<&EvacResult>)
        ensures
            r@.map_values(|e: &EvacResult| result_view(*e)) == failures(self.completed_spec()),
    {
        let n = self.completed.len();
        let mut i: usize = 0;
        let mut out: Vec<&EvacResult> = Vec::new();
        while i < n
            invariant
                n == self.completed@.len(),
                i <= n,
                out@.map_values(|e: &EvacResult| result_view(*e)) == failures(
                    results_view(self.completed@.subrange(0, i as int)),
                ),
            decreases n - i,
        {
            let ghost before = out@;
            proof {
                let s = results_view(self.completed@.subrange(0, i + 1));
                assert(s.drop_last() =~= results_view(self.completed@.subrange(0, i as int)));
            }
            let e = &self.completed[i];
            if e.1.is_err() {
                out.push(e);
                proof {
                    assert(out@.map_values(|e: &EvacResult| result_view(*e)) =~= before.map_values(
                        |e: &EvacResult| result_view(*e),
                    ).push(result_view(*e)));
                }
            }
            i = i + 1;
        }
        proof {
            assert(self.completed@.subrange(0, n as int) =~= self.completed@);
        }
        out
    }
}

/// The failed outcomes, in order.
pub open spec fn failures(rs: Seq<(Seq<char>, Result<(), Seq<char>>)>) -> Seq<(Seq<char>, Result<(), Seq<char>>)>
    decreases rs.len(),
{
    if rs.len() == 0 {
        Seq::empty()
    } else if rs.last().1 is Err {
        failures(rs.drop_last()).push(rs.last())
    } else {
        failures(rs.drop_last())
    }
}

/// The server ids of a list of evacuation requests.
pub open spec fn ids_of_actions(actions: Seq<Action>) -> Seq<Seq<char>> {
    actions.map_values(|a: Action| match a {
        Action::EvacuateServer { id, .. } => id@,
        _ => Seq::empty(),
    })
}

/// Index of `id` among `ids`, if it is there.
fn find_id(ids: &Vec<String>, id: &str) -> (r: Option<usize>)
    ensures
        match r {
            Some(i) => i < ids@.len() && ids@[i as int]@ == id@,
            None => !ids_view(ids@).contains(id@),
        },
{
    let n = ids.len();
    let mut i: usize = 0;
    while i < n
        invariant
            n == ids@.len(),
            i <= n,
            forall|j: int| 0 <= j < i ==> (#[trigger] ids@[j])@ != id@,
        decreases n - i,
    {
        if str_eq(ids[i].as_str(), id) {
            return Some(i);
        }
        i = i + 1;
    }
    proof {
        if ids_view(ids@).contains(id@) {
            let k = choose|k: int| 0 <= k < ids_view(ids@).len() && ids_view(ids@)[k] == id@;
            assert(ids@[k]@ == id@);
        }
    }
    None
}

/// A sequence whose every position reads a distinct position of a
/// duplicate-free sequence is duplicate-free.
proof fn lemma_no_dup_reindex(s: Seq<Seq<char>>, t: Seq<Seq<char>>, m: spec_fn(int) -> int)
    requires
        s.no_duplicates(),
        forall|a: int| 0 <= a < t.len() ==> 0 <= #[trigger] m(a) < s.len() && t[a] == s[m(a)],
        forall|a: int, b: int| 0 <= a < t.len() && 0 <= b < t.len() && a != b ==> #[trigger] m(a) != #[trigger] m(b),
    ensures
        t.no_duplicates(),
{
    assert forall|a: int, b: int| 0 <= a < t.len() && 0 <= b < t.len() && a != b implies t[a] != t[b] by {
        assert(m(a) != m(b));
        assert(t[a] == s[m(a)] && t[b] == s[m(b)]);
    }
}

/// Ids recorded, the one moved out of flight at `i`, the rest of the
/// flight and the queue stay duplicate-free after the move.
proof fn lemma_distinct_after_completion(c: Seq<Seq<char>>, f: Seq<Seq<char>>, q: Seq<Seq<char>>, i: int)
    requires
        (c + f + q).no_duplicates(),
        0 <= i < f.len(),
    ensures
        (c.push(f[i]) + f.remove(i) + q).no_duplicates(),
{
    let s = c + f + q;
    let t = c.push(f[i]) + f.remove(i) + q;
    let cl = c.len() as int;
    let m = |a: int|
        if a < cl {
            a
        } else if a == cl {
            cl + i
        } else if a <= cl + i {
            a - 1
        } else {
            a
        };
    assert forall|a: int| 0 <= a < t.len() implies 0 <= #[trigger] m(a) < s.len() && t[a] == s[m(a)] by {
        if a < cl {
        } else if a == cl {
        } else if a < cl + f.len() {
            assert(t[a] == f.remove(i)[a - cl - 1]);
        } else {
        }
    }
    lemma_no_dup_reindex(s, t, m);
}

/// Swapping the last two blocks keeps a concatenation duplicate-free.
proof fn lemma_distinct_swap(a: Seq<Seq<char>>, b: Seq<Seq<char>>, c: Seq<Seq<char>>)
    requires
        (a + b + c).no_duplicates(),
    ensures
        (a + c + b).no_duplicates(),
{
    let s = a + b + c;
    let t = a + c + b;
    let al = a.len() as int;
    let bl = b.len() as int;
    let cl = c.len() as int;
    let m = |x: int|
        if x < al {
            x
        } else if x < al + cl {
            x + bl
        } else {
            x - cl
        };
    lemma_no_dup_reindex(s, t, m);
}

/// While no server is held twice, the batch accounts for exactly the
/// servers it holds, every recorded outcome names a different server, and
/// there are never more outcomes than servers. Since `new` holds exactly
/// the given ids and `start`, `poll_next`, `on_completed` and
/// `request_cancel` each keep the held ids distinct (and `poll_next`,
/// then, keeps them unchanged), `progress` stays (outcomes, number of
/// given ids) over any sequence of calls.
pub proof fn lemma_outcomes_distinct(t: EvacTask)
    requires
        t.ids_distinct(),
    ensures
        t.total_spec() == t.all_ids().len(),
        t.completed_spec().map_values(|r: (Seq<char>, Result<(), Seq<char>>)| r.0).no_duplicates(),
        t.completed_spec().len() <= t.total_spec(),
{
    let cids = t.completed_spec().map_values(|r: (Seq<char>, Result<(), Seq<char>>)| r.0);
    let all = t.all_ids();
    assert forall|a: int, b: int| 0 <= a < cids.len() && 0 <= b < cids.len() && a != b implies cids[a] != cids[b] by {
        assert(all[a] == cids[a]);
        assert(all[b] == cids[b]);
    }
}

/// With duplicate-free ids none of which is already in flight, the
/// dispatch loop sends the first ids of the queue, in queue order, as many
/// as the free places allow (all of them when they fit).
pub proof fn lemma_dispatch_prefix(q: Seq<Seq<char>>, f: Seq<Seq<char>>, max: nat)
    requires
        q.no_duplicates(),
        forall|i: int| 0 <= i < q.len() ==> !f.contains(#[trigger] q[i]),
        f.len() <= max,
    ensures
        ({
            let n = if q.len() <= max - f.len() { q.len() } else { (max - f.len()) as nat };
            dispatch(q, f, max, false).2 == q.take(n as int)
        }),
    decreases q.len(),
{
    if f.len() >= max || q.len() == 0 {
        assert(q.take(0) =~= Seq::<Seq<char>>::empty());
    } else {
        let id = q[0];
        let rest = q.drop_first();
        assert forall|i: int| 0 <= i < rest.len() implies !insert_id(f, id).contains(#[trigger] rest[i]) by {
            assert(rest[i] == q[i + 1]);
            if insert_id(f, id).contains(rest[i]) {
                let j = choose|j: int| 0 <= j < insert_id(f, id).len() && insert_id(f, id)[j] == rest[i];
                if j < f.len() {
                    assert(f[j] == rest[i]);
                    assert(f.contains(q[i + 1]));
                } else {
                    assert(q[0] == q[i + 1]);
                }
            }
        }
        assert(!f.contains(q[0]));
        lemma_dispatch_prefix(rest, insert_id(f, id), max);
        let n = if q.len() <= max - f.len() { q.len() } else { (max - f.len()) as nat };
        assert(seq![id] + rest.take(n - 1) =~= q.take(n as int));
    }
}

/// What the dispatch loop keeps: the in-flight set stays duplicate-free
/// and within the bound, the queue only shrinks, and what leaves the queue
/// is either dispatched into the in-flight set or already there.
pub proof fn lemma_dispatch_props(q: Seq<Seq<char>>, f: Seq<Seq<char>>, max: nat, cancel: bool)
    requires
        f.no_duplicates(),
        f.len() <= max,
    ensures
        ({
            let d = dispatch(q, f, max, cancel);
            &&& d.1.no_duplicates()
            &&& d.1.len() <= max
            &&& d.0.len() + d.1.len() <= q.len() + f.len()
            &&& d.0.len() <= q.len()
            &&& d.2.len() == q.len() - d.0.len()
            &&& cancel ==> d.2.len() == 0 && d.0 == q && d.1 == f
        }),
    decreases q.len(),
{
    if cancel || f.len() >= max || q.len() == 0 {
    } else {
        let id = q[0];
        let f2 = insert_id(f, id);
        if !f.contains(id) {
            assert(f2.no_duplicates()) by {
                assert forall|i: int, j: int| 0 <= i < f2.len() && 0 <= j < f2.len() && i != j implies f2[i] != f2[j] by {
                    if i == f.len() as int {
                        assert(f2[j] == f[j]);
                    } else if j == f.len() as int {
                        assert(f2[i] == f[i]);
                    }
                }
            }
        }
        lemma_dispatch_props(q.drop_first(), f2, max, cancel);
    }
}

} // verus!
