//! Host operations: hosts, their instances, batch evacuation and its log.
pub mod evac_task;
pub mod host_list;
pub mod instance_list;
pub mod log_panel;

use vstd::prelude::*;
use crate::action::Action;
use crate::event::AppEvent;
use crate::models::nova::{servers_eqv, Hypervisor, Server};
use crate::module::{copy_list, copy_list_by, LayoutHint};
use crate::port::types::EvacuateParams;
use crate::text::{cat, cat3, cat4, dec, opt_eq, opt_view, u64_text};
use crate::ui::key::Key;
use self::evac_task::{
    lemma_dispatch_prefix, cancel_step, completion_step, dispatch, failures, ids_view, ok_count, outcome_view, poll_step, EvacState, EvacTask,
};
use self::host_list::HostList;
use self::instance_list::{
    all_checked, checked_visible, evac_lookup, filter_cycled, moved_down, moved_up, none_checked, toggled,
    EvacInlineStatus, InstanceList,
};
use self::log_panel::{LogEntry, LogLevel, LogPanel, MAX_ENTRIES};

verus! {

/// Which panel has the keyboard.
#[derive(Debug, Clone, Copy, PartialEq, Eq, Structural)]
pub enum HostFocus {
    HostList,
    InstanceList,
}

/// Whether `s` reads `HH:MM:SS`: three two-digit fields separated by colons.
pub open spec fn clock_text(s: Seq<char>) -> bool {
    &&& s.len() == 8
    &&& s[2] == ':'
    &&& s[5] == ':'
    &&& forall|i: int| 0 <= i < 8 && i != 2 && i != 5 ==> '0' <= #[trigger] s[i] && s[i] <= '9'
}

/// The local wall-clock time, from `chrono::Local::now()` formatted with
/// `%H:%M:%S`. Which time it is depends on the clock; the contract claims
/// only the shape that chrono documents for these specifiers: hour, minute
/// and second, each zero-padded to two digits, separated by colons.
#[verifier::external_body]
fn clock_time() -> (r: String)
    ensures
        clock_text(r@),
{
    chrono::Local::now().format("%H:%M:%S").to_string()
}

/// `s` with `x` appended, the oldest element dropped first when `s` already
/// holds `MAX_ENTRIES` elements.
pub open spec fn ring_push<T>(s: Seq<T>, x: T) -> Seq<T> {
    (if s.len() >= MAX_ENTRIES { s.drop_first() } else { s }).push(x)
}

/// Level and text of each log entry, oldest first.
pub open spec fn log_lines(entries: Seq<LogEntry>) -> Seq<(LogLevel, Seq<char>)> {
    entries.map_values(|e: LogEntry| (e.level, e.message@))
}

/// The servers placed on the host named `hostname`, in their order.
pub open spec fn servers_on_host(all: Seq<Server>, hostname: Seq<char>) -> Seq<Server>
    decreases all.len(),
{
    if all.len() == 0 {
        Seq::empty()
    } else {
        let prev = servers_on_host(all.drop_last(), hostname);
        if opt_view(all.last().host) == Some(hostname) {
            prev.push(all.last())
        } else {
            prev
        }
    }
}

/// The instances the list should show: those on the selected host, none
/// when no host is selected.
pub open spec fn instances_for(all: Seq<Server>, hosts: Seq<Hypervisor>, selected: nat) -> Seq<Server> {
    if selected < hosts.len() {
        servers_on_host(all, hosts[selected as int].hypervisor_hostname@)
    } else {
        Seq::empty()
    }
}

/// Evacuation requests for `ids`, in order, with no target host and no
/// storage or force flags.
pub open spec fn evac_requests(acts: Seq<Action>, ids: Seq<Seq<char>>) -> bool {
    &&& acts.len() == ids.len()
    &&& forall|i: int|
        0 <= i < acts.len() ==> (#[trigger] acts[i] matches Action::EvacuateServer { id, params } && id@
            == ids[i] && params.host is None && params.on_shared_storage is None
            && params.force is None)
}

/// Copies of the servers in `all` placed on the host `hostname`, in order.
fn servers_on(all: &Vec<Server>, hostname: &str) -> (r: Vec<Server>)
    ensures
        servers_eqv(r@, servers_on_host(all@, hostname@)),
{
    let mut out: Vec<Server> = Vec::new();
    let mut i: usize = 0;
    while i < all.len()
        invariant
            i <= all@.len(),
            servers_eqv(out@, servers_on_host(all@.subrange(0, i as int), hostname@)),
        decreases all@.len() - i,
    {
        proof {
            assert(all@.subrange(0, i + 1).drop_last() =~= all@.subrange(0, i as int));
        }
        if opt_eq(&all[i].host, Some(hostname)) {
            let c = all[i].clone();
            out.push(c);
        }
        i = i + 1;
    }
    proof {
        assert(all@.subrange(0, all@.len() as int) =~= all@);
    }
    out
}

/// The log line for the outcome of evacuating `id`.
pub open spec fn result_line(id: Seq<char>, outcome: Result<(), Seq<char>>) -> (LogLevel, Seq<char>) {
    match outcome {
        Ok(()) => (LogLevel::Success, "Evacuated "@ + id),
        Err(msg) => (LogLevel::Error, "Failed "@ + id + ": "@ + msg),
    }
}

/// The log line that closes a batch whose outcomes are `done`.
pub open spec fn summary_line(done: Seq<(Seq<char>, Result<(), Seq<char>>)>) -> (LogLevel, Seq<char>) {
    (
        LogLevel::Info,
        "Evacuate complete: "@ + dec(ok_count(done)) + " ok, "@ + dec(failures(done).len()) + " failed"@,
    )
}

/// What the screen does with the outcome of evacuating `id` while batch
/// `t0` runs: the batch records it and dispatches what it may next
/// (`sent` joins the requests waiting), the outcome is logged, and once
/// the batch has completed a summary is logged and the batch dropped.
pub open spec fn evac_result_step(
    t0: EvacTask,
    id: Seq<char>,
    outcome: Result<(), Seq<char>>,
    log0: Seq<(LogLevel, Seq<char>)>,
    out0: Seq<Action>,
    task: Option<EvacTask>,
    log: Seq<(LogLevel, Seq<char>)>,
    out: Seq<Action>,
) -> bool {
    exists|t1: EvacTask, t2: EvacTask, sent: Seq<Action>|
        #![trigger completion_step(t0, id, outcome, t1), poll_step(t1, t2, sent)]
        {
            &&& completion_step(t0, id, outcome, t1)
            &&& poll_step(t1, t2, sent)
            &&& out == out0 + sent
            &&& if t2.state_spec() == EvacState::Completed {
                &&& task is None
                &&& log == ring_push(ring_push(log0, result_line(id, outcome)), summary_line(t2.completed_spec()))
            } else {
                &&& task == Some(t2)
                &&& log == ring_push(log0, result_line(id, outcome))
            }
        }
}

/// `b` is `a` after the checked instances were sent off for evacuation
/// (or, with none checked, after the warning that says so).
pub open spec fn evacuation_started(a: HostModule, b: HostModule) -> bool {
    &&& b.focus_spec() == a.focus_spec()
    &&& b.hosts_spec() == a.hosts_spec()
    &&& b.admin_spec() == a.admin_spec()
    &&& b.all_servers_spec() == a.all_servers_spec()
    &&& b.instances_spec().servers_spec() == a.instances_spec().servers_spec()
    &&& b.instances_spec().shown_spec() == a.instances_spec().shown_spec()
    &&& b.instances_spec().selected_spec() == a.instances_spec().selected_spec()
    &&& b.instances_spec().filter_spec() == a.instances_spec().filter_spec()
    &&& b.instances_spec().checked_spec() == a.instances_spec().checked_spec()
    &&& a.checked_now().len() == 0 ==> {
        &&& b.task_spec() is None
        &&& b.outbox_spec() == a.outbox_spec()
        &&& b.instances_spec() == a.instances_spec()
        &&& log_lines(b.log_spec()) == ring_push(
            log_lines(a.log_spec()),
            (LogLevel::Warning, "No instances selected for evacuation"@),
        )
        }
    &&& a.checked_now().len() > 0 ==> {
        let ids = a.checked_now();
        let d = dispatch(ids, Seq::empty(), 3, false);
        &&& b.task_spec() matches Some(t) && {
            &&& t.queue_spec() == d.0
            &&& t.in_flight_spec() == d.1
            &&& t.completed_spec().len() == 0
            &&& !t.cancel_spec()
            &&& t.max_spec() == 3
            &&& t.state_spec() == if d.0.len() == 0 && d.1.len() == 0 {
                EvacState::Completed
            } else {
                EvacState::Executing
            }
        }
        &&& b.outbox_spec().subrange(0, a.outbox_spec().len() as int)
            == a.outbox_spec()
        &&& evac_requests(
            b.outbox_spec().subrange(
                a.outbox_spec().len() as int,
                b.outbox_spec().len() as int,
            ),
            d.2,
        )
        &&& forall|x: Seq<char>| #[trigger] evac_lookup(b.instances_spec().evac_spec(), x)
            == if ids.contains(x) {
            Some(EvacInlineStatus::InFlight)
        } else {
            evac_lookup(a.instances_spec().evac_spec(), x)
        }
        &&& log_lines(b.log_spec()) == ring_push(
            log_lines(a.log_spec()),
            (LogLevel::Info, "Evacuate started: "@ + dec(ids.len()) + " instances"@),
        )
        }
}

impl Default for HostModule {
    /// An empty screen with the host list focused.
    fn default() -> (r: Self)
        ensures
            r.inv(),
            r.focus_spec() == HostFocus::HostList,
            r.task_spec() is None,
            r.log_spec().len() == 0,
            r.outbox_spec().len() == 0,
            !r.pending_spec(),
    {
        HostModule::new()
    }
}

/// Moving the keyboard to `target`: a pending evacuation question asked
/// on the instance list is dropped, and that logged, as by any key but
/// `e`; nothing else changes.
pub open spec fn focus_step(a: HostModule, b: HostModule, target: HostFocus) -> bool {
    &&& b.focus_spec() == target
    &&& b.hosts_spec() == a.hosts_spec()
    &&& b.instances_spec() == a.instances_spec()
    &&& b.task_spec() == a.task_spec()
    &&& b.outbox_spec() == a.outbox_spec()
    &&& b.admin_spec() == a.admin_spec()
    &&& b.all_servers_spec() == a.all_servers_spec()
    &&& if a.focus_spec() == HostFocus::InstanceList && a.pending_spec() {
        &&& !b.pending_spec()
        &&& log_lines(b.log_spec()) == ring_push(log_lines(a.log_spec()), (LogLevel::Info, "Evacuate cancelled"@))
    } else {
        &&& b.pending_spec() == a.pending_spec()
        &&& b.log_spec() == a.log_spec()
    }
}

/// `b` is `a` but for the admin flag.
pub open spec fn same_but_admin(a: HostModule, b: HostModule) -> bool {
    &&& b.focus_spec() == a.focus_spec()
    &&& b.hosts_spec() == a.hosts_spec()
    &&& b.instances_spec() == a.instances_spec()
    &&& b.task_spec() == a.task_spec()
    &&& b.log_spec() == a.log_spec()
    &&& b.outbox_spec() == a.outbox_spec()
    &&& b.all_servers_spec() == a.all_servers_spec()
    &&& b.pending_spec() == a.pending_spec()
}

/// What `key` does while the host list has the keyboard: Up/`k` and
/// Down/`j` move the selection (stopping at the ends) and show the newly
/// selected host's instances, unchecked; other keys do nothing.
pub open spec fn host_key_step(key: Key, a: HostModule, b: HostModule) -> bool {
    let sel = a.hosts_spec().selected_spec();
    let n = a.hosts_spec().hypervisors_spec().len();
    let up = key == Key::Up || key == Key::Char('k');
    let down = key == Key::Down || key == Key::Char('j');
    &&& b.focus_spec() == a.focus_spec()
    &&& b.task_spec() == a.task_spec()
    &&& b.log_spec() == a.log_spec()
    &&& b.outbox_spec() == a.outbox_spec()
    &&& b.admin_spec() == a.admin_spec()
    &&& b.all_servers_spec() == a.all_servers_spec()
    &&& b.pending_spec() == a.pending_spec()
    &&& b.hosts_spec().hypervisors_spec() == a.hosts_spec().hypervisors_spec()
    &&& if up || down {
        &&& b.hosts_spec().selected_spec() == if up {
            if sel > 0 { (sel - 1) as nat } else { 0 }
        } else {
            if sel + 1 < n { sel + 1 } else { sel }
        }
        &&& b.instances_spec().filter_spec() == a.instances_spec().filter_spec()
        &&& b.instances_spec().checked_spec().len() == 0
        &&& b.instances_spec().evac_spec().len() == 0
    } else {
        &&& b.hosts_spec() == a.hosts_spec()
        &&& b.instances_spec() == a.instances_spec()
    }
}

/// What a list key does to the instance list: Up/`k`, Down/`j` move,
/// Space flips the selected check mark, `a` checks all shown, `d` clears
/// the checks, `f` cycles the filter; any other key leaves it as it is.
pub open spec fn list_key_step(key: Key, a: InstanceList, b: InstanceList) -> bool {
    if key == Key::Up || key == Key::Char('k') {
        moved_up(a, b)
    } else if key == Key::Down || key == Key::Char('j') {
        moved_down(a, b)
    } else if key == Key::Char(' ') {
        toggled(a, b)
    } else if key == Key::Char('a') {
        all_checked(a, b)
    } else if key == Key::Char('d') {
        none_checked(a, b)
    } else if key == Key::Char('f') {
        filter_cycled(a, b)
    } else {
        b == a
    }
}

/// The question logged before an evacuation of `n` instances.
pub open spec fn confirm_line(n: nat) -> Seq<char> {
    "Evacuate "@ + dec(n) + " instances? Press 'e' again to confirm, any other key to cancel"@
}

/// What `key` does while the instance list has the keyboard. A pending
/// evacuation question is dropped (and that logged) by any key but `e`.
/// `e` asks first and evacuates on the second press, unless a batch is
/// running; `c` cancels the running batch; the other keys act on the list.
pub open spec fn instance_key_step(key: Key, a: HostModule, b: HostModule) -> bool {
    let e = key == Key::Char('e');
    let log1 = if a.pending_spec() && !e {
        ring_push(log_lines(a.log_spec()), (LogLevel::Info, "Evacuate cancelled"@))
    } else {
        log_lines(a.log_spec())
    };
    &&& b.focus_spec() == a.focus_spec()
    &&& b.hosts_spec() == a.hosts_spec()
    &&& b.admin_spec() == a.admin_spec()
    &&& b.all_servers_spec() == a.all_servers_spec()
    &&& if e {
        if a.task_spec() is Some {
            &&& b.task_spec() == a.task_spec()
            &&& b.instances_spec() == a.instances_spec()
            &&& b.outbox_spec() == a.outbox_spec()
            &&& b.log_spec() == a.log_spec()
            &&& b.pending_spec() == a.pending_spec()
        } else if a.pending_spec() {
            &&& !b.pending_spec()
            &&& evacuation_started(a, b)
        } else {
            &&& b.task_spec() == a.task_spec()
            &&& b.instances_spec() == a.instances_spec()
            &&& b.outbox_spec() == a.outbox_spec()
            &&& b.pending_spec() == (a.checked_now().len() > 0)
            &&& log_lines(b.log_spec()) == ring_push(
                log_lines(a.log_spec()),
                if a.checked_now().len() > 0 {
                    (LogLevel::Warning, confirm_line(a.checked_now().len()))
                } else {
                    (LogLevel::Warning, "No instances selected for evacuation"@)
                },
            )
        }
    } else if key == Key::Char('c') {
        &&& !b.pending_spec()
        &&& b.instances_spec() == a.instances_spec()
        &&& b.outbox_spec() == a.outbox_spec()
        &&& match a.task_spec() {
            Some(t0) => {
                &&& b.task_spec() matches Some(t1) && cancel_step(t0, t1)
                &&& log_lines(b.log_spec()) == ring_push(log1, (LogLevel::Warning, "Evacuate cancelled by user"@))
            },
            None => {
                &&& b.task_spec() is None
                &&& log_lines(b.log_spec()) == log1
            },
        }
    } else {
        &&& !b.pending_spec()
        &&& list_key_step(key, a.instances_spec(), b.instances_spec())
        &&& b.task_spec() == a.task_spec()
        &&& b.outbox_spec() == a.outbox_spec()
        &&& log_lines(b.log_spec()) == log1
    }
}

/// Evacuation takes two presses of `e` on the instance list. The first,
/// with instances checked and no batch running, only asks: nothing is
/// sent and no batch starts. A second `e` starts the batch on the same
/// checked instances; any other key, Left and Right included, drops the
/// question and sends nothing.
pub proof fn lemma_two_press_evacuation(a: HostModule, b: HostModule, k: Key, c: HostModule)
    requires
        a.focus_spec() == HostFocus::InstanceList,
        a.task_spec() is None,
        !a.pending_spec(),
        a.checked_now().len() > 0,
        instance_key_step(Key::Char('e'), a, b),
        k == Key::Left ==> focus_step(b, c, HostFocus::HostList),
        k == Key::Right ==> focus_step(b, c, HostFocus::InstanceList),
        k != Key::Left && k != Key::Right ==> instance_key_step(k, b, c),
    ensures
        b.pending_spec(),
        b.task_spec() is None,
        b.outbox_spec() == a.outbox_spec(),
        b.checked_now() == a.checked_now(),
        k == Key::Char('e') ==> {
            &&& evacuation_started(b, c)
            &&& !c.pending_spec()
            &&& c.task_spec() is Some
        },
        k != Key::Char('e') ==> {
            &&& !c.pending_spec()
            &&& c.task_spec() is None
            &&& c.outbox_spec() == a.outbox_spec()
        },
        k == Key::Char('e') && a.checked_now().no_duplicates() ==> {
            let n = a.checked_now().len();
            &&& c.outbox_spec().subrange(0, a.outbox_spec().len() as int) == a.outbox_spec()
            &&& evac_requests(
                c.outbox_spec().subrange(a.outbox_spec().len() as int, c.outbox_spec().len() as int),
                a.checked_now().take(if n <= 3 { n as int } else { 3 }),
            )
        },
{
    if k == Key::Char('e') && a.checked_now().no_duplicates() {
        lemma_dispatch_prefix(a.checked_now(), Seq::empty(), 3);
    }
}

/// The host operations screen: hosts on the left, the selected host's
/// instances on the right, a log below, and at most one evacuation batch.
pub struct HostModule {
    focus: HostFocus,
    host_list: HostList,
    instance_list: InstanceList,
    evac_task: Option<EvacTask>,
    log_panel: LogPanel,
    outbox: Vec<Action>,
    is_admin: bool,
    all_servers: Vec<Server>,
    evac_confirm_pending: bool,
}

impl HostModule {
    /// Which panel has the keyboard.
    pub closed spec fn focus_spec(&self) -> HostFocus {
        self.focus
    }

    /// The host list.
    pub closed spec fn hosts_spec(&self) -> HostList {
        self.host_list
    }

    /// The instance list.
    pub closed spec fn instances_spec(&self) -> InstanceList {
        self.instance_list
    }

    /// The running evacuation batch, if any.
    pub closed spec fn task_spec(&self) -> Option<EvacTask> {
        self.evac_task
    }

    /// The log's entries, oldest first.
    pub closed spec fn log_spec(&self) -> Seq<LogEntry> {
        self.log_panel.entries_spec()
    }

    /// Requests waiting to be sent, oldest first.
    pub closed spec fn outbox_spec(&self) -> Seq<Action> {
        self.outbox@
    }

    /// Whether the user has admin rights.
    pub closed spec fn admin_spec(&self) -> bool {
        self.is_admin
    }

    /// Every server loaded, on any host.
    pub closed spec fn all_servers_spec(&self) -> Seq<Server> {
        self.all_servers@
    }

    /// Whether an evacuation waits for its second `e`.
    pub closed spec fn pending_spec(&self) -> bool {
        self.evac_confirm_pending
    }

    /// Each part keeps its own invariant, a batch is well formed, and every
    /// log line is stamped `HH:MM:SS`.
    pub open spec fn parts_inv(&self) -> bool {
        &&& self.hosts_spec().inv()
        &&& self.instances_spec().inv()
        &&& self.log_spec().len() <= MAX_ENTRIES
        &&& forall|i: int| 0 <= i < self.log_spec().len() ==> clock_text(#[trigger] self.log_spec()[i].timestamp@)
        &&& self.task_spec() matches Some(t) ==> t.wf()
    }

    /// The instance list shows exactly the servers on the selected host.
    pub open spec fn synced(&self) -> bool {
        servers_eqv(
            self.instances_spec().servers_spec(),
            instances_for(self.all_servers_spec(), self.hosts_spec().hypervisors_spec(), self.hosts_spec().selected_spec()),
        )
    }

    /// The screen's invariant.
    pub open spec fn inv(&self) -> bool {
        self.parts_inv() && self.synced()
    }

    /// An empty screen with the host list focused.
    pub fn new() -> (r: Self)
        ensures
            r.inv(),
            r.focus_spec() == HostFocus::HostList,
            r.hosts_spec().hypervisors_spec().len() == 0,
            r.instances_spec().servers_spec().len() == 0,
            r.instances_spec().checked_spec().len() == 0,
            r.task_spec() is None,
            r.log_spec().len() == 0,
            r.outbox_spec().len() == 0,
            !r.admin_spec(),
            r.all_servers_spec().len() == 0,
            !r.pending_spec(),
            r.hosts_spec().selected_spec() == 0,
            r.instances_spec().filter_spec() == crate::module::host::instance_list::StatusFilter::All,
            r.instances_spec().selected_spec() == 0,
            r.instances_spec().evac_spec().len() == 0,
    {
        HostModule {
            focus: HostFocus::HostList,
            host_list: HostList::new(),
            instance_list: InstanceList::new(),
            evac_task: None,
            log_panel: LogPanel::new(),
            outbox: Vec::new(),
            is_admin: false,
            all_servers: Vec::new(),
            evac_confirm_pending: false,
        }
    }

    /// The ids of the checked instances the list shows, in list order.
    pub open spec fn checked_now(&self) -> Seq<Seq<char>> {
        checked_visible(
            self.instances_spec().servers_spec(),
            self.instances_spec().shown_spec(),
            self.instances_spec().checked_spec(),
        )
    }

    /// Mark every instance of `ids` as in flight.
    fn mark_in_flight(&mut self, ids: &Vec<String>)
        requires
            old(self).inv(),
        ensures
            final(self).inv(),
            forall|x: Seq<char>| #[trigger] evac_lookup(final(self).instances_spec().evac_spec(), x)
                == if ids_view(ids@).contains(x) {
                Some(EvacInlineStatus::InFlight)
            } else {
                evac_lookup(old(self).instances_spec().evac_spec(), x)
            },
            final(self).instances_spec().servers_spec() == old(self).instances_spec().servers_spec(),
            final(self).instances_spec().shown_spec() == old(self).instances_spec().shown_spec(),
            final(self).instances_spec().selected_spec() == old(self).instances_spec().selected_spec(),
            final(self).instances_spec().filter_spec() == old(self).instances_spec().filter_spec(),
            final(self).instances_spec().checked_spec() == old(self).instances_spec().checked_spec(),
            final(self).focus_spec() == old(self).focus_spec(),
            final(self).hosts_spec() == old(self).hosts_spec(),
            final(self).task_spec() == old(self).task_spec(),
            final(self).log_spec() == old(self).log_spec(),
            final(self).outbox_spec() == old(self).outbox_spec(),
            final(self).admin_spec() == old(self).admin_spec(),
            final(self).all_servers_spec() == old(self).all_servers_spec(),
            final(self).pending_spec() == old(self).pending_spec(),
    {
        let ghost orig = self.instances_spec().evac_spec();
        let mut k: usize = 0;
        while k < ids.len()
            invariant
                k <= ids@.len(),
                self.inv(),
                forall|x: Seq<char>| #[trigger] evac_lookup(self.instances_spec().evac_spec(), x)
                    == if ids_view(ids@.subrange(0, k as int)).contains(x) {
                    Some(EvacInlineStatus::InFlight)
                } else {
                    evac_lookup(orig, x)
                },
                self.instances_spec().servers_spec() == old(self).instances_spec().servers_spec(),
                self.instances_spec().shown_spec() == old(self).instances_spec().shown_spec(),
                self.instances_spec().selected_spec() == old(self).instances_spec().selected_spec(),
                self.instances_spec().filter_spec() == old(self).instances_spec().filter_spec(),
                self.instances_spec().checked_spec() == old(self).instances_spec().checked_spec(),
                self.focus_spec() == old(self).focus_spec(),
                self.hosts_spec() == old(self).hosts_spec(),
                self.task_spec() == old(self).task_spec(),
                self.log_spec() == old(self).log_spec(),
                self.outbox_spec() == old(self).outbox_spec(),
                self.admin_spec() == old(self).admin_spec(),
                self.all_servers_spec() == old(self).all_servers_spec(),
                self.pending_spec() == old(self).pending_spec(),
            decreases ids@.len() - k,
        {
            let ghost before = self.instances_spec().evac_spec();
            self.instance_list.set_evac_status(ids[k].as_str(), EvacInlineStatus::InFlight);
            proof {
                let pre = ids_view(ids@.subrange(0, k as int));
                let post = ids_view(ids@.subrange(0, k + 1));
                assert(post =~= pre.push(ids@[k as int]@));
                assert forall|x: Seq<char>| #[trigger] evac_lookup(self.instances_spec().evac_spec(), x)
                    == if post.contains(x) {
                    Some(EvacInlineStatus::InFlight)
                } else {
                    evac_lookup(orig, x)
                } by {
                    if x == ids@[k as int]@ {
                        assert(post[k as int] == x);
                    } else {
                        if pre.contains(x) {
                            let j = choose|j: int| 0 <= j < pre.len() && pre[j] == x;
                            assert(post[j] == x);
                        }
                        if post.contains(x) {
                            let j = choose|j: int| 0 <= j < post.len() && post[j] == x;
                            assert(j != k);
                            assert(pre[j] == x);
                        }
                    }
                }
            }
            k = k + 1;
        }
        proof {
            assert(ids@.subrange(0, ids@.len() as int) =~= ids@);
        }
    }

    /// Start evacuating the checked instances: each is marked in flight,
    /// and a batch of at most three concurrent evacuations is started and
    /// its first requests queued. With nothing checked, a warning is logged
    /// instead.
    fn start_evacuate(&mut self)
        requires
            old(self).inv(),
            old(self).task_spec() is None,
        ensures
            final(self).inv(),
            final(self).pending_spec() == old(self).pending_spec(),
            evacuation_started(*old(self), *final(self)),
    {
        let ids = self.instance_list.checked_ids();
        proof {
            assert(ids_view(ids@) =~= self.checked_now());
        }
        if ids.len() == 0 {
            self.log(LogLevel::Warning, String::from_str("No instances selected for evacuation"));
            return;
        }
        let count = ids.len();
        self.mark_in_flight(&ids);
        let ghost idv = ids_view(ids@);
        let mut task = EvacTask::new(ids, EvacuateParams::none(), 3);
        task.start();
        proof {
            assert(task.in_flight_spec() =~= Seq::<Seq<char>>::empty());
        }
        let mut actions = task.poll_next();
        let ghost acts = actions@;
        let ghost out0 = self.outbox@;
        self.outbox.append(&mut actions);
        proof {
            assert(self.outbox@.subrange(0, out0.len() as int) =~= out0);
            assert(self.outbox@.subrange(out0.len() as int, self.outbox@.len() as int) =~= acts);
        }
        self.evac_task = Some(task);
        let n = u64_text(count as u64);
        let msg = cat3("Evacuate started: ", n.as_str(), " instances");
        self.log(LogLevel::Info, msg);
    }

    /// Take in an event: loaded hypervisors or servers refresh the lists
    /// (the instance list then shows the selected host's servers, none
    /// checked), an evacuation outcome steps the batch on, and a compute
    /// service switched on or off is logged. Other events change nothing.
    pub fn handle_event(&mut self, event: &AppEvent)
        requires
            old(self).inv(),
        ensures
            final(self).inv(),
            final(self).focus_spec() == old(self).focus_spec(),
            final(self).admin_spec() == old(self).admin_spec(),
            final(self).pending_spec() == old(self).pending_spec(),
            match event {
                AppEvent::HypervisorsLoaded(hvs) => {
                    &&& final(self).hosts_spec().hypervisors_spec() == hvs@
                    &&& final(self).hosts_spec().selected_spec() == if hvs@.len() != 0
                        && old(self).hosts_spec().selected_spec() >= hvs@.len() {
                        (hvs@.len() - 1) as nat
                    } else {
                        old(self).hosts_spec().selected_spec()
                    }
                    &&& final(self).instances_spec().filter_spec() == old(self).instances_spec().filter_spec()
                    &&& final(self).instances_spec().checked_spec().len() == 0
                    &&& final(self).instances_spec().evac_spec().len() == 0
                    &&& final(self).all_servers_spec() == old(self).all_servers_spec()
                    &&& final(self).task_spec() == old(self).task_spec()
                    &&& final(self).log_spec() == old(self).log_spec()
                    &&& final(self).outbox_spec() == old(self).outbox_spec()
                },
                AppEvent::ServersLoaded(servers) => {
                    &&& servers_eqv(final(self).all_servers_spec(), servers@)
                    &&& final(self).hosts_spec() == old(self).hosts_spec()
                    &&& final(self).instances_spec().filter_spec() == old(self).instances_spec().filter_spec()
                    &&& final(self).instances_spec().checked_spec().len() == 0
                    &&& final(self).instances_spec().evac_spec().len() == 0
                    &&& final(self).task_spec() == old(self).task_spec()
                    &&& final(self).log_spec() == old(self).log_spec()
                    &&& final(self).outbox_spec() == old(self).outbox_spec()
                },
                AppEvent::ServerEvacuateResult { id, result } => {
                    &&& final(self).hosts_spec() == old(self).hosts_spec()
                    &&& final(self).all_servers_spec() == old(self).all_servers_spec()
                    &&& final(self).instances_spec().servers_spec() == old(self).instances_spec().servers_spec()
                    &&& final(self).instances_spec().shown_spec() == old(self).instances_spec().shown_spec()
                    &&& final(self).instances_spec().selected_spec() == old(self).instances_spec().selected_spec()
                    &&& final(self).instances_spec().filter_spec() == old(self).instances_spec().filter_spec()
                    &&& final(self).instances_spec().checked_spec() == old(self).instances_spec().checked_spec()
                    &&& old(self).task_spec() is None ==> {
                        &&& final(self).task_spec() is None
                        &&& final(self).instances_spec() == old(self).instances_spec()
                        &&& final(self).log_spec() == old(self).log_spec()
                        &&& final(self).outbox_spec() == old(self).outbox_spec()
                    }
                    &&& old(self).task_spec() matches Some(t0) ==> {
                        &&& forall|x: Seq<char>| #[trigger] evac_lookup(final(self).instances_spec().evac_spec(), x)
                            == if x == id@ {
                            Some(if result is Ok { EvacInlineStatus::Success } else { EvacInlineStatus::Failed })
                        } else {
                            evac_lookup(old(self).instances_spec().evac_spec(), x)
                        }
                        &&& evac_result_step(
                            t0,
                            id@,
                            outcome_view(*result),
                            log_lines(old(self).log_spec()),
                            old(self).outbox_spec(),
                            final(self).task_spec(),
                            log_lines(final(self).log_spec()),
                            final(self).outbox_spec(),
                        )
                    }
                },
                AppEvent::ComputeServiceToggled { hostname, enabled } => {
                    &&& log_lines(final(self).log_spec()) == ring_push(
                        log_lines(old(self).log_spec()),
                        (LogLevel::Info, "Host "@ + hostname@ + " "@ + if *enabled { "enabled"@ } else { "disabled"@ }),
                    )
                    &&& final(self).hosts_spec() == old(self).hosts_spec()
                    &&& final(self).instances_spec() == old(self).instances_spec()
                    &&& final(self).all_servers_spec() == old(self).all_servers_spec()
                    &&& final(self).task_spec() == old(self).task_spec()
                    &&& final(self).outbox_spec() == old(self).outbox_spec()
                },
                _ => {
                    &&& final(self).hosts_spec() == old(self).hosts_spec()
                    &&& final(self).instances_spec() == old(self).instances_spec()
                    &&& final(self).all_servers_spec() == old(self).all_servers_spec()
                    &&& final(self).task_spec() == old(self).task_spec()
                    &&& final(self).log_spec() == old(self).log_spec()
                    &&& final(self).outbox_spec() == old(self).outbox_spec()
                },
            },
    {
        match event {
            AppEvent::HypervisorsLoaded(hvs) => {
                proof {
                    assert forall|a: Hypervisor, b: Hypervisor| #[trigger] cloned(a, b) implies a == b by {}
                }
                let copy = copy_list(hvs);
                self.host_list.set_hypervisors(copy);
                self.sync_instance_list();
            },
            AppEvent::ServersLoaded(servers) => {
                self.all_servers = copy_list_by(servers, Ghost(|a: Server, b: Server| a.eqv(&b)));
                self.sync_instance_list();
            },
            AppEvent::ServerEvacuateResult { id, result } => {
                let r: Result<(), String> = match result {
                    Ok(()) => Ok(()),
                    Err(msg) => Err(msg.clone()),
                };
                self.handle_evac_result(id.as_str(), r);
            },
            AppEvent::ComputeServiceToggled { hostname, enabled } => {
                let word = if *enabled { "enabled" } else { "disabled" };
                let msg = cat4("Host ", hostname.as_str(), " ", word);
                self.log(LogLevel::Info, msg);
            },
            _ => {},
        }
    }

    /// Whether an evacuation batch is running.
    pub fn is_busy(&self) -> (r: bool)
        ensures
            r == self.task_spec() is Some,
    {
        self.evac_task.is_some()
    }

    /// The screen spans the whole window.
    pub fn layout_hint(&self) -> (r: LayoutHint)
        ensures
            r == LayoutHint::FullWidth,
    {
        LayoutHint::FullWidth
    }

    /// The key help for the focused panel.
    pub fn help_hint(&self) -> (r: &'static str)
        ensures
            r@ == match self.focus_spec() {
                HostFocus::HostList => "↑↓:select  →:instances  Tab:sidebar"@,
                HostFocus::InstanceList => "↑↓:select  ←:hosts  Space:check  a:all  d:clear  f:filter  e:evacuate  c:cancel"@,
            },
    {
        match self.focus {
            HostFocus::HostList => "↑↓:select  →:instances  Tab:sidebar",
            HostFocus::InstanceList => "↑↓:select  ←:hosts  Space:check  a:all  d:clear  f:filter  e:evacuate  c:cancel",
        }
    }

    /// The request that reloads this screen.
    pub fn refresh_action(&self) -> (r: Option<Action>)
        ensures
            r == Some(Action::FetchHypervisors),
    {
        Some(Action::FetchHypervisors)
    }

    /// Record whether the user has admin rights.
    pub fn set_admin(&mut self, is_admin: bool)
        requires
            old(self).inv(),
        ensures
            final(self).inv(),
            final(self).admin_spec() == is_admin,
            same_but_admin(*old(self), *final(self)),
    {
        self.is_admin = is_admin;
    }

    /// Hand over the requests waiting to be sent, oldest first.
    pub fn take_actions(&mut self) -> (r: Vec<Action>)
        requires
            old(self).inv(),
        ensures
            final(self).inv(),
            r@ == old(self).outbox_spec(),
            final(self).outbox_spec().len() == 0,
            final(self).focus_spec() == old(self).focus_spec(),
            final(self).hosts_spec() == old(self).hosts_spec(),
            final(self).instances_spec() == old(self).instances_spec(),
            final(self).task_spec() == old(self).task_spec(),
            final(self).log_spec() == old(self).log_spec(),
            final(self).admin_spec() == old(self).admin_spec(),
            final(self).all_servers_spec() == old(self).all_servers_spec(),
            final(self).pending_spec() == old(self).pending_spec(),
    {
        let mut out: Vec<Action> = Vec::new();
        std::mem::swap(&mut out, &mut self.outbox);
        out
    }

    /// Which panel has the keyboard.
    pub fn focus(&self) -> (r: HostFocus)
        ensures
            r == self.focus_spec(),
    {
        self.focus
    }

    /// The host list.
    pub fn host_list(&self) -> (r: &HostList)
        ensures
            *r == self.hosts_spec(),
    {
        &self.host_list
    }

    /// The instance list.
    pub fn instance_list(&self) -> (r: &InstanceList)
        ensures
            *r == self.instances_spec(),
    {
        &self.instance_list
    }

    /// The log.
    pub fn log_panel(&self) -> (r: &LogPanel)
        ensures
            r.entries_spec() == self.log_spec(),
    {
        &self.log_panel
    }

    /// The running evacuation batch, if any.
    pub fn evac_task(&self) -> (r: Option<&EvacTask>)
        ensures
            match self.task_spec() {
                Some(t) => r == Some(&t),
                None => r is None,
            },
    {
        match &self.evac_task {
            Some(t) => Some(t),
            None => None,
        }
    }

    /// Whether an evacuation waits for its second `e`.
    pub fn evac_confirm_pending(&self) -> (r: bool)
        ensures
            r == self.pending_spec(),
    {
        self.evac_confirm_pending
    }

    /// React to a key: Left and Right move the keyboard between the
    /// panels (leaving the instance list drops a pending evacuation
    /// question, like any key but `e`); the focused panel handles the rest.
    /// Nothing is returned: requests go to the outbox.
    pub fn handle_key(&mut self, key: Key) -> (r: Option<Action>)
        requires
            old(self).inv(),
        ensures
            final(self).inv(),
            r is None,
            key == Key::Left ==> focus_step(*old(self), *final(self), HostFocus::HostList),
            key == Key::Right ==> focus_step(*old(self), *final(self), HostFocus::InstanceList),
            key != Key::Left && key != Key::Right && old(self).focus_spec() == HostFocus::HostList
                ==> host_key_step(key, *old(self), *final(self)),
            key != Key::Left && key != Key::Right && old(self).focus_spec() == HostFocus::InstanceList
                ==> instance_key_step(key, *old(self), *final(self)),
    {
        let target = match key {
            Key::Left => Some(HostFocus::HostList),
            Key::Right => Some(HostFocus::InstanceList),
            _ => None,
        };
        match target {
            Some(t) => {
                let on_instances = match self.focus {
                    HostFocus::InstanceList => true,
                    HostFocus::HostList => false,
                };
                if on_instances && self.evac_confirm_pending {
                    self.evac_confirm_pending = false;
                    self.log(LogLevel::Info, String::from_str("Evacuate cancelled"));
                }
                self.focus = t;
                return None;
            },
            None => {},
        }
        match self.focus {
            HostFocus::HostList => {
                match key {
                    Key::Up | Key::Char('k') => {
                        self.host_list.move_up();
                        self.sync_instance_list();
                    },
                    Key::Down | Key::Char('j') => {
                        self.host_list.move_down();
                        self.sync_instance_list();
                    },
                    _ => {},
                }
            },
            HostFocus::InstanceList => {
                let is_e = match key {
                    Key::Char('e') => true,
                    _ => false,
                };
                if self.evac_confirm_pending && !is_e {
                    self.evac_confirm_pending = false;
                    self.log(LogLevel::Info, String::from_str("Evacuate cancelled"));
                }
                self.instance_key(key);
            },
        }
        None
    }

    /// The instance panel's part of `instance_key_step`, after a pending
    /// question has been dropped.
    fn instance_key(&mut self, key: Key)
        requires
            old(self).inv(),
            old(self).pending_spec() ==> key == Key::Char('e'),
        ensures
            final(self).inv(),
            instance_key_step(key, *old(self), *final(self)),
    {
        match key {
            Key::Up | Key::Char('k') => self.instance_list.move_up(),
            Key::Down | Key::Char('j') => self.instance_list.move_down(),
            Key::Char(' ') => self.instance_list.toggle_check(),
            Key::Char('a') => self.instance_list.select_all(),
            Key::Char('d') => self.instance_list.deselect_all(),
            Key::Char('f') => self.instance_list.cycle_filter(),
            Key::Char('e') => {
                if self.evac_task.is_none() {
                    if self.evac_confirm_pending {
                        self.start_evacuate();
                        self.evac_confirm_pending = false;
                    } else {
                        let count = self.instance_list.checked_count();
                        if count > 0 {
                            self.evac_confirm_pending = true;
                            let n = u64_text(count as u64);
                            let msg = cat3(
                                "Evacuate ",
                                n.as_str(),
                                " instances? Press 'e' again to confirm, any other key to cancel",
                            );
                            self.log(LogLevel::Warning, msg);
                        } else {
                            self.log(LogLevel::Warning, String::from_str("No instances selected for evacuation"));
                        }
                    }
                }
            },
            Key::Char('c') => {
                let mut slot: Option<EvacTask> = None;
                std::mem::swap(&mut slot, &mut self.evac_task);
                match slot {
                    None => {},
                    Some(mut task) => {
                        task.request_cancel();
                        self.evac_task = Some(task);
                        self.log(LogLevel::Warning, String::from_str("Evacuate cancelled by user"));
                    },
                }
            },
            _ => {},
        }
    }

    /// Take in the outcome of evacuating `server_id`. Without a batch
    /// running nothing happens; otherwise the instance is marked succeeded
    /// or failed and the batch steps on as `evac_result_step` says.
    fn handle_evac_result(&mut self, server_id: &str, result: Result<(), String>)
        requires
            old(self).inv(),
        ensures
            final(self).inv(),
            final(self).focus_spec() == old(self).focus_spec(),
            final(self).hosts_spec() == old(self).hosts_spec(),
            final(self).admin_spec() == old(self).admin_spec(),
            final(self).all_servers_spec() == old(self).all_servers_spec(),
            final(self).pending_spec() == old(self).pending_spec(),
            final(self).instances_spec().servers_spec() == old(self).instances_spec().servers_spec(),
            final(self).instances_spec().shown_spec() == old(self).instances_spec().shown_spec(),
            final(self).instances_spec().selected_spec() == old(self).instances_spec().selected_spec(),
            final(self).instances_spec().filter_spec() == old(self).instances_spec().filter_spec(),
            final(self).instances_spec().checked_spec() == old(self).instances_spec().checked_spec(),
            old(self).task_spec() is None ==> {
                &&& final(self).task_spec() is None
                &&& final(self).instances_spec() == old(self).instances_spec()
                &&& final(self).log_spec() == old(self).log_spec()
                &&& final(self).outbox_spec() == old(self).outbox_spec()
            },
            old(self).task_spec() matches Some(t0) ==> {
                &&& forall|x: Seq<char>| #[trigger] evac_lookup(final(self).instances_spec().evac_spec(), x)
                    == if x == server_id@ {
                    Some(if result is Ok { EvacInlineStatus::Success } else { EvacInlineStatus::Failed })
                } else {
                    evac_lookup(old(self).instances_spec().evac_spec(), x)
                }
                &&& evac_result_step(
                    t0,
                    server_id@,
                    outcome_view(result),
                    log_lines(old(self).log_spec()),
                    old(self).outbox_spec(),
                    final(self).task_spec(),
                    log_lines(final(self).log_spec()),
                    final(self).outbox_spec(),
                )
            },
    {
        let mut slot: Option<EvacTask> = None;
        std::mem::swap(&mut slot, &mut self.evac_task);
        match slot {
            None => {},
            Some(mut task) => {
                let ghost t0 = task;
                let ghost outcome = outcome_view(result);
                let ghost log0 = log_lines(self.log_spec());
                let ghost out0 = self.outbox@;
                let status = if result.is_ok() {
                    EvacInlineStatus::Success
                } else {
                    EvacInlineStatus::Failed
                };
                self.instance_list.set_evac_status(server_id, status);
                let line = match &result {
                    Ok(()) => cat("Evacuated ", server_id),
                    Err(msg) => cat4("Failed ", server_id, ": ", msg.as_str()),
                };
                let level = if result.is_ok() { LogLevel::Success } else { LogLevel::Error };
                proof {
                    assert((level, line@) == result_line(server_id@, outcome));
                }
                task.on_completed(server_id, result);
                let ghost t1 = task;
                self.log(level, line);
                let mut sent = task.poll_next();
                let ghost t2 = task;
                let ghost sent_v = sent@;
                self.outbox.append(&mut sent);
                if task.is_completed() {
                    let ok = task.succeeded_count();
                    let failed = task.failed_results().len();
                    let ok_s = u64_text(ok as u64);
                    let failed_s = u64_text(failed as u64);
                    let head = cat3("Evacuate complete: ", ok_s.as_str(), " ok, ");
                    let msg = cat3(head.as_str(), failed_s.as_str(), " failed");
                    proof {
                        assert((LogLevel::Info, msg@) == summary_line(t2.completed_spec()));
                    }
                    self.log(LogLevel::Info, msg);
                    self.evac_task = None;
                } else {
                    self.evac_task = Some(task);
                }
                proof {
                    assert(completion_step(t0, server_id@, outcome, t1) && poll_step(t1, t2, sent_v));
                    assert(self.outbox@ == out0 + sent_v);
                }
            },
        }
    }

    /// Show the selected host's servers in the instance list; check marks
    /// and evacuation statuses start afresh.
    fn sync_instance_list(&mut self)
        requires
            old(self).parts_inv(),
        ensures
            final(self).inv(),
            final(self).instances_spec().filter_spec() == old(self).instances_spec().filter_spec(),
            final(self).instances_spec().checked_spec().len() == 0,
            final(self).instances_spec().evac_spec().len() == 0,
            final(self).focus_spec() == old(self).focus_spec(),
            final(self).hosts_spec() == old(self).hosts_spec(),
            final(self).task_spec() == old(self).task_spec(),
            final(self).log_spec() == old(self).log_spec(),
            final(self).outbox_spec() == old(self).outbox_spec(),
            final(self).admin_spec() == old(self).admin_spec(),
            final(self).all_servers_spec() == old(self).all_servers_spec(),
            final(self).pending_spec() == old(self).pending_spec(),
    {
        let filtered = match self.host_list.selected_hypervisor() {
            Some(h) => servers_on(&self.all_servers, h.hypervisor_hostname.as_str()),
            None => Vec::new(),
        };
        self.instance_list.set_servers(filtered);
    }

    /// Append a line to the log, stamped with the current time.
    #[verifier::spinoff_prover]
    fn log(&mut self, level: LogLevel, message: String)
        requires
            old(self).inv(),
        ensures
            final(self).inv(),
            log_lines(final(self).log_spec()) == ring_push(log_lines(old(self).log_spec()), (level, message@)),
            final(self).focus_spec() == old(self).focus_spec(),
            final(self).hosts_spec() == old(self).hosts_spec(),
            final(self).instances_spec() == old(self).instances_spec(),
            final(self).task_spec() == old(self).task_spec(),
            final(self).outbox_spec() == old(self).outbox_spec(),
            final(self).admin_spec() == old(self).admin_spec(),
            final(self).all_servers_spec() == old(self).all_servers_spec(),
            final(self).pending_spec() == old(self).pending_spec(),
    {
        let ts = clock_time();
        let ghost e = LogEntry { timestamp: ts, level, message };
        let ghost before = self.log_spec();
        self.log_panel.push(ts, level, message);
        proof {
            let after = self.log_spec();
            let kept = if before.len() >= MAX_ENTRIES { before.drop_first() } else { before };
            assert(after == kept.push(e));
            assert(log_lines(after) =~= ring_push(log_lines(before), (level, e.message@)));
            assert forall|i: int| 0 <= i < after.len() implies clock_text(#[trigger] after[i].timestamp@) by {
                if i < after.len() - 1 {
                    if before.len() >= MAX_ENTRIES {
                        assert(after[i] == before[i + 1]);
                        assert(clock_text(before[i + 1].timestamp@));
                    } else {
                        assert(after[i] == before[i]);
                        assert(clock_text(before[i].timestamp@));
                    }
                } else {
                    assert(after[i] == e);
                }
            }
        }
    }
}

} // verus!
