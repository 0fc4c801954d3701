//! What the usage screen adds up over the hypervisors: the infrastructure
//! totals of its top panel and the host counts of its allocation panel.
use vstd::prelude::*;
use crate::models::nova::Hypervisor;

verus! {

/// The largest value of a `u32` field.
pub open spec fn field_max() -> nat {
    0xffff_ffff
}

/// The sum of `f` over `hvs`.
pub open spec fn total_of(hvs: Seq<Hypervisor>, f: spec_fn(Hypervisor) -> nat) -> nat
    decreases hvs.len(),
{
    if hvs.len() == 0 {
        0
    } else {
        total_of(hvs.drop_last(), f) + f(hvs.last())
    }
}

/// A host counts as up when its state is `up` and its status `enabled`.
pub open spec fn host_up(h: Hypervisor) -> bool {
    h.state@ == "up"@ && h.status@ == "enabled"@
}

/// One for a host that is up, else zero.
pub open spec fn up_one(h: Hypervisor) -> nat {
    if host_up(h) { 1 } else { 0 }
}

/// One for a host that is not up, else zero.
pub open spec fn down_one(h: Hypervisor) -> nat {
    if host_up(h) { 0 } else { 1 }
}

/// A sum of terms no larger than `m` is at most `m` per term.
proof fn lemma_total_bound(hvs: Seq<Hypervisor>, f: spec_fn(Hypervisor) -> nat, m: nat)
    requires
        forall|h: Hypervisor| #[trigger] f(h) <= m,
    ensures
        total_of(hvs, f) <= hvs.len() * m,
    decreases hvs.len(),
{
    if hvs.len() > 0 {
        lemma_total_bound(hvs.drop_last(), f, m);
        assert(total_of(hvs, f) == total_of(hvs.drop_last(), f) + f(hvs.last()));
        assert((hvs.len() - 1) * m + m == hvs.len() * m) by (nonlinear_arith);
    }
}

/// Adding the next host to a running sum: the sum over the first `i + 1`
/// hosts, which stays below 2^64 while there are fewer than 2^32 hosts.
proof fn lemma_total_step(hvs: Seq<Hypervisor>, f: spec_fn(Hypervisor) -> nat, i: int)
    requires
        0 <= i < hvs.len(),
        hvs.len() <= 0xffff_ffff,
        forall|h: Hypervisor| #[trigger] f(h) <= field_max(),
    ensures
        total_of(hvs.take(i + 1), f) == total_of(hvs.take(i), f) + f(hvs[i]),
        total_of(hvs.take(i + 1), f) <= 0xffff_ffff_ffff_ffff,
{
    assert(hvs.take(i + 1).drop_last() =~= hvs.take(i));
    lemma_total_bound(hvs.take(i + 1), f, field_max());
    assert((i + 1) * 0xffff_ffff <= 0xffff_ffff * 0xffff_ffff) by (nonlinear_arith)
        requires
            i + 1 <= 0xffff_ffff,
    ;
}

/// The sums the infrastructure panel shows: vCPUs, RAM in MB and disk in
/// GB, each used and in all, and the running VMs.
#[derive(Debug, Clone, Copy, PartialEq, Eq, Structural)]
pub struct InfraTotals {
    pub total_vcpus: u64,
    pub used_vcpus: u64,
    pub total_ram_mb: u64,
    pub used_ram_mb: u64,
    pub total_disk_gb: u64,
    pub used_disk_gb: u64,
    pub total_vms: u64,
}

/// Add up the hypervisors' capacity and use.
pub fn infra_totals(hvs: &Vec<Hypervisor>) -> (r: InfraTotals)
    requires
        hvs@.len() <= 0xffff_ffff,
    ensures
        r.total_vcpus == total_of(hvs@, |h: Hypervisor| h.vcpus as nat),
        r.used_vcpus == total_of(hvs@, |h: Hypervisor| h.vcpus_used as nat),
        r.total_ram_mb == total_of(hvs@, |h: Hypervisor| h.memory_mb as nat),
        r.used_ram_mb == total_of(hvs@, |h: Hypervisor| h.memory_mb_used as nat),
        r.total_disk_gb == total_of(hvs@, |h: Hypervisor| h.local_gb as nat),
        r.used_disk_gb == total_of(hvs@, |h: Hypervisor| h.local_gb_used as nat),
        r.total_vms == total_of(hvs@, |h: Hypervisor| h.running_vms as nat),
{
    let ghost fa = |h: Hypervisor| h.vcpus as nat;
    let ghost fb = |h: Hypervisor| h.vcpus_used as nat;
    let ghost fc = |h: Hypervisor| h.memory_mb as nat;
    let ghost fd = |h: Hypervisor| h.memory_mb_used as nat;
    let ghost fe = |h: Hypervisor| h.local_gb as nat;
    let ghost ff = |h: Hypervisor| h.local_gb_used as nat;
    let ghost fg = |h: Hypervisor| h.running_vms as nat;
    let mut r = InfraTotals {
        total_vcpus: 0,
        used_vcpus: 0,
        total_ram_mb: 0,
        used_ram_mb: 0,
        total_disk_gb: 0,
        used_disk_gb: 0,
        total_vms: 0,
    };
    let mut i: usize = 0;
    while i < hvs.len()
        invariant
            i <= hvs@.len(),
            hvs@.len() <= 0xffff_ffff,
            fa == (|h: Hypervisor| h.vcpus as nat),
            fb == (|h: Hypervisor| h.vcpus_used as nat),
            fc == (|h: Hypervisor| h.memory_mb as nat),
            fd == (|h: Hypervisor| h.memory_mb_used as nat),
            fe == (|h: Hypervisor| h.local_gb as nat),
            ff == (|h: Hypervisor| h.local_gb_used as nat),
            fg == (|h: Hypervisor| h.running_vms as nat),
            r.total_vcpus == total_of(hvs@.take(i as int), fa),
            r.used_vcpus == total_of(hvs@.take(i as int), fb),
            r.total_ram_mb == total_of(hvs@.take(i as int), fc),
            r.used_ram_mb == total_of(hvs@.take(i as int), fd),
            r.total_disk_gb == total_of(hvs@.take(i as int), fe),
            r.used_disk_gb == total_of(hvs@.take(i as int), ff),
            r.total_vms == total_of(hvs@.take(i as int), fg),
        decreases hvs@.len() - i,
    {
        let h = &hvs[i];
        proof {
            lemma_total_step(hvs@, fa, i as int);
            lemma_total_step(hvs@, fb, i as int);
            lemma_total_step(hvs@, fc, i as int);
            lemma_total_step(hvs@, fd, i as int);
            lemma_total_step(hvs@, fe, i as int);
            lemma_total_step(hvs@, ff, i as int);
            lemma_total_step(hvs@, fg, i as int);
        }
        r.total_vcpus = r.total_vcpus + h.vcpus as u64;
        r.used_vcpus = r.used_vcpus + h.vcpus_used as u64;
        r.total_ram_mb = r.total_ram_mb + h.memory_mb as u64;
        r.used_ram_mb = r.used_ram_mb + h.memory_mb_used as u64;
        r.total_disk_gb = r.total_disk_gb + h.local_gb as u64;
        r.used_disk_gb = r.used_disk_gb + h.local_gb_used as u64;
        r.total_vms = r.total_vms + h.running_vms as u64;
        i = i + 1;
    }
    proof {
        assert(hvs@.take(hvs@.len() as int) =~= hvs@);
    }
    r
}

/// The sums the allocation panel shows: vCPUs and whole GB of RAM (each
/// host's MB cut down to GB before adding), used and in all, and how many
/// hosts are up and down.
#[derive(Debug, Clone, Copy, PartialEq, Eq, Structural)]
pub struct HostLoadSummary {
    pub total_vcpus: u64,
    pub used_vcpus: u64,
    pub total_ram_gb: u64,
    pub used_ram_gb: u64,
    pub hosts_up: u32,
    pub hosts_down: u32,
}

/// Whether a hypervisor is up and enabled.
pub fn hypervisor_is_up(h: &Hypervisor) -> (r: bool)
    ensures
        r == host_up(*h),
{
    crate::text::str_eq(h.state.as_str(), "up") && crate::text::str_eq(h.status.as_str(), "enabled")
}

/// Add up the hosts' vCPUs and RAM and count them by state.
pub fn host_load_summary(hvs: &Vec<Hypervisor>) -> (r: HostLoadSummary)
    requires
        hvs@.len() <= 0xffff_ffff,
    ensures
        r.total_vcpus == total_of(hvs@, |h: Hypervisor| h.vcpus as nat),
        r.used_vcpus == total_of(hvs@, |h: Hypervisor| h.vcpus_used as nat),
        r.total_ram_gb == total_of(hvs@, |h: Hypervisor| (h.memory_mb / 1024) as nat),
        r.used_ram_gb == total_of(hvs@, |h: Hypervisor| (h.memory_mb_used / 1024) as nat),
        r.hosts_up == total_of(hvs@, |h: Hypervisor| up_one(h)),
        r.hosts_down == total_of(hvs@, |h: Hypervisor| down_one(h)),
        r.hosts_up + r.hosts_down == hvs@.len(),
{
    let ghost fa = |h: Hypervisor| h.vcpus as nat;
    let ghost fb = |h: Hypervisor| h.vcpus_used as nat;
    let ghost fc = |h: Hypervisor| (h.memory_mb / 1024) as nat;
    let ghost fd = |h: Hypervisor| (h.memory_mb_used / 1024) as nat;
    let ghost fu = |h: Hypervisor| up_one(h);
    let ghost fw = |h: Hypervisor| down_one(h);
    let mut r = HostLoadSummary { total_vcpus: 0, used_vcpus: 0, total_ram_gb: 0, used_ram_gb: 0, hosts_up: 0, hosts_down: 0 };
    let mut i: usize = 0;
    while i < hvs.len()
        invariant
            i <= hvs@.len(),
            hvs@.len() <= 0xffff_ffff,
            fa == (|h: Hypervisor| h.vcpus as nat),
            fb == (|h: Hypervisor| h.vcpus_used as nat),
            fc == (|h: Hypervisor| (h.memory_mb / 1024) as nat),
            fd == (|h: Hypervisor| (h.memory_mb_used / 1024) as nat),
            fu == (|h: Hypervisor| up_one(h)),
            fw == (|h: Hypervisor| down_one(h)),
            r.total_vcpus == total_of(hvs@.take(i as int), fa),
            r.used_vcpus == total_of(hvs@.take(i as int), fb),
            r.total_ram_gb == total_of(hvs@.take(i as int), fc),
            r.used_ram_gb == total_of(hvs@.take(i as int), fd),
            r.hosts_up == total_of(hvs@.take(i as int), fu),
            r.hosts_down == total_of(hvs@.take(i as int), fw),
            r.hosts_up + r.hosts_down == i,
        decreases hvs@.len() - i,
    {
        let h = &hvs[i];
        proof {
            lemma_total_step(hvs@, fa, i as int);
            lemma_total_step(hvs@, fb, i as int);
            lemma_total_step(hvs@, fc, i as int);
            lemma_total_step(hvs@, fd, i as int);
            lemma_total_step(hvs@, fu, i as int);
            lemma_total_step(hvs@, fw, i as int);
        }
        r.total_vcpus = r.total_vcpus + h.vcpus as u64;
        r.used_vcpus = r.used_vcpus + h.vcpus_used as u64;
        r.total_ram_gb = r.total_ram_gb + (h.memory_mb / 1024) as u64;
        r.used_ram_gb = r.used_ram_gb + (h.memory_mb_used / 1024) as u64;
        if hypervisor_is_up(h) {
            r.hosts_up = r.hosts_up + 1;
        } else {
            r.hosts_down = r.hosts_down + 1;
        }
        i = i + 1;
    }
    proof {
        assert(hvs@.take(hvs@.len() as int) =~= hvs@);
    }
    r
}

} // verus!
