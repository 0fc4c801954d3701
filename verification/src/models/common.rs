//! Routes of the console.
use vstd::prelude::*;

verus! {

/// Every screen the console can show.
#[derive(Debug, Clone, Copy, PartialEq, Eq, Structural, Hash)]
pub enum Route {
    Servers,
    ServerDetail,
    ServerCreate,
    Flavors,
    Networks,
    NetworkDetail,
    SecurityGroups,
    SecurityGroupDetail,
    FloatingIps,
    Volumes,
    VolumeDetail,
    VolumeCreate,
    Snapshots,
    Images,
    ImageDetail,
    Projects,
    Users,
    Hosts,
    Usage,
    Migrations,
    Aggregates,
    ComputeServices,
    Hypervisors,
    Agents,
}

} // verus!
