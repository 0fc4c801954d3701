//! Results and notifications the application loop hands to the screens.
use vstd::prelude::*;
use crate::models::cinder::{Volume, VolumeSnapshot};
use crate::models::glance::Image;
use crate::models::keystone::{Project, User};
use crate::models::neutron::{FloatingIp, Network, NetworkAgent, Port, SecurityGroup, SecurityGroupRule};
use crate::models::nova::{Aggregate, ComputeService, Flavor, Hypervisor, Server, ServerMigration};
use crate::port::types::Subnet;

verus! {

/// An outcome of a request, or a notification, delivered to every screen.
#[derive(Debug, PartialEq)]
pub enum AppEvent {
    ApiError { operation: String, message: String },
    // Compute
    ServersLoaded(Vec<Server>),
    ServerCreated(Server),
    ServerDeleted { id: String, name: String },
    ServerRebooted { id: String },
    ServerStarted { id: String },
    ServerStopped { id: String },
    ServerResized { id: String },
    ResizeConfirmed { id: String },
    ResizeReverted { id: String },
    MigrationProgressLoaded { server_id: String, migration: ServerMigration },
    ServerLiveMigrated { id: String },
    MigrationConfirmed { id: String },
    MigrationReverted { id: String },
    ServerEvacuated { id: String },
    MigrationPollingStopped { id: String },
    FlavorsLoaded(Vec<Flavor>),
    FlavorCreated(Flavor),
    FlavorDeleted { id: String },
    HypervisorsLoaded(Vec<Hypervisor>),
    AggregatesLoaded(Vec<Aggregate>),
    ComputeServicesLoaded(Vec<ComputeService>),
    ServerEvacuateResult { id: String, result: Result<(), String> },
    ComputeServiceToggled { hostname: String, enabled: bool },
    // Network
    NetworksLoaded(Vec<Network>),
    NetworkCreated(Network),
    SubnetsLoaded { network_id: String, subnets: Vec<Subnet> },
    PortsLoaded { server_id: String, ports: Vec<Port> },
    SecurityGroupsLoaded(Vec<SecurityGroup>),
    SecurityGroupCreated(SecurityGroup),
    SecurityGroupDeleted { id: String },
    SecurityGroupRuleCreated(SecurityGroupRule),
    SecurityGroupRuleDeleted { id: String },
    FloatingIpsLoaded(Vec<FloatingIp>),
    FloatingIpCreated(FloatingIp),
    FloatingIpDeleted { id: String },
    FloatingIpAssociated(FloatingIp),
    FloatingIpDisassociated(FloatingIp),
    AgentsLoaded(Vec<NetworkAgent>),
    // Block storage
    VolumesLoaded(Vec<Volume>),
    VolumeCreated(Volume),
    VolumeDeleted { id: String },
    VolumeExtended { id: String },
    VolumeAttached { volume_id: String, server_id: String },
    VolumeDetached { volume_id: String },
    VolumeForceDetached { volume_id: String },
    VolumeStateReset { volume_id: String },
    SnapshotsLoaded(Vec<VolumeSnapshot>),
    SnapshotCreated(VolumeSnapshot),
    SnapshotDeleted { id: String },
    // Images
    ImagesLoaded(Vec<Image>),
    ImageCreated(Image),
    ImageDeleted { id: String },
    // Identity
    ProjectsLoaded(Vec<Project>),
    ProjectCreated(Project),
    ProjectDeleted { id: String },
    UsersLoaded(Vec<User>),
    UserCreated(User),
    UserDeleted { id: String },
}

} // verus!
