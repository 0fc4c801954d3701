//! Requests the screens hand to the application loop.
use vstd::prelude::*;
use crate::models::common::Route;
use crate::port::types::{EvacuateParams, FlavorCreateParams, ImageCreateParams, NetworkCreateParams, ProjectCreateParams, SecurityGroupCreateParams, ServerCreateParams, SecurityGroupRuleCreateParams, VolumeCreateParams};

verus! {

/// Something the application loop should do: fetch or change cloud
/// resources, move between screens, or show a message.
#[derive(Debug, Clone, PartialEq)]
pub enum Action {
    // Navigation and UI
    Navigate(Route),
    Back,
    FocusSidebar,
    EnterFormMode,
    ExitFormMode,
    ShowToast { message: String },
    // Fetches
    FetchServers,
    FetchFlavors,
    FetchNetworks,
    FetchSubnets { network_id: String },
    FetchPorts { server_id: String },
    FetchSecurityGroups,
    FetchFloatingIps,
    FetchVolumes,
    FetchSnapshots,
    FetchImages,
    FetchProjects,
    FetchUsers,
    FetchHypervisors,
    FetchAggregates,
    FetchComputeServices,
    FetchAgents,
    FetchUsage { start: String, end: String },
    // Compute
    CreateServer(ServerCreateParams),
    DeleteServer { id: String, name: String },
    StartServer { id: String },
    StopServer { id: String },
    RebootServer { id: String, hard: bool },
    ResizeServer { id: String, flavor_id: String },
    ConfirmResize { id: String },
    RevertResize { id: String },
    LiveMigrateServer { id: String, host: Option<String> },
    ColdMigrateServer { id: String },
    ConfirmMigration { id: String },
    RevertMigration { id: String },
    EvacuateServer { id: String, params: EvacuateParams },
    CreateFlavor(FlavorCreateParams),
    DeleteFlavor { id: String },
    // Network
    CreateNetwork(NetworkCreateParams),
    CreateSecurityGroup(SecurityGroupCreateParams),
    DeleteSecurityGroup { id: String },
    CreateSecurityGroupRule(SecurityGroupRuleCreateParams),
    DeleteSecurityGroupRule { rule_id: String },
    CreateFloatingIp { network_id: String },
    DeleteFloatingIp { id: String },
    AssociateFloatingIp { fip_id: String, port_id: String },
    DisassociateFloatingIp { fip_id: String },
    // Block storage
    CreateVolume(VolumeCreateParams),
    DeleteVolume { id: String, force: bool },
    AttachVolume { volume_id: String, server_id: String, device: Option<String> },
    DetachVolume { volume_id: String, server_id: String, attachment_id: String },
    ForceDetachVolume { volume_id: String, server_id: String, attachment_id: String },
    ForceResetVolumeState { volume_id: String, target_state: String },
    DeleteSnapshot { id: String },
    // Images
    CreateImage(ImageCreateParams),
    DeleteImage { id: String },
    // Identity
    CreateProject(ProjectCreateParams),
    DeleteProject { id: String },
    DeleteUser { id: String },
}

} // verus!
