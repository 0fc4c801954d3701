use ostui::action::Action;
use ostui::event::AppEvent;
use ostui::models::cinder::{Volume, VolumeSnapshot};
use ostui::models::glance::Image;
use ostui::models::keystone::Project;
use ostui::models::neutron::{FloatingIp, Network, SecurityGroup};
use ostui::models::nova::{Flavor, FlavorRef, Server};
use ostui::module::flavor::FlavorModule;
use ostui::module::floating_ip::FloatingIpModule;
use ostui::module::image::ImageModule;
use ostui::module::network::NetworkModule;
use ostui::module::project::ProjectModule;
use ostui::module::security_group::SecurityGroupModule;
use ostui::module::snapshot::SnapshotModule;
use ostui::module::usage::UsageModule;
use ostui::module::volume::VolumeModule;
use ostui::module::ViewState;

fn api_error(operation: &str, message: &str) -> AppEvent {
    AppEvent::ApiError { operation: operation.into(), message: message.into() }
}

fn make_server(id: &str, name: &str) -> Server {
    Server {
        id: id.into(),
        name: name.into(),
        status: "ACTIVE".into(),
        addresses: vec![],
        flavor: FlavorRef { id: "f1".into(), original_name: None, vcpus: None, ram: None, disk: None },
        image: None,
        key_name: None,
        availability_zone: None,
        created: "2026-01-01".into(),
        updated: None,
        tenant_id: None,
        host_id: None,
        host: None,
        volumes_attached: vec![],
        security_groups: vec![],
    }
}

fn flavors() -> Vec<Flavor> {
    vec![Flavor { id: "f1".into(), name: "m1.small".into(), vcpus: 2, ram: 4096, disk: 40, is_public: true }]
}

fn fips() -> Vec<FloatingIp> {
    vec![FloatingIp {
        id: "fip-1".into(),
        floating_ip_address: "203.0.113.10".into(),
        status: "ACTIVE".into(),
        port_id: None,
        floating_network_id: "ext-net-1".into(),
        fixed_ip_address: None,
        router_id: None,
        tenant_id: None,
    }]
}

fn images() -> Vec<Image> {
    vec![Image {
        id: "img-1".into(),
        name: "Ubuntu 22.04".into(),
        status: "active".into(),
        disk_format: Some("qcow2".into()),
        container_format: Some("bare".into()),
        size: Some(1_073_741_824),
        visibility: "public".into(),
        min_disk: 10,
        min_ram: 512,
        checksum: None,
        created_at: None,
    }]
}

fn networks() -> Vec<Network> {
    vec![Network {
        id: "net-1".into(),
        name: "private".into(),
        status: "ACTIVE".into(),
        description: None,
        admin_state_up: true,
        external: false,
        shared: false,
        mtu: Some(1500),
        port_security_enabled: None,
        subnets: vec![],
        provider_network_type: None,
        provider_physical_network: None,
        provider_segmentation_id: None,
        tenant_id: None,
    }]
}

fn sgs() -> Vec<SecurityGroup> {
    vec![SecurityGroup { id: "sg-1".into(), name: "default".into(), description: None, security_group_rules: vec![], tenant_id: None }]
}

fn snapshots() -> Vec<VolumeSnapshot> {
    vec![VolumeSnapshot {
        id: "snap-1".into(),
        name: Some("daily".into()),
        status: "available".into(),
        size: 100,
        volume_id: "vol-1".into(),
        created_at: None,
        tenant_id: None,
    }]
}

fn volumes() -> Vec<Volume> {
    vec![Volume {
        id: "vol-1".into(),
        name: Some("data".into()),
        description: None,
        status: "available".into(),
        size: 100,
        volume_type: Some("ssd".into()),
        encrypted: false,
        bootable: "false".into(),
        attachments: vec![],
        availability_zone: Some("az1".into()),
        created_at: None,
    }]
}

fn projects() -> Vec<Project> {
    vec![
        Project { id: "p1".into(), name: "admin".into(), description: None, enabled: true, domain_id: Some("default".into()) },
        Project { id: "p2".into(), name: "demo".into(), description: None, enabled: true, domain_id: Some("default".into()) },
    ]
}

#[test]
fn mod_test_initial_state_is_list() {
    let m = FlavorModule::new();
    assert_eq!(*m.view_state(), ViewState::List);
    assert!(m.flavors().is_empty());
    let m = FloatingIpModule::new();
    assert_eq!(*m.view_state(), ViewState::List);
    assert!(m.floating_ips().is_empty());
    let m = ImageModule::new();
    assert_eq!(*m.view_state(), ViewState::List);
    assert!(m.images().is_empty());
    let m = NetworkModule::new();
    assert_eq!(*m.view_state(), ViewState::List);
    assert!(m.networks().is_empty());
    let m = SecurityGroupModule::new();
    assert_eq!(*m.view_state(), ViewState::List);
    assert!(m.security_groups().is_empty());
    let m = SnapshotModule::new();
    assert_eq!(*m.view_state(), ViewState::List);
    assert!(m.snapshots().is_empty());
    let m = VolumeModule::new();
    assert_eq!(*m.view_state(), ViewState::List);
    assert!(m.volumes().is_empty());
}

#[test]
fn mod_test_handle_event_api_error() {
    let mut m = FloatingIpModule::new();
    m.handle_event(&AppEvent::FloatingIpsLoaded(fips()));
    m.handle_event(&api_error("create", "pool exhausted"));
    assert_eq!(m.error_message(), Some("create: pool exhausted"));

    let mut m = ImageModule::new();
    m.handle_event(&AppEvent::ImagesLoaded(images()));
    m.handle_event(&api_error("delete", "forbidden"));
    assert_eq!(m.error_message(), Some("delete: forbidden"));

    let mut m = NetworkModule::new();
    m.handle_event(&AppEvent::NetworksLoaded(networks()));
    m.handle_event(&api_error("list", "timeout"));
    assert_eq!(m.error_message(), Some("list: timeout"));

    let mut m = SecurityGroupModule::new();
    m.handle_event(&AppEvent::SecurityGroupsLoaded(sgs()));
    m.handle_event(&api_error("delete", "conflict"));
    assert_eq!(m.error_message(), Some("delete: conflict"));

    let mut m = SnapshotModule::new();
    m.handle_event(&AppEvent::SnapshotsLoaded(snapshots()));
    m.handle_event(&api_error("delete", "in-use"));
    assert_eq!(m.error_message(), Some("delete: in-use"));

    let mut m: UsageModule<u8> = UsageModule::new();
    m.handle_event(&api_error("FetchUsage", "timeout"));
    assert!(!m.is_loading());
    assert!(m.error_message().is_some());
    assert!(m.error_message().is_some_and(|e| e.contains("timeout")));

    let mut m = VolumeModule::new();
    m.handle_event(&AppEvent::VolumesLoaded(volumes()));
    m.handle_event(&api_error("delete", "in-use"));
    assert_eq!(m.error_message(), Some("delete: in-use"));
}

#[test]
fn mod_test_help_hint_list() {
    let mut m = FloatingIpModule::new();
    m.handle_event(&AppEvent::FloatingIpsLoaded(fips()));
    assert_eq!(m.help_hint(), "c:Create a:Associate x:Disassociate D:Delete r:Refresh");

    let mut m = NetworkModule::new();
    m.handle_event(&AppEvent::NetworksLoaded(networks()));
    assert_eq!(m.help_hint(), "Enter:Detail c:Create r:Refresh");

    let mut m = ProjectModule::new();
    m.handle_event(&AppEvent::ProjectsLoaded(projects()));
    assert_eq!(m.help_hint(), "Enter:Detail c:Create d:Delete r:Refresh");

    let mut m = SecurityGroupModule::new();
    m.handle_event(&AppEvent::SecurityGroupsLoaded(sgs()));
    assert_eq!(m.help_hint(), "Enter:Detail c:Create d:Delete r:Refresh");

    let mut m = SnapshotModule::new();
    m.handle_event(&AppEvent::SnapshotsLoaded(snapshots()));
    assert_eq!(m.help_hint(), "Enter:Detail d:Delete r:Refresh");

    let mut m = VolumeModule::new();
    m.handle_event(&AppEvent::VolumesLoaded(volumes()));
    assert_eq!(m.help_hint(), "Enter:Detail c:Create a:Attach D:Delete r:Refresh");
}

#[test]
fn mod_test_help_hint_list_admin() {
    let mut m = FlavorModule::new();
    m.set_admin(true);
    m.handle_event(&AppEvent::FlavorsLoaded(flavors()));
    assert_eq!(m.help_hint(), "c:Create d:Delete r:Refresh");

    let mut m = ImageModule::new();
    m.set_admin(true);
    m.handle_event(&AppEvent::ImagesLoaded(images()));
    assert_eq!(m.help_hint(), "Enter:Detail c:Create d:Delete r:Refresh");
}

#[test]
fn mod_test_help_hint_list_non_admin() {
    let mut m = FlavorModule::new();
    m.set_admin(false);
    m.handle_event(&AppEvent::FlavorsLoaded(flavors()));
    assert_eq!(m.help_hint(), "r:Refresh");

    let mut m = ImageModule::new();
    m.set_admin(false);
    m.handle_event(&AppEvent::ImagesLoaded(images()));
    assert_eq!(m.help_hint(), "Enter:Detail r:Refresh");
}

#[test]
fn mod_test_handle_event_servers_loaded_caches() {
    let mut m = FloatingIpModule::new();
    m.handle_event(&AppEvent::FloatingIpsLoaded(fips()));
    m.handle_event(&AppEvent::ServersLoaded(vec![make_server("srv-1", "web-01")]));
    assert_eq!(m.cached_servers().len(), 1);

    let mut m = VolumeModule::new();
    m.handle_event(&AppEvent::VolumesLoaded(volumes()));
    m.handle_event(&AppEvent::ServersLoaded(vec![make_server("srv-1", "web")]));
    assert_eq!(m.cached_servers().len(), 1);
}

#[test]
fn mod_test_event_created() {
    let mut m = ProjectModule::new();
    m.handle_event(&AppEvent::ProjectsLoaded(projects()));
    m.open_create_form();
    assert_eq!(*m.view_state(), ViewState::Create);
    m.handle_event(&AppEvent::ProjectCreated(Project {
        id: "p3".into(),
        name: "new".into(),
        description: None,
        enabled: true,
        domain_id: Some("default".into()),
    }));
    assert_eq!(*m.view_state(), ViewState::List);
    assert!(matches!(m.take_actions()[0], Action::FetchProjects));
}

#[test]
fn mod_test_event_deleted() {
    let mut m = ProjectModule::new();
    m.handle_event(&AppEvent::ProjectsLoaded(projects()));
    m.handle_event(&AppEvent::ProjectDeleted { id: "p1".into() });
    assert!(matches!(m.take_actions()[0], Action::FetchProjects));
}

#[test]
fn mod_test_is_modal_false_by_default() {
    let mut m = VolumeModule::new();
    m.handle_event(&AppEvent::VolumesLoaded(volumes()));
    assert!(!m.is_modal());
}
