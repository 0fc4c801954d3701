//! Key handling of the resource screens, a key at a time as the screen
//! receives it: an open dialog answers first, then the view's handler;
//! in a create view the form's Esc reaches the screen as a cancel.
use ostui::action::Action;
use ostui::event::AppEvent;
use ostui::models::cinder::{Volume, VolumeSnapshot};
use ostui::models::nova::{FlavorRef, ImageRef, Server};
use ostui::module::server::ServerModule;
use ostui::module::volume::VolumeModule;
use ostui::models::glance::Image;
use ostui::models::neutron::{Network, SecurityGroup, SecurityGroupRule};
use ostui::models::nova::Flavor;
use ostui::models::neutron::FloatingIp;
use ostui::module::flavor::FlavorModule;
use ostui::module::floating_ip::FloatingIpModule;
use ostui::module::image::ImageModule;
use ostui::models::keystone::{Project, User};
use ostui::module::network::NetworkModule;
use ostui::module::project::ProjectModule;
use ostui::module::user::UserModule;
use ostui::module::security_group::SecurityGroupModule;
use ostui::module::snapshot::SnapshotModule;
use ostui::module::ViewState;
use ostui::ui::form::{FormAction, FormValue};
use ostui::ui::key::Key;

fn form_outcome(key: Key) -> FormAction {
    match key {
        Key::Esc => FormAction::Cancel,
        _ => FormAction::Pending,
    }
}

fn press_flavor(m: &mut FlavorModule, key: Key) -> Option<Action> {
    if let Some(r) = m.handle_confirm_key(key) {
        return r;
    }
    match m.view_state() {
        ViewState::List => m.handle_list_key(key),
        ViewState::Create => m.handle_create_key(form_outcome(key)),
        ViewState::Detail(_) => None,
    }
}

fn press_image(m: &mut ImageModule, key: Key) -> Option<Action> {
    if let Some(r) = m.handle_confirm_key(key) {
        return r;
    }
    match m.view_state() {
        ViewState::List => m.handle_list_key(key),
        ViewState::Detail(_) => m.handle_detail_key(key),
        ViewState::Create => m.handle_create_key(form_outcome(key)),
    }
}

fn press_network(m: &mut NetworkModule, key: Key) -> Option<Action> {
    match m.view_state() {
        ViewState::List => m.handle_list_key(key),
        ViewState::Detail(_) => m.handle_detail_key(key),
        ViewState::Create => m.handle_create_key(form_outcome(key)),
    }
}

fn press_sg(m: &mut SecurityGroupModule, key: Key) -> Option<Action> {
    if let Some(r) = m.handle_confirm_key(key) {
        return r;
    }
    match m.view_state() {
        ViewState::List => m.handle_list_key(key),
        ViewState::Detail(_) => m.handle_detail_key(key),
        ViewState::Create => m.handle_create_key(form_outcome(key)),
    }
}

fn press_snapshot(m: &mut SnapshotModule, key: Key) -> Option<Action> {
    m.handle_key(key)
}

fn press_project(m: &mut ProjectModule, key: Key) -> Option<Action> {
    if let Some(r) = m.handle_confirm_key(key) {
        return r;
    }
    match m.view_state() {
        ViewState::List => m.handle_list_key(key),
        ViewState::Detail(_) => m.handle_detail_key(key),
        ViewState::Create => m.handle_create_key(form_outcome(key)),
    }
}

fn press_user(m: &mut UserModule, key: Key) -> Option<Action> {
    m.handle_key(key)
}

fn make_project(id: &str, name: &str) -> Project {
    Project { id: id.into(), name: name.into(), description: None, enabled: true, domain_id: Some("default".into()) }
}

fn project_setup() -> ProjectModule {
    let mut m = ProjectModule::new();
    m.handle_event(&AppEvent::ProjectsLoaded(vec![make_project("p1", "admin"), make_project("p2", "demo")]));
    m
}

fn make_user(id: &str, name: &str) -> User {
    User { id: id.into(), name: name.into(), email: None, enabled: true, default_project_id: None, domain_id: Some("default".into()) }
}

fn user_setup() -> UserModule {
    let mut m = UserModule::new();
    m.handle_event(&AppEvent::UsersLoaded(vec![make_user("u1", "admin"), make_user("u2", "demo")]));
    m
}

fn press_volume(m: &mut VolumeModule, key: Key) -> Option<Action> {
    if let Some(r) = m.handle_confirm_key(key) {
        return r;
    }
    match m.view_state() {
        ViewState::List => m.handle_list_key(key, false),
        ViewState::Detail(_) => m.handle_detail_key(key, false),
        ViewState::Create => m.handle_create_key(form_outcome(key)),
    }
}

fn press_server(m: &mut ServerModule, key: Key) -> Option<Action> {
    if let Some(r) = m.handle_confirm_key(key) {
        return r;
    }
    match m.view_state() {
        ViewState::List => m.handle_list_key(key),
        ViewState::Detail(_) => m.handle_detail_key(key),
        ViewState::Create => m.handle_create_key(form_outcome(key)),
    }
}

fn make_volume(id: &str, name: &str, status: &str) -> Volume {
    Volume {
        id: id.into(),
        name: Some(name.into()),
        description: None,
        status: status.into(),
        size: 100,
        volume_type: Some("ssd".into()),
        encrypted: false,
        bootable: "false".into(),
        attachments: vec![],
        availability_zone: Some("az1".into()),
        created_at: None,
    }
}

fn volume_setup() -> VolumeModule {
    let mut module = VolumeModule::new();
    let volumes = vec![
        make_volume("vol-1", "data", "available"),
        make_volume("vol-2", "boot", "in-use"),
        make_volume("vol-3", "temp", "error"),
    ];
    module.handle_event(&AppEvent::VolumesLoaded(volumes));
    module
}

fn make_test_server(id: &str, name: &str, status: &str) -> Server {
    Server {
        id: id.into(),
        name: name.into(),
        status: status.into(),
        addresses: vec![],
        flavor: FlavorRef {
            id: "flv-1".into(),
            original_name: Some("m1.small".into()),
            vcpus: Some(2),
            ram: Some(4096),
            disk: Some(40),
        },
        image: Some(ImageRef { id: "img-1".into() }),
        key_name: None,
        availability_zone: None,
        created: "2026-01-01T00:00:00Z".into(),
        updated: None,
        tenant_id: None,
        host_id: None,
        host: None,
        volumes_attached: vec![],
        security_groups: vec![],
    }
}

fn server_setup() -> ServerModule {
    let mut module = ServerModule::new();
    let servers = vec![
        make_test_server("s1", "web-01", "ACTIVE"),
        make_test_server("s2", "web-02", "SHUTOFF"),
        make_test_server("s3", "db-01", "ERROR"),
    ];
    module.handle_event(&AppEvent::ServersLoaded(servers));
    module
}

fn press_fip(m: &mut FloatingIpModule, key: Key) -> Option<Action> {
    if let Some(r) = m.handle_confirm_key(key) {
        return r;
    }
    match m.view_state() {
        ViewState::List => m.handle_list_key(key),
        ViewState::Create => m.handle_create_key(form_outcome(key)),
        ViewState::Detail(_) => None,
    }
}

fn make_fip(id: &str, ip: &str, status: &str) -> FloatingIp {
    FloatingIp {
        id: id.into(),
        floating_ip_address: ip.into(),
        status: status.into(),
        port_id: None,
        floating_network_id: "ext-net-1".into(),
        fixed_ip_address: None,
        router_id: None,
        tenant_id: None,
    }
}

fn fip_setup() -> FloatingIpModule {
    let mut module = FloatingIpModule::new();
    let fips = vec![
        make_fip("fip-1", "203.0.113.10", "ACTIVE"),
        make_fip("fip-2", "203.0.113.11", "DOWN"),
        make_fip("fip-3", "203.0.113.12", "ACTIVE"),
    ];
    module.handle_event(&AppEvent::FloatingIpsLoaded(fips));
    module
}

fn make_flavor(id: &str, name: &str) -> Flavor {
    Flavor { id: id.into(), name: name.into(), vcpus: 2, ram: 4096, disk: 40, is_public: true }
}

fn flavor_setup(is_admin: bool) -> FlavorModule {
    let mut module = FlavorModule::new();
    module.set_admin(is_admin);
    let flavors = vec![make_flavor("f1", "m1.small"), make_flavor("f2", "m1.medium"), make_flavor("f3", "m1.large")];
    module.handle_event(&AppEvent::FlavorsLoaded(flavors));
    module
}

fn make_image(id: &str, name: &str, status: &str) -> Image {
    Image {
        id: id.into(),
        name: name.into(),
        status: status.into(),
        disk_format: Some("qcow2".into()),
        container_format: Some("bare".into()),
        size: Some(1_073_741_824),
        visibility: "public".into(),
        min_disk: 10,
        min_ram: 512,
        checksum: None,
        created_at: None,
    }
}

fn image_setup(is_admin: bool) -> ImageModule {
    let mut module = ImageModule::new();
    module.set_admin(is_admin);
    let images = vec![
        make_image("img-1", "Ubuntu 22.04", "active"),
        make_image("img-2", "CentOS 9", "active"),
        make_image("img-3", "Windows", "deactivated"),
    ];
    module.handle_event(&AppEvent::ImagesLoaded(images));
    module
}

fn make_network(id: &str, name: &str, status: &str) -> Network {
    Network {
        id: id.into(),
        name: name.into(),
        status: status.into(),
        description: None,
        admin_state_up: true,
        external: false,
        shared: false,
        mtu: Some(1500),
        port_security_enabled: None,
        subnets: vec![],
        provider_network_type: None,
        provider_physical_network: None,
        provider_segmentation_id: None,
        tenant_id: None,
    }
}

fn network_setup() -> NetworkModule {
    let mut module = NetworkModule::new();
    let networks = vec![
        make_network("net-1", "private", "ACTIVE"),
        make_network("net-2", "public", "ACTIVE"),
        make_network("net-3", "mgmt", "DOWN"),
    ];
    module.handle_event(&AppEvent::NetworksLoaded(networks));
    module
}

fn make_sg(id: &str, name: &str) -> SecurityGroup {
    SecurityGroup {
        id: id.into(),
        name: name.into(),
        description: Some("Test SG".into()),
        security_group_rules: vec![
            SecurityGroupRule {
                id: format!("{id}-rule-1"),
                direction: "ingress".into(),
                protocol: Some("tcp".into()),
                port_range_min: Some(22),
                port_range_max: Some(22),
                remote_ip_prefix: Some("0.0.0.0/0".into()),
                remote_group_id: None,
                ethertype: "IPv4".into(),
            },
            SecurityGroupRule {
                id: format!("{id}-rule-2"),
                direction: "egress".into(),
                protocol: None,
                port_range_min: None,
                port_range_max: None,
                remote_ip_prefix: None,
                remote_group_id: None,
                ethertype: "IPv4".into(),
            },
        ],
        tenant_id: None,
    }
}

fn sg_setup() -> SecurityGroupModule {
    let mut module = SecurityGroupModule::new();
    let sgs = vec![make_sg("sg-1", "default"), make_sg("sg-2", "web"), make_sg("sg-3", "db")];
    module.handle_event(&AppEvent::SecurityGroupsLoaded(sgs));
    module
}

fn make_snapshot(id: &str, name: &str, status: &str) -> VolumeSnapshot {
    VolumeSnapshot {
        id: id.into(),
        name: Some(name.into()),
        status: status.into(),
        size: 100,
        volume_id: "vol-1".into(),
        created_at: Some("2026-01-15T00:00:00Z".into()),
        tenant_id: None,
    }
}

fn snapshot_setup() -> SnapshotModule {
    let mut module = SnapshotModule::new();
    let snaps = vec![
        make_snapshot("snap-1", "daily", "available"),
        make_snapshot("snap-2", "weekly", "available"),
        make_snapshot("snap-3", "failed", "error"),
    ];
    module.handle_event(&AppEvent::SnapshotsLoaded(snaps));
    module
}

// ---- flavor ----

#[test]
fn test_handle_key_navigation() {
    let mut module = flavor_setup(false);
    assert_eq!(module.selected_index(), 0);
    press_flavor(&mut module, Key::Char('j'));
    assert_eq!(module.selected_index(), 1);
    press_flavor(&mut module, Key::Char('k'));
    assert_eq!(module.selected_index(), 0);
}

#[test]
fn test_confirm_delete_flavor() {
    let mut module = flavor_setup(true);
    press_flavor(&mut module, Key::Char('d'));
    let action = press_flavor(&mut module, Key::Char('y'));
    assert!(matches!(action, Some(Action::DeleteFlavor { .. })));
}

#[test]
fn test_handle_key_r_fetches_flavors() {
    let mut module = flavor_setup(false);
    let action = press_flavor(&mut module, Key::Char('r'));
    assert!(matches!(action, Some(Action::FetchFlavors)));
}

// ---- network ----

#[test]
fn test_handle_key_r_fetches_networks() {
    let mut module = network_setup();
    let action = press_network(&mut module, Key::Char('r'));
    assert!(matches!(action, Some(Action::FetchNetworks)));
}

// ---- security groups ----

#[test]
fn test_handle_key_d_delete_sg_confirm() {
    let mut module = sg_setup();
    assert!(!module.confirm_is_active());
    press_sg(&mut module, Key::Char('d'));
    assert!(module.confirm_is_active());
}

#[test]
fn test_confirm_delete_sg() {
    let mut module = sg_setup();
    press_sg(&mut module, Key::Char('d'));
    let action = press_sg(&mut module, Key::Char('y'));
    assert!(matches!(action, Some(Action::DeleteSecurityGroup { .. })));
    assert!(!module.confirm_is_active());
}

#[test]
fn test_detail_delete_rule_confirm() {
    let mut module = sg_setup();
    press_sg(&mut module, Key::Enter); // go to detail
    press_sg(&mut module, Key::Char('d')); // delete rule
    assert!(module.confirm_is_active());
}

#[test]
fn test_detail_confirm_delete_rule_action() {
    let mut module = sg_setup();
    press_sg(&mut module, Key::Enter);
    press_sg(&mut module, Key::Char('d'));
    let action = press_sg(&mut module, Key::Char('y'));
    assert!(matches!(action, Some(Action::DeleteSecurityGroupRule { .. })));
}

#[test]
fn test_handle_key_r_fetches_sgs() {
    let mut module = sg_setup();
    let action = press_sg(&mut module, Key::Char('r'));
    assert!(matches!(action, Some(Action::FetchSecurityGroups)));
}

// ---- shared across screens ----

#[test]
fn mod_test_handle_key_c_admin_only() {
    let mut module = flavor_setup(false);
    press_flavor(&mut module, Key::Char('c'));
    assert_eq!(*module.view_state(), ViewState::List);
    assert!(!module.form_is_open());
    let mut module = flavor_setup(true);
    press_flavor(&mut module, Key::Char('c'));
    assert_eq!(*module.view_state(), ViewState::Create);
    assert!(module.form_is_open());

    let mut module = image_setup(false);
    press_image(&mut module, Key::Char('c'));
    assert_eq!(*module.view_state(), ViewState::List);
    assert!(!module.form_is_open());
    let mut module = image_setup(true);
    press_image(&mut module, Key::Char('c'));
    assert_eq!(*module.view_state(), ViewState::Create);
    assert!(module.form_is_open());
}

#[test]
fn mod_test_handle_key_d_admin_only() {
    let mut module = flavor_setup(false);
    press_flavor(&mut module, Key::Char('d'));
    assert!(!module.confirm_is_active());
    let mut module = flavor_setup(true);
    press_flavor(&mut module, Key::Char('d'));
    assert!(module.confirm_is_active());

    let mut module = image_setup(false);
    press_image(&mut module, Key::Char('d'));
    assert!(!module.confirm_is_active());
    let mut module = image_setup(true);
    press_image(&mut module, Key::Char('d'));
    assert!(module.confirm_is_active());
}

#[test]
fn mod_test_create_form_cancel_returns_to_list() {
    let mut module = flavor_setup(true);
    press_flavor(&mut module, Key::Char('c'));
    assert_eq!(*module.view_state(), ViewState::Create);
    press_flavor(&mut module, Key::Esc);
    assert_eq!(*module.view_state(), ViewState::List);
    assert!(!module.form_is_open());

    let mut module = image_setup(true);
    press_image(&mut module, Key::Char('c'));
    assert_eq!(*module.view_state(), ViewState::Create);
    press_image(&mut module, Key::Esc);
    assert_eq!(*module.view_state(), ViewState::List);
    assert!(!module.form_is_open());

    let mut module = network_setup();
    press_network(&mut module, Key::Char('c'));
    assert_eq!(*module.view_state(), ViewState::Create);
    press_network(&mut module, Key::Esc);
    assert_eq!(*module.view_state(), ViewState::List);
    assert!(!module.form_is_open());

    let mut module = sg_setup();
    press_sg(&mut module, Key::Char('c'));
    assert_eq!(*module.view_state(), ViewState::Create);
    press_sg(&mut module, Key::Esc);
    assert_eq!(*module.view_state(), ViewState::List);
    assert!(!module.form_is_open());

    let mut m = project_setup();
    press_project(&mut m, Key::Char('c'));
    assert_eq!(*m.view_state(), ViewState::Create);
    press_project(&mut m, Key::Esc);
    assert_eq!(*m.view_state(), ViewState::List);
    assert!(!m.form_is_open());

    let mut module = volume_setup();
    press_volume(&mut module, Key::Char('c'));
    assert_eq!(*module.view_state(), ViewState::Create);
    press_volume(&mut module, Key::Esc);
    assert_eq!(*module.view_state(), ViewState::List);
    assert!(!module.form_is_open());

    let mut module = server_setup();
    press_server(&mut module, Key::Char('c')); // open form
    assert_eq!(*module.view_state(), ViewState::Create);
    press_server(&mut module, Key::Esc); // cancel form
    assert_eq!(*module.view_state(), ViewState::List);
    assert!(module.form().is_none());

    let mut module = fip_setup();
    press_fip(&mut module, Key::Char('c'));
    assert_eq!(*module.view_state(), ViewState::Create);
    press_fip(&mut module, Key::Esc);
    assert_eq!(*module.view_state(), ViewState::List);
    assert!(!module.form_is_open());
}

#[test]
fn mod_test_help_hint_create() {
    let mut module = flavor_setup(true);
    press_flavor(&mut module, Key::Char('c'));
    assert_eq!(module.help_hint(), "Esc:Cancel Tab:Next Enter:Submit");

    let mut module = image_setup(true);
    press_image(&mut module, Key::Char('c'));
    assert_eq!(module.help_hint(), "Esc:Cancel Tab:Next Enter:Submit");

    let mut module = network_setup();
    press_network(&mut module, Key::Char('c'));
    assert_eq!(module.help_hint(), "Esc:Cancel Tab:Next Enter:Submit");

    let mut module = sg_setup();
    press_sg(&mut module, Key::Char('c'));
    assert_eq!(module.help_hint(), "Esc:Cancel Tab:Next Enter:Submit");

    let mut m = project_setup();
    press_project(&mut m, Key::Char('c'));
    assert_eq!(m.help_hint(), "Esc:Cancel Tab:Next Enter:Submit");

    let mut module = volume_setup();
    press_volume(&mut module, Key::Char('c'));
    assert_eq!(module.help_hint(), "Esc:Cancel Tab:Next Enter:Submit");

    let mut module = fip_setup();
    press_fip(&mut module, Key::Char('c'));
    assert_eq!(module.help_hint(), "Esc:Cancel Tab:Next Enter:Submit");
}

#[test]
fn mod_test_handle_key_j_k_navigation() {
    let mut module = image_setup(false);
    assert_eq!(module.selected_index(), 0);
    press_image(&mut module, Key::Char('j'));
    assert_eq!(module.selected_index(), 1);
    press_image(&mut module, Key::Char('k'));
    assert_eq!(module.selected_index(), 0);

    let mut module = network_setup();
    assert_eq!(module.selected_index(), 0);
    press_network(&mut module, Key::Char('j'));
    assert_eq!(module.selected_index(), 1);
    press_network(&mut module, Key::Char('k'));
    assert_eq!(module.selected_index(), 0);

    let mut module = sg_setup();
    assert_eq!(module.selected_index(), 0);
    press_sg(&mut module, Key::Char('j'));
    assert_eq!(module.selected_index(), 1);
    press_sg(&mut module, Key::Char('k'));
    assert_eq!(module.selected_index(), 0);

    let mut module = snapshot_setup();
    assert_eq!(module.selected_index(), 0);
    press_snapshot(&mut module, Key::Char('j'));
    assert_eq!(module.selected_index(), 1);
    press_snapshot(&mut module, Key::Char('k'));
    assert_eq!(module.selected_index(), 0);

    let mut module = volume_setup();
    assert_eq!(module.selected_index(), 0);
    press_volume(&mut module, Key::Char('j'));
    assert_eq!(module.selected_index(), 1);
    press_volume(&mut module, Key::Char('k'));
    assert_eq!(module.selected_index(), 0);

    let mut module = server_setup();
    assert_eq!(module.selected_index(), 0);
    press_server(&mut module, Key::Char('j'));
    assert_eq!(module.selected_index(), 1);
    press_server(&mut module, Key::Char('j'));
    assert_eq!(module.selected_index(), 2);
    // Can't go past end
    press_server(&mut module, Key::Char('j'));
    assert_eq!(module.selected_index(), 2);
    press_server(&mut module, Key::Char('k'));
    assert_eq!(module.selected_index(), 1);
    press_server(&mut module, Key::Char('k'));
    assert_eq!(module.selected_index(), 0);
    press_server(&mut module, Key::Char('k'));
    assert_eq!(module.selected_index(), 0);

    let mut module = fip_setup();
    assert_eq!(module.selected_index(), 0);
    press_fip(&mut module, Key::Char('j'));
    assert_eq!(module.selected_index(), 1);
    press_fip(&mut module, Key::Char('k'));
    assert_eq!(module.selected_index(), 0);
}

#[test]
fn mod_test_handle_key_c_opens_create() {
    let mut module = network_setup();
    press_network(&mut module, Key::Char('c'));
    assert_eq!(*module.view_state(), ViewState::Create);
    assert!(module.form_is_open());

    let mut module = sg_setup();
    press_sg(&mut module, Key::Char('c'));
    assert_eq!(*module.view_state(), ViewState::Create);
    assert!(module.form_is_open());

    let mut module = volume_setup();
    press_volume(&mut module, Key::Char('c'));
    assert_eq!(*module.view_state(), ViewState::Create);
    assert!(module.form_is_open());

    let mut module = server_setup();
    press_server(&mut module, Key::Char('c'));
    assert_eq!(*module.view_state(), ViewState::Create);
    assert!(module.form().is_some());

    let mut module = fip_setup();
    press_fip(&mut module, Key::Char('c'));
    assert_eq!(*module.view_state(), ViewState::Create);
    assert!(module.form_is_open());
}

#[test]
fn mod_test_handle_key_enter_to_detail() {
    let mut module = image_setup(false);
    press_image(&mut module, Key::Enter);
    assert_eq!(*module.view_state(), ViewState::Detail("img-1".into()));

    let mut module = network_setup();
    press_network(&mut module, Key::Enter);
    assert_eq!(*module.view_state(), ViewState::Detail("net-1".into()));
    // Should send FetchSubnets
    let action = module.take_actions().remove(0);
    assert!(matches!(action, Action::FetchSubnets { .. }));

    let mut module = sg_setup();
    press_sg(&mut module, Key::Enter);
    assert_eq!(*module.view_state(), ViewState::Detail("sg-1".into()));

    let mut module = snapshot_setup();
    press_snapshot(&mut module, Key::Enter);
    assert_eq!(*module.view_state(), ViewState::Detail("snap-1".into()));

    let mut module = volume_setup();
    press_volume(&mut module, Key::Enter);
    assert_eq!(*module.view_state(), ViewState::Detail("vol-1".into()));

    let mut module = server_setup();
    press_server(&mut module, Key::Enter);
    assert_eq!(*module.view_state(), ViewState::Detail("s1".into()));
}

#[test]
fn mod_test_handle_key_esc_detail_to_list() {
    let mut module = image_setup(false);
    press_image(&mut module, Key::Enter);
    press_image(&mut module, Key::Esc);
    assert_eq!(*module.view_state(), ViewState::List);

    let mut module = network_setup();
    press_network(&mut module, Key::Enter);
    assert!(matches!(*module.view_state(), ViewState::Detail(_)));
    press_network(&mut module, Key::Esc);
    assert_eq!(*module.view_state(), ViewState::List);

    let mut module = sg_setup();
    press_sg(&mut module, Key::Enter);
    press_sg(&mut module, Key::Esc);
    assert_eq!(*module.view_state(), ViewState::List);

    let mut module = snapshot_setup();
    press_snapshot(&mut module, Key::Enter);
    press_snapshot(&mut module, Key::Esc);
    assert_eq!(*module.view_state(), ViewState::List);

    let mut module = volume_setup();
    press_volume(&mut module, Key::Enter);
    press_volume(&mut module, Key::Esc);
    assert_eq!(*module.view_state(), ViewState::List);

    let mut module = server_setup();
    press_server(&mut module, Key::Enter);
    assert!(matches!(*module.view_state(), ViewState::Detail(_)));
    press_server(&mut module, Key::Esc);
    assert_eq!(*module.view_state(), ViewState::List);
}

#[test]
fn mod_test_help_hint_detail() {
    let mut module = image_setup(false);
    press_image(&mut module, Key::Enter);
    assert_eq!(module.help_hint(), "Esc:Back");

    let mut module = network_setup();
    press_network(&mut module, Key::Enter);
    assert_eq!(module.help_hint(), "Esc:Back");

    let mut module = sg_setup();
    press_sg(&mut module, Key::Enter);
    assert_eq!(module.help_hint(), "j/k:Rule a:AddRule d:DeleteRule Esc:Back");

    let mut module = snapshot_setup();
    press_snapshot(&mut module, Key::Enter);
    assert_eq!(module.help_hint(), "Esc:Back");

    let mut m = project_setup();
    press_project(&mut m, Key::Enter);
    assert_eq!(m.help_hint(), "Esc:Back");

    let mut module = volume_setup();
    press_volume(&mut module, Key::Enter);
    assert_eq!(module.help_hint(), "Esc:Back x:Detach F:ForceDetach R:Reset");
}

#[test]
fn mod_test_handle_key_g_and_shift_g() {
    let mut module = network_setup();
    press_network(&mut module, Key::Char('G'));
    assert_eq!(module.selected_index(), 2);
    press_network(&mut module, Key::Char('g'));
    assert_eq!(module.selected_index(), 0);

    let mut module = server_setup();
    press_server(&mut module, Key::Char('G'));
    assert_eq!(module.selected_index(), 2);
    press_server(&mut module, Key::Char('g'));
    assert_eq!(module.selected_index(), 0);
}

#[test]
fn mod_test_create_form_submit_produces_action() {
    let mut module = sg_setup();
    press_sg(&mut module, Key::Char('c'));
    // The name typed and the form submitted
    let values = vec![
        ("Name".to_string(), FormValue::Text("my-sg".to_string())),
        ("Description".to_string(), FormValue::Text(String::new())),
    ];
    let action = module.handle_create_key(FormAction::Submit(values));

    // Submit returns ExitFormMode; CreateSecurityGroup is sent as a request
    assert!(matches!(action, Some(Action::ExitFormMode)));
    assert_eq!(*module.view_state(), ViewState::List);
    assert!(!module.form_is_open());

    let sent = module.take_actions().remove(0);
    assert!(matches!(sent, Action::CreateSecurityGroup(_)));

    // A server form submitted with the required image missing is held
    // back by the form: the screen sees no submission and stays on it.
    let mut module = server_setup();
    press_server(&mut module, Key::Char('c'));
    let action = press_server(&mut module, Key::Enter);
    assert!(action.is_none());
    assert_eq!(*module.view_state(), ViewState::Create);
}

#[test]
fn mod_test_create() {
    let mut m = project_setup();
    press_project(&mut m, Key::Char('c'));
    assert_eq!(*m.view_state(), ViewState::Create);
    assert!(m.form_is_open());

    let mut m = user_setup();
    press_user(&mut m, Key::Char('c'));
    assert_eq!(*m.view_state(), ViewState::Create);
}

#[test]
fn mod_test_delete_confirm() {
    let mut m = project_setup();
    press_project(&mut m, Key::Char('d'));
    assert!(m.confirm_is_active());

    let mut m = user_setup();
    press_user(&mut m, Key::Char('d'));
    assert!(m.confirm_is_active());
}

#[test]
fn mod_test_confirm_delete() {
    let mut m = project_setup();
    press_project(&mut m, Key::Char('d'));
    for c in "admin".chars() {
        press_project(&mut m, Key::Char(c));
    }
    let a = press_project(&mut m, Key::Enter);
    assert!(matches!(a, Some(Action::DeleteProject { .. })));

    let mut m = user_setup();
    press_user(&mut m, Key::Char('d'));
    for c in "admin".chars() {
        press_user(&mut m, Key::Char(c));
    }
    assert!(matches!(press_user(&mut m, Key::Enter), Some(Action::DeleteUser { .. })));
}

#[test]
fn test_create_form_submit_blocked_by_validation() {
    let mut m = project_setup();
    press_project(&mut m, Key::Char('c'));
    // The name typed, then Down twice and Enter on the empty Domain ID,
    // which is not the last field: the form does not submit.
    for c in "test-proj".chars() {
        press_project(&mut m, Key::Char(c));
    }
    press_project(&mut m, Key::Down);
    press_project(&mut m, Key::Down);
    let action = press_project(&mut m, Key::Enter);
    assert!(action.is_none());
    // Still in create mode
    assert_eq!(*m.view_state(), ViewState::Create);
}
