use ostui::action::Action;
use ostui::event::AppEvent;
use ostui::models::nova::{Flavor, FlavorRef, ImageRef, Server, ServerMigration};
use ostui::module::server::ServerModule;
use ostui::module::{PendingAction, ViewState};
use ostui::ui::form::{FieldDef, FormAction};
use ostui::ui::key::Key;
use ostui::ui::select_popup::SelectResult;

fn make_test_server(id: &str, name: &str, status: &str) -> Server {
    Server {
        id: id.into(),
        name: name.into(),
        status: status.into(),
        addresses: vec![],
        flavor: FlavorRef {
            id: "flv-1".into(),
            original_name: Some("m1.small".into()),
            vcpus: Some(2),
            ram: Some(4096),
            disk: Some(40),
        },
        image: Some(ImageRef { id: "img-1".into() }),
        key_name: None,
        availability_zone: None,
        created: "2026-01-01T00:00:00Z".into(),
        updated: None,
        tenant_id: None,
        host_id: None,
        host: None,
        volumes_attached: vec![],
        security_groups: vec![],
    }
}

/// A key as the screen takes it: an open dialog answers first, then an
/// open popup (Enter picks its first item, Esc dismisses it), then the
/// view; in the create view the form's Esc arrives as a cancel.
fn press(m: &mut ServerModule, key: Key) -> Option<Action> {
    if let Some(r) = m.handle_confirm_key(key) {
        return r;
    }
    if let Some(p) = m.select_popup() {
        let result = match key {
            Key::Enter => SelectResult::Selected(p.items[0].id.clone()),
            Key::Esc => SelectResult::Cancelled,
            _ => SelectResult::Pending,
        };
        m.handle_popup_result(result);
        return None;
    }
    match m.view_state() {
        ViewState::List => m.handle_list_key(key),
        ViewState::Detail(_) => m.handle_detail_key(key),
        ViewState::Create => m.handle_create_key(match key {
            Key::Esc => FormAction::Cancel,
            _ => FormAction::Pending,
        }),
    }
}

fn setup() -> ServerModule {
    let mut module = ServerModule::new();
    let servers = vec![
        make_test_server("s1", "web-01", "ACTIVE"),
        make_test_server("s2", "web-02", "SHUTOFF"),
        make_test_server("s3", "db-01", "ERROR"),
    ];
    module.handle_event(&AppEvent::ServersLoaded(servers));
    module
}

fn setup_admin_detail(status: &str) -> ServerModule {
    let mut module = ServerModule::new();
    module.set_admin(true);
    let servers = vec![make_test_server("s1", "web-01", status)];
    module.handle_event(&AppEvent::ServersLoaded(servers));
    press(&mut module, Key::Enter); // enter detail
    module
}

fn migration(source: &str, dest: &str, mem: Option<(i64, i64, i64)>) -> ServerMigration {
    ServerMigration {
        id: 1,
        status: "running".into(),
        source_compute: source.into(),
        dest_compute: dest.into(),
        memory_total_bytes: mem.map(|m| m.0),
        memory_processed_bytes: mem.map(|m| m.1),
        memory_remaining_bytes: mem.map(|m| m.2),
        disk_total_bytes: None,
        disk_processed_bytes: None,
        disk_remaining_bytes: None,
        created_at: None,
        updated_at: None,
    }
}

fn small_flavor() -> Flavor {
    Flavor { id: "flv-1".into(), name: "m1.small".into(), vcpus: 1, ram: 2048, disk: 20, is_public: true }
}

#[test]
fn test_handle_key_d_opens_confirm() {
    let mut module = setup();
    assert!(!module.confirm_is_active());
    press(&mut module, Key::Char('d'));
    assert!(module.confirm_is_active());
}

#[test]
fn test_confirm_delete_executes_action() {
    let mut module = setup();
    press(&mut module, Key::Char('d'));
    for c in "web-01".chars() {
        press(&mut module, Key::Char(c));
    }
    let action = press(&mut module, Key::Enter);
    assert!(matches!(action, Some(Action::DeleteServer { .. })));
    assert!(!module.confirm_is_active());
}

#[test]
fn test_confirm_cancel() {
    let mut module = setup();
    press(&mut module, Key::Char('d'));
    press(&mut module, Key::Esc);
    assert!(!module.confirm_is_active());
}

#[test]
fn test_handle_event_servers_loaded() {
    let mut module = ServerModule::new();
    assert!(module.servers().is_empty());
    let servers = vec![make_test_server("s1", "test", "ACTIVE")];
    module.handle_event(&AppEvent::ServersLoaded(servers));
    assert_eq!(module.servers().len(), 1);
    assert!(!module.is_loading());
}

#[test]
fn test_handle_event_server_deleted_triggers_refresh() {
    let mut module = setup();
    module.handle_event(&AppEvent::ServerDeleted { id: "s1".into(), name: "web-01".into() });
    let action = module.take_actions().remove(0);
    assert!(matches!(action, Action::FetchServers));
}

#[test]
fn test_handle_key_r_fetches_servers() {
    let mut module = setup();
    let action = press(&mut module, Key::Char('r'));
    assert!(matches!(action, Some(Action::FetchServers)));
}

#[test]
fn test_detail_hard_reboot_confirm() {
    let mut module = setup();
    press(&mut module, Key::Enter);
    press(&mut module, Key::Char('R'));
    assert!(module.confirm_is_active());
}

#[test]
fn test_detail_start_server() {
    let mut module = setup();
    press(&mut module, Key::Enter);
    let action = press(&mut module, Key::Char('S'));
    assert!(matches!(action, Some(Action::StartServer { .. })));
}

#[test]
fn test_detail_stop_server_confirm() {
    let mut module = setup();
    press(&mut module, Key::Enter);
    press(&mut module, Key::Char('X'));
    assert!(module.confirm_is_active());
}

#[test]
fn mod_test_create_form_has_expected_fields() {
    let mut module = setup();
    press(&mut module, Key::Char('c'));
    let form = module.form().unwrap();
    assert_eq!(form.field_count(), 7);
    // The form opens on its first field
    assert_eq!(form.fields()[0].name(), "Name");
}

#[test]
fn test_open_create_form_dispatches_fetch_actions() {
    let mut module = setup();
    press(&mut module, Key::Char('c'));
    let actions = module.take_actions();
    assert!(actions.iter().any(|a| matches!(a, Action::FetchFlavors)));
    assert!(actions.iter().any(|a| matches!(a, Action::FetchImages)));
    assert!(actions.iter().any(|a| matches!(a, Action::FetchNetworks)));
    assert!(actions.iter().any(|a| matches!(a, Action::FetchSecurityGroups)));
}

#[test]
fn test_flavors_loaded_populates_form_options() {
    let mut module = setup();
    press(&mut module, Key::Char('c'));
    module.handle_event(&AppEvent::FlavorsLoaded(vec![small_flavor()]));
    let form = module.form().unwrap();
    // Flavor dropdown should now have options
    if let FieldDef::Dropdown { options, .. } = &form.fields()[2] {
        assert_eq!(options.len(), 1);
        assert_eq!(options[0].value, "flv-1");
    } else {
        panic!("Expected Dropdown for Flavor field");
    }
}

#[test]
fn test_migration_progress_stored_on_event() {
    let mut module = setup();
    assert!(module.migration_progress().is_none());
    module.handle_event(&AppEvent::MigrationProgressLoaded {
        server_id: "s1".into(),
        migration: migration("compute-01", "compute-02", Some((1024, 512, 512))),
    });
    let progress = module.migration_progress().unwrap();
    assert_eq!(progress.status, "running");
    assert_eq!(progress.source_compute, "compute-01");
}

#[test]
fn test_migration_progress_cleared_on_completion() {
    let mut module = setup();
    // Set progress first
    module.handle_event(&AppEvent::MigrationProgressLoaded { server_id: "s1".into(), migration: migration("c1", "c2", None) });
    assert!(module.migration_progress().is_some());
    // Live migrated → clear
    module.handle_event(&AppEvent::ServerLiveMigrated { id: "s1".into() });
    assert!(module.migration_progress().is_none());
}

#[test]
fn test_migration_progress_cleared_on_confirm() {
    let mut module = setup();
    module.handle_event(&AppEvent::MigrationProgressLoaded { server_id: "s1".into(), migration: migration("c1", "c2", None) });
    module.handle_event(&AppEvent::MigrationConfirmed { id: "s1".into() });
    assert!(module.migration_progress().is_none());
}

#[test]
fn test_detail_m_live_migrate_admin() {
    let mut module = setup_admin_detail("ACTIVE");
    press(&mut module, Key::Char('M'));
    assert!(module.confirm_is_active());
    // Confirm
    let action = press(&mut module, Key::Char('y'));
    assert!(matches!(action, Some(Action::LiveMigrateServer { .. })));
}

#[test]
fn test_detail_m_no_op_non_admin() {
    let mut module = setup();
    press(&mut module, Key::Enter); // detail
    press(&mut module, Key::Char('M'));
    assert!(!module.confirm_is_active());
}

#[test]
fn test_detail_c_cold_migrate_admin() {
    let mut module = setup_admin_detail("ACTIVE");
    press(&mut module, Key::Char('C'));
    assert!(module.confirm_is_active());
    let action = press(&mut module, Key::Char('y'));
    assert!(matches!(action, Some(Action::ColdMigrateServer { .. })));
}

#[test]
fn test_detail_c_no_op_non_admin() {
    let mut module = setup();
    press(&mut module, Key::Enter);
    press(&mut module, Key::Char('C'));
    assert!(!module.confirm_is_active());
}

#[test]
fn test_detail_y_confirm_verify_resize() {
    let mut module = setup_admin_detail("VERIFY_RESIZE");
    press(&mut module, Key::Char('Y'));
    assert!(module.confirm_is_active());
    let action = press(&mut module, Key::Char('y'));
    assert!(matches!(action, Some(Action::ConfirmMigration { .. })));
}

#[test]
fn test_detail_y_no_op_active_status() {
    let mut module = setup_admin_detail("ACTIVE");
    press(&mut module, Key::Char('Y'));
    assert!(!module.confirm_is_active());
}

#[test]
fn test_detail_n_revert_verify_resize() {
    let mut module = setup_admin_detail("VERIFY_RESIZE");
    press(&mut module, Key::Char('N'));
    assert!(module.confirm_is_active());
    let action = press(&mut module, Key::Char('y'));
    assert!(matches!(action, Some(Action::RevertMigration { .. })));
}

#[test]
fn test_detail_n_no_op_active_status() {
    let mut module = setup_admin_detail("ACTIVE");
    press(&mut module, Key::Char('N'));
    assert!(!module.confirm_is_active());
}

#[test]
fn test_detail_e_evacuate_error_status() {
    let mut module = setup_admin_detail("ERROR");
    press(&mut module, Key::Char('E'));
    assert!(module.confirm_is_active());
    let action = press(&mut module, Key::Char('y'));
    assert!(matches!(action, Some(Action::EvacuateServer { .. })));
}

#[test]
fn test_detail_e_no_op_active_status() {
    let mut module = setup_admin_detail("ACTIVE");
    press(&mut module, Key::Char('E'));
    assert!(!module.confirm_is_active());
}

#[test]
fn test_detail_e_no_op_non_admin() {
    let mut module = setup();
    // Change server to ERROR but non-admin
    let servers = vec![make_test_server("s1", "web-01", "ERROR")];
    module.handle_event(&AppEvent::ServersLoaded(servers));
    press(&mut module, Key::Enter);
    press(&mut module, Key::Char('E'));
    assert!(!module.confirm_is_active());
}

#[test]
fn test_set_admin_updates_columns() {
    let mut module = setup();
    module.set_admin(true);
    assert!(module.is_admin());
}

#[test]
fn test_resolve_live_migrate() {
    let action = ServerModule::resolve_action(PendingAction::LiveMigrate { id: "s1".into() });
    assert!(matches!(action, Some(Action::LiveMigrateServer { id, host: None }) if id == "s1"));
}

#[test]
fn test_resolve_cold_migrate() {
    let action = ServerModule::resolve_action(PendingAction::ColdMigrate { id: "s1".into() });
    assert!(matches!(action, Some(Action::ColdMigrateServer { id }) if id == "s1"));
}

#[test]
fn test_resolve_confirm_migrate() {
    let action = ServerModule::resolve_action(PendingAction::ConfirmMigrate { id: "s1".into() });
    assert!(matches!(action, Some(Action::ConfirmMigration { id }) if id == "s1"));
}

#[test]
fn test_resolve_revert_migrate() {
    let action = ServerModule::resolve_action(PendingAction::RevertMigrate { id: "s1".into() });
    assert!(matches!(action, Some(Action::RevertMigration { id }) if id == "s1"));
}

#[test]
fn test_resolve_evacuate() {
    let action = ServerModule::resolve_action(PendingAction::Evacuate { id: "s1".into() });
    assert!(matches!(action, Some(Action::EvacuateServer { id, .. }) if id == "s1"));
}

#[test]
fn test_set_all_tenants_with_admin_includes_host_column() {
    let mut module = setup();
    module.set_admin(true);
    module.set_all_tenants(true);
    // admin + all_tenants → both Project and Host columns visible
    let servers = vec![make_test_server("s1", "web-01", "ACTIVE")];
    module.handle_event(&AppEvent::ServersLoaded(servers));
}

#[test]
fn test_migration_progress_cleared_on_evacuate() {
    let mut module = setup();
    module.handle_event(&AppEvent::MigrationProgressLoaded { server_id: "s1".into(), migration: migration("c1", "c2", None) });
    module.handle_event(&AppEvent::ServerEvacuated { id: "s1".into() });
    assert!(module.migration_progress().is_none());
}

#[test]
fn test_migration_progress_not_shown_for_different_server() {
    let mut module = setup();
    // Load progress for server s1
    module.handle_event(&AppEvent::MigrationProgressLoaded { server_id: "s1".into(), migration: migration("c1", "c2", None) });
    // migration_progress_for should return None for s2
    assert!(module.migration_progress_for("s2").is_none());
    // but Some for s1
    assert!(module.migration_progress_for("s1").is_some());
}

#[test]
fn test_cached_options_applied_on_form_open() {
    let mut module = setup();
    // Pre-load flavors before opening form
    module.handle_event(&AppEvent::FlavorsLoaded(vec![small_flavor()]));
    // Now open form — cached options should be applied immediately
    press(&mut module, Key::Char('c'));
    let form = module.form().unwrap();
    if let FieldDef::Dropdown { options, .. } = &form.fields()[2] {
        assert_eq!(options.len(), 1, "Cached flavor options should be applied on form open");
        assert_eq!(options[0].value, "flv-1");
    } else {
        panic!("Expected Dropdown for Flavor field");
    }
}

#[test]
fn test_help_hint_list_view() {
    let module = setup();
    let hint = module.help_hint();
    assert!(hint.contains("Enter"), "List hint should mention Enter");
    assert!(hint.contains("c:Create"), "List hint should mention Create");
}

#[test]
fn test_help_hint_detail_view_admin() {
    let module = setup_admin_detail("ACTIVE");
    let hint = module.help_hint();
    assert!(hint.contains("M:Migrate"), "Admin detail hint should mention Migrate");
}

#[test]
fn test_help_hint_detail_verify_resize() {
    let module = setup_admin_detail("VERIFY_RESIZE");
    let hint = module.help_hint();
    assert!(hint.contains("Y:Confirm"), "VERIFY_RESIZE hint should mention Confirm");
    assert!(hint.contains("N:Revert"), "VERIFY_RESIZE hint should mention Revert");
}

#[test]
fn test_help_hint_detail_non_admin() {
    let mut module = setup();
    press(&mut module, Key::Enter); // enter detail
    let hint = module.help_hint();
    assert!(!hint.contains("M:Migrate"), "Non-admin should not see Migrate");
    assert!(hint.contains("F:Resize"), "Non-admin should see Resize");
}

use ostui::models::cinder::{Volume, VolumeAttachment};
use ostui::models::common::Route;
use ostui::models::neutron::{FixedIp, FloatingIp, Network, Port};
use ostui::module::server::DetailPopupKind;

/// The popup item at `index` chosen with Enter (after moving down to it).
fn pick(m: &mut ServerModule, index: usize) {
    let id = m.select_popup().unwrap().items[index].id.clone();
    m.handle_popup_result(SelectResult::Selected(id));
}

/// The ports of a server arrived, each labelled with its address.
fn ports_loaded(m: &mut ServerModule, server_id: &str, ports: Vec<Port>) {
    let labels = ports.iter().map(|p| p.fixed_ips[0].ip_address.clone()).collect();
    m.handle_ports_loaded(server_id, ports, labels);
}

fn setup_with_flavors() -> ServerModule {
    let mut module = ServerModule::new();
    let servers = vec![make_test_server("s1", "web-01", "ACTIVE")];
    module.handle_event(&AppEvent::ServersLoaded(servers));
    module.handle_event(&AppEvent::FlavorsLoaded(vec![
        Flavor { id: "flv-1".into(), name: "m1.small".into(), vcpus: 1, ram: 2048, disk: 20, is_public: true },
        Flavor { id: "flv-2".into(), name: "m1.medium".into(), vcpus: 2, ram: 4096, disk: 40, is_public: true },
    ]));
    module
}

fn make_volume(id: &str, name: &str, status: &str, size: u64, vol_type: &str) -> Volume {
    Volume {
        id: id.into(),
        name: Some(name.into()),
        description: None,
        status: status.into(),
        size,
        volume_type: Some(vol_type.into()),
        encrypted: false,
        bootable: "false".into(),
        attachments: Vec::new(),
        availability_zone: None,
        created_at: None,
    }
}

fn make_volume_attached(id: &str, name: &str, size: u64, server_id: &str, device: &str, att_id: &str) -> Volume {
    Volume {
        status: "in-use".into(),
        volume_type: Some("SSD".into()),
        attachments: vec![VolumeAttachment { server_id: server_id.into(), device: device.into(), id: att_id.into() }],
        ..make_volume(id, name, "in-use", size, "SSD")
    }
}

fn make_fip(id: &str, ip: &str, port_id: Option<&str>) -> FloatingIp {
    FloatingIp {
        id: id.into(),
        floating_ip_address: ip.into(),
        status: if port_id.is_some() { "ACTIVE" } else { "DOWN" }.into(),
        port_id: port_id.map(|s| s.into()),
        floating_network_id: "ext-net-1".into(),
        fixed_ip_address: None,
        router_id: None,
        tenant_id: None,
    }
}

fn make_port(id: &str, ip: &str, net_id: &str, device_id: Option<&str>) -> Port {
    Port {
        id: id.into(),
        name: None,
        network_id: net_id.into(),
        fixed_ips: vec![FixedIp { subnet_id: "sub-1".into(), ip_address: ip.into() }],
        device_id: device_id.map(|s| s.into()),
        device_owner: Some("compute:az1".into()),
        status: "ACTIVE".into(),
        tenant_id: None,
    }
}

fn make_network(id: &str, name: &str) -> Network {
    Network {
        id: id.into(),
        name: name.into(),
        status: "ACTIVE".into(),
        description: None,
        admin_state_up: true,
        external: false,
        shared: false,
        mtu: None,
        port_security_enabled: None,
        subnets: vec![],
        provider_network_type: None,
        provider_physical_network: None,
        provider_segmentation_id: None,
        tenant_id: None,
    }
}

fn setup_detail_with_volumes() -> ServerModule {
    let mut module = ServerModule::new();
    let servers = vec![make_test_server("s1", "web-01", "ACTIVE")];
    module.handle_event(&AppEvent::ServersLoaded(servers));
    module.handle_event(&AppEvent::VolumesLoaded(vec![
        make_volume("v1", "data-vol", "available", 100, "SSD"),
        make_volume("v2", "log-vol", "available", 50, "HDD"),
        make_volume_attached("v3", "boot-vol", 40, "s1", "/dev/vda", "att-3"),
        make_volume_attached("v4", "extra-vol", 200, "s1", "/dev/vdb", "att-4"),
        make_volume_attached("v5", "other-vol", 10, "s2", "/dev/vdc", "att-5"),
    ]));
    press(&mut module, Key::Enter); // enter detail for s1
    module
}

fn setup_detail_with_fips() -> ServerModule {
    let mut module = ServerModule::new();
    let servers = vec![make_test_server("s1", "web-01", "ACTIVE")];
    module.handle_event(&AppEvent::ServersLoaded(servers));
    module.handle_event(&AppEvent::FloatingIpsLoaded(vec![
        make_fip("fip-1", "203.0.113.10", None),
        make_fip("fip-2", "203.0.113.20", Some("port-99")),
        make_fip("fip-3", "203.0.113.30", None),
    ]));
    module.handle_event(&AppEvent::NetworksLoaded(vec![make_network("net-1", "private-net")]));
    module.take_actions();
    press(&mut module, Key::Enter); // enter detail for s1
    module
}

#[test]
fn test_detail_f_opens_select_popup_with_flavors() {
    let mut module = setup_with_flavors();
    press(&mut module, Key::Enter); // enter detail
    assert!(module.select_popup().is_none());
    press(&mut module, Key::Char('F'));
    assert!(module.select_popup().is_some());
}

#[test]
fn test_detail_f_no_op_on_shutoff() {
    let mut module = ServerModule::new();
    module.handle_event(&AppEvent::ServersLoaded(vec![make_test_server("s1", "web-01", "SHUTOFF")]));
    module.handle_event(&AppEvent::FlavorsLoaded(vec![small_flavor()]));
    press(&mut module, Key::Enter);
    press(&mut module, Key::Char('F'));
    assert!(module.select_popup().is_some(), "F should work on SHUTOFF");
}

#[test]
fn test_detail_f_no_op_on_error_status() {
    let mut module = ServerModule::new();
    module.handle_event(&AppEvent::ServersLoaded(vec![make_test_server("s1", "web-01", "ERROR")]));
    module.handle_event(&AppEvent::FlavorsLoaded(vec![small_flavor()]));
    press(&mut module, Key::Enter);
    press(&mut module, Key::Char('F'));
    assert!(module.select_popup().is_none(), "F should not work on ERROR status");
}

#[test]
fn test_detail_f_fetches_flavors_when_cache_empty() {
    let mut module = setup();
    press(&mut module, Key::Enter); // detail
    press(&mut module, Key::Char('F'));
    assert!(module.select_popup().is_none(), "No popup when flavors not cached");
    let action = module.take_actions().remove(0);
    assert!(matches!(action, Action::FetchFlavors));
}

#[test]
fn test_select_popup_cancel_closes() {
    let mut module = setup_with_flavors();
    press(&mut module, Key::Enter);
    press(&mut module, Key::Char('F'));
    assert!(module.select_popup().is_some());
    press(&mut module, Key::Esc);
    assert!(module.select_popup().is_none());
}

#[test]
fn test_select_popup_enter_opens_confirm() {
    let mut module = setup_with_flavors();
    press(&mut module, Key::Enter); // detail
    press(&mut module, Key::Char('F')); // open popup
    press(&mut module, Key::Enter); // select first flavor
    assert!(module.select_popup().is_none());
    assert!(module.confirm_is_active());
}

#[test]
fn test_select_popup_confirm_dispatches_resize() {
    let mut module = setup_with_flavors();
    press(&mut module, Key::Enter); // detail
    press(&mut module, Key::Char('F')); // open popup
    pick(&mut module, 1); // move to m1.medium and select
    // Now confirm dialog is active
    let action = press(&mut module, Key::Char('y')); // confirm
    assert!(matches!(action, Some(Action::ResizeServer { id, flavor_id }) if id == "s1" && flavor_id == "flv-2"));
}

#[test]
fn test_resize_pending_set_on_server_resized() {
    let mut module = setup();
    assert!(module.resize_pending().is_none());
    module.handle_event(&AppEvent::ServerResized { id: "s1".into() });
    assert!(module.resize_pending().is_some());
}

#[test]
fn test_resize_pending_cleared_on_confirm() {
    let mut module = setup();
    module.handle_event(&AppEvent::ServerResized { id: "s1".into() });
    module.handle_event(&AppEvent::ResizeConfirmed { id: "s1".into() });
    assert!(module.resize_pending().is_none());
}

#[test]
fn test_resize_pending_cleared_on_revert() {
    let mut module = setup();
    module.handle_event(&AppEvent::ServerResized { id: "s1".into() });
    module.handle_event(&AppEvent::ResizeReverted { id: "s1".into() });
    assert!(module.resize_pending().is_none());
}

#[test]
fn test_y_confirm_resize_when_resize_pending() {
    let mut module = ServerModule::new();
    module.handle_event(&AppEvent::ServersLoaded(vec![make_test_server("s1", "web-01", "VERIFY_RESIZE")]));
    module.handle_event(&AppEvent::ServerResized { id: "s1".into() });
    press(&mut module, Key::Enter); // detail
    press(&mut module, Key::Char('Y')); // confirm
    assert!(module.confirm_is_active());
    let action = press(&mut module, Key::Char('y'));
    assert!(matches!(action, Some(Action::ConfirmResize { .. })));
}

#[test]
fn test_y_confirm_migration_for_different_server_resize_pending() {
    // resize pending for s1, but viewing s2 in VERIFY_RESIZE → migration
    let mut module = ServerModule::new();
    module.set_admin(true);
    let servers = vec![make_test_server("s1", "web-01", "ACTIVE"), make_test_server("s2", "web-02", "VERIFY_RESIZE")];
    module.handle_event(&AppEvent::ServersLoaded(servers));
    module.handle_event(&AppEvent::ServerResized { id: "s1".into() });
    // Navigate to s2 detail
    press(&mut module, Key::Char('j')); // select s2
    press(&mut module, Key::Enter); // detail s2
    press(&mut module, Key::Char('Y'));
    assert!(module.confirm_is_active());
    let action = press(&mut module, Key::Char('y'));
    // Should be migration confirm, not resize confirm
    assert!(matches!(action, Some(Action::ConfirmMigration { .. })));
}

#[test]
fn test_stale_resize_pending_cleared_on_servers_loaded() {
    let mut module = setup();
    module.handle_event(&AppEvent::ServerResized { id: "s1".into() });
    // Server s1 is now ACTIVE (not VERIFY_RESIZE) → resize pending should be cleared
    module.handle_event(&AppEvent::ServersLoaded(vec![make_test_server("s1", "web-01", "ACTIVE")]));
    assert!(module.resize_pending().is_none());
}

#[test]
fn test_resize_pending_kept_while_verify_resize() {
    let mut module = setup();
    module.handle_event(&AppEvent::ServerResized { id: "s1".into() });
    module.handle_event(&AppEvent::ServersLoaded(vec![make_test_server("s1", "web-01", "VERIFY_RESIZE")]));
    assert!(module.resize_pending().is_some());
}

#[test]
fn test_y_confirm_migration_when_no_resize_pending() {
    let mut module = setup_admin_detail("VERIFY_RESIZE");
    // No resize pending → should confirm migration
    press(&mut module, Key::Char('Y'));
    assert!(module.confirm_is_active());
    let action = press(&mut module, Key::Char('y'));
    assert!(matches!(action, Some(Action::ConfirmMigration { .. })));
}

#[test]
fn test_n_revert_resize_when_resize_pending() {
    let mut module = ServerModule::new();
    module.handle_event(&AppEvent::ServersLoaded(vec![make_test_server("s1", "web-01", "VERIFY_RESIZE")]));
    module.handle_event(&AppEvent::ServerResized { id: "s1".into() });
    press(&mut module, Key::Enter);
    press(&mut module, Key::Char('N'));
    assert!(module.confirm_is_active());
    let action = press(&mut module, Key::Char('y'));
    assert!(matches!(action, Some(Action::RevertResize { .. })));
}

#[test]
fn test_resolve_resize() {
    let action = ServerModule::resolve_action(PendingAction::Resize { id: "s1".into(), flavor_id: "f2".into() });
    assert!(matches!(action, Some(Action::ResizeServer { id, flavor_id }) if id == "s1" && flavor_id == "f2"));
}

#[test]
fn test_resolve_confirm_resize() {
    let action = ServerModule::resolve_action(PendingAction::ConfirmResize { id: "s1".into() });
    assert!(matches!(action, Some(Action::ConfirmResize { id }) if id == "s1"));
}

#[test]
fn test_resolve_revert_resize() {
    let action = ServerModule::resolve_action(PendingAction::RevertResize { id: "s1".into() });
    assert!(matches!(action, Some(Action::RevertResize { id }) if id == "s1"));
}

#[test]
fn test_help_hint_includes_resize() {
    let mut module = setup();
    press(&mut module, Key::Enter);
    let hint = module.help_hint();
    assert!(hint.contains("F:Resize"));
}

#[test]
fn test_refresh_action_returns_fetch_servers() {
    let module = setup();
    assert!(matches!(module.refresh_action(), Some(Action::FetchServers)));
}

#[test]
fn test_detail_shift_a_opens_attach_volume_popup() {
    let mut module = setup_detail_with_volumes();
    press(&mut module, Key::Char('A'));
    assert!(module.select_popup().is_some(), "Shift+A should open attach volume popup");
    assert_eq!(module.popup_kind(), Some(DetailPopupKind::AttachVolume));
}

#[test]
fn test_detail_shift_a_only_shows_available_volumes() {
    let mut module = setup_detail_with_volumes();
    press(&mut module, Key::Char('A'));
    let popup = module.select_popup().unwrap();
    // v1 and v2 are available, v3/v4/v5 are in-use
    assert_eq!(popup.item_count(), 2);
}

#[test]
fn test_detail_shift_a_select_volume_opens_confirm() {
    let mut module = setup_detail_with_volumes();
    press(&mut module, Key::Char('A')); // open popup
    press(&mut module, Key::Enter); // select first volume (v1)
    assert!(module.select_popup().is_none());
    assert!(module.confirm_is_active(), "Selecting volume should open confirm");
}

#[test]
fn test_detail_shift_a_confirm_dispatches_attach() {
    let mut module = setup_detail_with_volumes();
    press(&mut module, Key::Char('A')); // open popup
    press(&mut module, Key::Enter); // select v1
    let action = press(&mut module, Key::Char('y')); // confirm
    assert!(matches!(action, Some(Action::AttachVolume { volume_id, server_id, .. })
        if volume_id == "v1" && server_id == "s1"));
}

#[test]
fn test_detail_shift_a_no_available_volumes_shows_toast() {
    let mut module = ServerModule::new();
    module.handle_event(&AppEvent::ServersLoaded(vec![make_test_server("s1", "web-01", "ACTIVE")]));
    // Only in-use volumes
    module.handle_event(&AppEvent::VolumesLoaded(vec![make_volume_attached("v3", "boot-vol", 40, "s1", "/dev/vda", "att-3")]));
    press(&mut module, Key::Enter); // detail
    press(&mut module, Key::Char('A'));
    assert!(module.select_popup().is_none());
    // Should show toast
    let action = module.take_actions().remove(0);
    assert!(matches!(action, Action::ShowToast { .. }));
}

#[test]
fn test_detail_shift_a_empty_cache_fetches_volumes() {
    let mut module = setup();
    press(&mut module, Key::Enter); // detail
    press(&mut module, Key::Char('A'));
    let action = module.take_actions().remove(0);
    assert!(matches!(action, Action::FetchVolumes));
}

#[test]
fn test_detail_x_single_attached_direct_confirm() {
    let mut module = ServerModule::new();
    module.handle_event(&AppEvent::ServersLoaded(vec![make_test_server("s1", "web-01", "ACTIVE")]));
    module.handle_event(&AppEvent::VolumesLoaded(vec![make_volume_attached("v3", "boot-vol", 40, "s1", "/dev/vda", "att-3")]));
    press(&mut module, Key::Enter); // detail
    press(&mut module, Key::Char('x')); // detach
    // Single attachment → direct confirm, no popup
    assert!(module.select_popup().is_none());
    assert!(module.confirm_is_active());
}

#[test]
fn test_detail_x_multiple_attached_shows_popup() {
    let mut module = setup_detail_with_volumes();
    // s1 has v3 (/dev/vda) and v4 (/dev/vdb)
    press(&mut module, Key::Char('x'));
    assert!(module.select_popup().is_some());
    assert_eq!(module.popup_kind(), Some(DetailPopupKind::DetachVolume));
}

#[test]
fn test_detail_x_no_attached_volumes_shows_toast() {
    let mut module = ServerModule::new();
    module.handle_event(&AppEvent::ServersLoaded(vec![make_test_server("s1", "web-01", "ACTIVE")]));
    module.handle_event(&AppEvent::VolumesLoaded(vec![make_volume("v1", "data-vol", "available", 100, "SSD")]));
    press(&mut module, Key::Enter); // detail
    press(&mut module, Key::Char('x'));
    let action = module.take_actions().remove(0);
    assert!(matches!(action, Action::ShowToast { .. }));
}

#[test]
fn test_detail_x_confirm_dispatches_detach() {
    let mut module = ServerModule::new();
    module.handle_event(&AppEvent::ServersLoaded(vec![make_test_server("s1", "web-01", "ACTIVE")]));
    module.handle_event(&AppEvent::VolumesLoaded(vec![make_volume_attached("v3", "boot-vol", 40, "s1", "/dev/vda", "att-3")]));
    press(&mut module, Key::Enter); // detail
    press(&mut module, Key::Char('x')); // detach
    let action = press(&mut module, Key::Char('y')); // confirm
    assert!(matches!(action, Some(Action::DetachVolume { volume_id, attachment_id, .. })
        if volume_id == "v3" && attachment_id == "att-3"));
}

#[test]
fn test_detail_x_select_from_multiple_then_confirm() {
    let mut module = setup_detail_with_volumes();
    press(&mut module, Key::Char('x')); // detach — popup with v3, v4
    pick(&mut module, 1); // select v4
    assert!(module.confirm_is_active());
    let action = press(&mut module, Key::Char('y')); // confirm
    assert!(matches!(action, Some(Action::DetachVolume { volume_id, attachment_id, .. })
        if volume_id == "v4" && attachment_id == "att-4"));
}

#[test]
fn test_detail_f_opens_fip_popup() {
    let mut module = setup_detail_with_fips();
    press(&mut module, Key::Char('f'));
    assert!(module.select_popup().is_some());
    assert_eq!(module.popup_kind(), Some(DetailPopupKind::AssociateFip));
}

#[test]
fn test_detail_f_only_shows_unassociated_fips() {
    let mut module = setup_detail_with_fips();
    press(&mut module, Key::Char('f'));
    let popup = module.select_popup().unwrap();
    // fip-1 and fip-3 are unassociated, fip-2 has port_id
    assert_eq!(popup.item_count(), 2);
}

#[test]
fn test_detail_f_select_fip_dispatches_fetch_ports() {
    let mut module = setup_detail_with_fips();
    press(&mut module, Key::Char('f')); // open fip popup
    press(&mut module, Key::Enter); // select fip-1
    // Should dispatch FetchPorts for s1
    let action = module.take_actions().remove(0);
    assert!(matches!(action, Action::FetchPorts { server_id } if server_id == "s1"));
    assert!(module.pending_fip_id().is_some());
}

#[test]
fn test_detail_f_single_port_auto_confirm() {
    let mut module = setup_detail_with_fips();
    press(&mut module, Key::Char('f')); // open fip popup
    press(&mut module, Key::Enter); // select fip-1
    // Simulate single port loaded
    ports_loaded(&mut module, "s1", vec![make_port("port-1", "10.0.0.5", "net-1", Some("s1"))]);
    // Should go directly to confirm (no port selection popup)
    assert!(module.select_popup().is_none());
    assert!(module.confirm_is_active());
    assert!(module.pending_fip_id().is_none());
}

#[test]
fn test_detail_f_single_port_confirm_dispatches_associate() {
    let mut module = setup_detail_with_fips();
    press(&mut module, Key::Char('f'));
    press(&mut module, Key::Enter); // select fip-1
    ports_loaded(&mut module, "s1", vec![make_port("port-1", "10.0.0.5", "net-1", Some("s1"))]);
    let action = press(&mut module, Key::Char('y'));
    assert!(matches!(action, Some(Action::AssociateFloatingIp { fip_id, port_id })
        if fip_id == "fip-1" && port_id == "port-1"));
}

#[test]
fn test_detail_f_multiple_ports_shows_port_popup() {
    let mut module = setup_detail_with_fips();
    press(&mut module, Key::Char('f'));
    press(&mut module, Key::Enter); // select fip-1
    ports_loaded(
        &mut module,
        "s1",
        vec![make_port("port-1", "10.0.0.5", "net-1", Some("s1")), make_port("port-2", "10.0.0.6", "net-1", Some("s1"))],
    );
    assert!(module.select_popup().is_some());
    assert_eq!(module.popup_kind(), Some(DetailPopupKind::SelectPort));
}

#[test]
fn test_detail_f_select_port_then_confirm() {
    let mut module = setup_detail_with_fips();
    press(&mut module, Key::Char('f'));
    press(&mut module, Key::Enter); // select fip-1
    ports_loaded(
        &mut module,
        "s1",
        vec![make_port("port-1", "10.0.0.5", "net-1", Some("s1")), make_port("port-2", "10.0.0.6", "net-1", Some("s1"))],
    );
    press(&mut module, Key::Enter); // select port-1
    assert!(module.confirm_is_active());
    let action = press(&mut module, Key::Char('y'));
    assert!(matches!(action, Some(Action::AssociateFloatingIp { fip_id, port_id })
        if fip_id == "fip-1" && port_id == "port-1"));
}

#[test]
fn test_detail_f_no_ports_shows_toast() {
    let mut module = setup_detail_with_fips();
    press(&mut module, Key::Char('f'));
    press(&mut module, Key::Enter); // select fip-1
    // Drain the FetchPorts action
    let fetch_action = module.take_actions().remove(0);
    assert!(matches!(fetch_action, Action::FetchPorts { .. }));
    ports_loaded(&mut module, "s1", vec![]);
    assert!(module.select_popup().is_none());
    assert!(!module.confirm_is_active());
    let action = module.take_actions().remove(0);
    assert!(matches!(action, Action::ShowToast { .. }));
}

#[test]
fn test_detail_f_empty_cache_fetches_floating_ips() {
    let mut module = setup();
    press(&mut module, Key::Enter); // detail
    press(&mut module, Key::Char('f'));
    let action = module.take_actions().remove(0);
    assert!(matches!(action, Action::FetchFloatingIps));
}

#[test]
fn test_detail_f_no_unassociated_fips_shows_toast() {
    let mut module = ServerModule::new();
    module.handle_event(&AppEvent::ServersLoaded(vec![make_test_server("s1", "web-01", "ACTIVE")]));
    // All FIPs are associated
    module.handle_event(&AppEvent::FloatingIpsLoaded(vec![make_fip("fip-2", "203.0.113.20", Some("port-99"))]));
    press(&mut module, Key::Enter); // detail
    press(&mut module, Key::Char('f'));
    let action = module.take_actions().remove(0);
    assert!(matches!(action, Action::ShowToast { .. }));
}

#[test]
fn test_volumes_loaded_caches_volumes() {
    let mut module = ServerModule::new();
    assert!(module.cached_volumes().is_empty());
    module.handle_event(&AppEvent::VolumesLoaded(vec![make_volume("v1", "test-vol", "available", 50, "SSD")]));
    assert_eq!(module.cached_volumes().len(), 1);
}

#[test]
fn test_floating_ips_loaded_caches_fips() {
    let mut module = ServerModule::new();
    assert!(module.cached_floating_ips().is_empty());
    module.handle_event(&AppEvent::FloatingIpsLoaded(vec![make_fip("fip-1", "203.0.113.10", None)]));
    assert_eq!(module.cached_floating_ips().len(), 1);
}

#[test]
fn test_volume_attached_triggers_fetch_servers() {
    let mut module = setup();
    module.handle_event(&AppEvent::VolumeAttached { volume_id: "v1".into(), server_id: "s1".into() });
    let action = module.take_actions().remove(0);
    assert!(matches!(action, Action::FetchServers));
}

#[test]
fn test_volume_detached_triggers_fetch_servers() {
    let mut module = setup();
    module.handle_event(&AppEvent::VolumeDetached { volume_id: "v1".into() });
    let action = module.take_actions().remove(0);
    assert!(matches!(action, Action::FetchServers));
}

#[test]
fn test_fip_associated_triggers_fetch_servers() {
    let mut module = setup();
    module.handle_event(&AppEvent::FloatingIpAssociated(FloatingIp {
        id: "fip-1".into(),
        floating_ip_address: "203.0.113.10".into(),
        status: "ACTIVE".into(),
        port_id: Some("port-1".into()),
        floating_network_id: "ext-1".into(),
        fixed_ip_address: None,
        router_id: None,
        tenant_id: None,
    }));
    let action = module.take_actions().remove(0);
    assert!(matches!(action, Action::FetchServers));
}

#[test]
fn test_resolve_attach_volume() {
    let action = ServerModule::resolve_action(PendingAction::AttachVolume {
        volume_id: "v1".into(),
        server_id: "s1".into(),
        device: None,
    });
    assert!(matches!(action, Some(Action::AttachVolume { volume_id, server_id, .. })
        if volume_id == "v1" && server_id == "s1"));
}

#[test]
fn test_resolve_detach_volume() {
    let action = ServerModule::resolve_action(PendingAction::DetachVolume {
        volume_id: "v1".into(),
        server_id: "s1".into(),
        attachment_id: "att-1".into(),
    });
    assert!(matches!(action, Some(Action::DetachVolume { volume_id, attachment_id, .. })
        if volume_id == "v1" && attachment_id == "att-1"));
}

#[test]
fn test_resolve_associate_fip() {
    let action = ServerModule::resolve_action(PendingAction::AssociateFloatingIp {
        fip_id: "fip-1".into(),
        port_id: "port-1".into(),
    });
    assert!(matches!(action, Some(Action::AssociateFloatingIp { fip_id, port_id })
        if fip_id == "fip-1" && port_id == "port-1"));
}

#[test]
fn test_help_hint_detail_includes_attach_vol() {
    let mut module = setup();
    press(&mut module, Key::Enter); // detail
    let hint = module.help_hint();
    assert!(hint.contains("A:AttachVol"), "Detail hint should mention AttachVol");
}

#[test]
fn test_help_hint_detail_includes_detach_vol() {
    let mut module = setup();
    press(&mut module, Key::Enter);
    let hint = module.help_hint();
    assert!(hint.contains("x:DetachVol"), "Detail hint should mention DetachVol");
}

#[test]
fn test_help_hint_detail_includes_assoc_fip() {
    let mut module = setup();
    press(&mut module, Key::Enter);
    let hint = module.help_hint();
    assert!(hint.contains("f:AssocFIP"), "Detail hint should mention AssocFIP");
}

#[test]
fn test_attach_popup_cancel() {
    let mut module = setup_detail_with_volumes();
    press(&mut module, Key::Char('A'));
    assert!(module.select_popup().is_some());
    press(&mut module, Key::Esc);
    assert!(module.select_popup().is_none());
    assert!(module.popup_kind().is_none());
}

#[test]
fn test_fip_popup_cancel_clears_pending() {
    let mut module = setup_detail_with_fips();
    press(&mut module, Key::Char('f'));
    press(&mut module, Key::Enter); // select fip → fetch ports
    // Simulate multi-port
    ports_loaded(
        &mut module,
        "s1",
        vec![make_port("port-1", "10.0.0.5", "net-1", Some("s1")), make_port("port-2", "10.0.0.6", "net-1", Some("s1"))],
    );
    assert!(module.pending_fip_id().is_some());
    press(&mut module, Key::Esc); // cancel port popup
    assert!(module.pending_fip_id().is_none());
}

#[test]
fn test_detail_x_only_shows_current_server_volumes() {
    let mut module = setup_detail_with_volumes();
    // s1 is current server, v3 and v4 are attached to s1, v5 to s2
    press(&mut module, Key::Char('x'));
    let popup = module.select_popup().unwrap();
    assert_eq!(popup.item_count(), 2, "Should only show s1's volumes (v3, v4), not s2's");
}

#[test]
fn test_ports_loaded_ignored_without_pending_fip() {
    let mut module = setup();
    press(&mut module, Key::Enter); // detail
    // No floating IP waiting → should not create popup or confirm
    ports_loaded(&mut module, "s1", vec![make_port("port-1", "10.0.0.5", "net-1", Some("s1"))]);
    assert!(module.select_popup().is_none());
    assert!(!module.confirm_is_active());
}

#[test]
fn test_detail_navigate_to_volumes() {
    let mut module = setup();
    press(&mut module, Key::Enter); // enter detail
    let action = press(&mut module, Key::Char('v'));
    assert!(matches!(action, Some(Action::Navigate(Route::Volumes))));
}

#[test]
fn test_detail_navigate_to_networks() {
    let mut module = setup();
    press(&mut module, Key::Enter);
    let action = press(&mut module, Key::Char('n'));
    assert!(matches!(action, Some(Action::Navigate(Route::Networks))));
}

#[test]
fn test_detail_navigate_to_security_groups() {
    let mut module = setup();
    press(&mut module, Key::Enter);
    let action = press(&mut module, Key::Char('s'));
    assert!(matches!(action, Some(Action::Navigate(Route::SecurityGroups))));
}

#[test]
fn test_detail_navigate_to_images() {
    let mut module = setup();
    press(&mut module, Key::Enter);
    let action = press(&mut module, Key::Char('i'));
    assert!(matches!(action, Some(Action::Navigate(Route::Images))));
}

#[test]
fn test_detail_help_hint_includes_navigation() {
    let mut module = setup();
    press(&mut module, Key::Enter);
    let hint = module.help_hint();
    assert!(hint.contains("v:Vol"), "help_hint should contain v:Vol");
    assert!(hint.contains("n:Net"), "help_hint should contain n:Net");
    assert!(hint.contains("s:SG"), "help_hint should contain s:SG");
    assert!(hint.contains("i:Img"), "help_hint should contain i:Img");
}

#[test]
fn server_is_modal_while_asking_or_editing() {
    let mut module = setup();
    assert!(!module.is_modal());
    press(&mut module, Key::Char('d'));
    assert!(module.is_modal());
    let mut module = setup();
    press(&mut module, Key::Char('c'));
    assert!(module.is_modal());
}
