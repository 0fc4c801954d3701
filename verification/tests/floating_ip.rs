use ostui::action::Action;
use ostui::event::AppEvent;
use ostui::models::neutron::{FloatingIp, Network};
use ostui::models::nova::{FlavorRef, Server};
use ostui::module::floating_ip::view_model::{fip_columns, fip_create_defs, fip_status_display, fip_to_row};
use ostui::module::floating_ip::FloatingIpModule;
use ostui::module::{PendingAction, ViewState};
use ostui::ui::form::{FieldDef, Validation};
use ostui::ui::resource_list::RowStyleHint;

fn make_fip(id: &str, ip: &str, status: &str) -> FloatingIp {
    FloatingIp {
        id: id.into(),
        floating_ip_address: ip.into(),
        status: status.into(),
        port_id: None,
        floating_network_id: "ext-net-1".into(),
        fixed_ip_address: None,
        router_id: None,
        tenant_id: None,
    }
}

fn make_fip_associated(id: &str, ip: &str, port_id: &str) -> FloatingIp {
    FloatingIp {
        id: id.into(),
        floating_ip_address: ip.into(),
        status: "ACTIVE".into(),
        port_id: Some(port_id.into()),
        floating_network_id: "ext-net-1".into(),
        fixed_ip_address: Some("10.0.0.5".into()),
        router_id: None,
        tenant_id: None,
    }
}

fn make_server(id: &str, name: &str, status: &str) -> Server {
    Server {
        id: id.into(),
        name: name.into(),
        status: status.into(),
        addresses: vec![],
        flavor: FlavorRef { id: "f1".into(), original_name: None, vcpus: None, ram: None, disk: None },
        image: None,
        key_name: None,
        availability_zone: None,
        created: "2026-01-01".into(),
        updated: None,
        tenant_id: None,
        host_id: None,
        host: None,
        volumes_attached: vec![],
        security_groups: vec![],
    }
}

fn make_network(id: &str, name: &str, external: bool) -> Network {
    Network {
        id: id.into(),
        name: name.into(),
        status: "ACTIVE".into(),
        description: None,
        admin_state_up: true,
        external,
        shared: false,
        mtu: None,
        port_security_enabled: None,
        subnets: vec![],
        provider_network_type: None,
        provider_physical_network: None,
        provider_segmentation_id: None,
        tenant_id: None,
    }
}

fn setup() -> FloatingIpModule {
    let mut module = FloatingIpModule::new();
    let fips = vec![
        make_fip("fip-1", "203.0.113.10", "ACTIVE"),
        make_fip("fip-2", "203.0.113.11", "DOWN"),
        make_fip("fip-3", "203.0.113.12", "ACTIVE"),
    ];
    module.handle_event(&AppEvent::FloatingIpsLoaded(fips));
    module
}

#[test]
fn test_handle_event_fips_loaded() {
    let mut module = FloatingIpModule::new();
    assert_eq!(*module.view_state(), ViewState::List);
    let fips = vec![make_fip("fip-1", "1.2.3.4", "ACTIVE")];
    module.handle_event(&AppEvent::FloatingIpsLoaded(fips));
    assert_eq!(module.floating_ips().len(), 1);
}

#[test]
fn test_handle_event_fip_created_triggers_refresh() {
    let mut module = setup();
    let fip = make_fip("fip-new", "1.2.3.5", "ACTIVE");
    module.handle_event(&AppEvent::FloatingIpCreated(fip));
    let actions = module.take_actions();
    assert!(matches!(actions[0], Action::FetchFloatingIps));
}

#[test]
fn test_handle_event_fip_deleted_triggers_refresh() {
    let mut module = setup();
    module.handle_event(&AppEvent::FloatingIpDeleted { id: "fip-1".into() });
    let actions = module.take_actions();
    assert!(matches!(actions[0], Action::FetchFloatingIps));
}

#[test]
fn test_handle_event_fip_associated_triggers_refresh() {
    let mut module = setup();
    let fip = make_fip_associated("fip-1", "203.0.113.10", "port-1");
    module.handle_event(&AppEvent::FloatingIpAssociated(fip));
    let actions = module.take_actions();
    assert!(matches!(actions[0], Action::FetchFloatingIps));
}

#[test]
fn test_handle_event_fip_disassociated_updates_local_and_refreshes() {
    let mut module = FloatingIpModule::new();
    let fip = make_fip_associated("fip-1", "203.0.113.10", "port-1");
    module.handle_event(&AppEvent::FloatingIpsLoaded(vec![fip]));
    let disassociated_fip = make_fip("fip-1", "203.0.113.10", "DOWN");
    module.handle_event(&AppEvent::FloatingIpDisassociated(disassociated_fip));
    assert!(module.floating_ips()[0].port_id.is_none());
    assert_eq!(module.floating_ips()[0].status, "DOWN");
    let actions = module.take_actions();
    assert!(matches!(actions[0], Action::FetchFloatingIps));
}

#[test]
fn test_handle_event_networks_loaded_caches() {
    let mut module = setup();
    let networks = vec![make_network("net-1", "private", false)];
    module.handle_event(&AppEvent::NetworksLoaded(networks));
    assert_eq!(module.cached_networks().len(), 1);
}

#[test]
fn test_resolve_associate() {
    let action = FloatingIpModule::resolve_action(PendingAction::AssociateFloatingIp {
        fip_id: "fip-1".into(),
        port_id: "port-1".into(),
    });
    assert!(matches!(action, Some(Action::AssociateFloatingIp { fip_id, port_id }) if fip_id == "fip-1" && port_id == "port-1"));
}

#[test]
fn test_resolve_disassociate() {
    let action = FloatingIpModule::resolve_action(PendingAction::DisassociateFloatingIp { fip_id: "fip-1".into() });
    assert!(matches!(action, Some(Action::DisassociateFloatingIp { fip_id }) if fip_id == "fip-1"));
}

#[test]
fn test_fip_disassociate_detail_lines() {
    let fip = make_fip_associated("fip-1", "203.0.113.10", "port-1");
    let lines = FloatingIpModule::fip_disassociate_detail_lines(&fip);
    assert!(lines.iter().any(|l| l.contains("203.0.113.10")));
    assert!(lines.iter().any(|l| l.contains("port-1")));
}

#[test]
fn test_fip_associate_detail_lines() {
    let fip = make_fip("fip-1", "203.0.113.10", "ACTIVE");
    let lines = FloatingIpModule::fip_associate_detail_lines(&fip, "web-01", "10.0.0.5 on private");
    assert!(lines.iter().any(|l| l.contains("203.0.113.10")));
    assert!(lines.iter().any(|l| l.contains("web-01")));
    assert!(lines.iter().any(|l| l.contains("10.0.0.5 on private")));
}

fn make_view_fip() -> FloatingIp {
    FloatingIp {
        id: "fip-1".into(),
        floating_ip_address: "203.0.113.10".into(),
        status: "ACTIVE".into(),
        port_id: Some("port-1".into()),
        floating_network_id: "ext-net-1".into(),
        fixed_ip_address: Some("10.0.0.5".into()),
        router_id: Some("router-1".into()),
        tenant_id: None,
    }
}

#[test]
fn test_fip_to_row() {
    let fip = make_view_fip();
    let row = fip_to_row(&fip);
    assert_eq!(row.id, "fip-1");
    assert_eq!(row.cells[0], "203.0.113.10");
    assert!(row.cells[1].contains("ACTIVE"));
    assert_eq!(row.cells[2], "10.0.0.5");
    assert_eq!(row.cells[3], "ext-net-1");
    assert_eq!(row.style_hint, Some(RowStyleHint::Active));
}

#[test]
fn test_fip_to_row_no_fixed_ip() {
    let mut fip = make_view_fip();
    fip.fixed_ip_address = None;
    let row = fip_to_row(&fip);
    assert_eq!(row.cells[2], "-");
}

#[test]
fn test_fip_create_defs() {
    let defs = fip_create_defs();
    assert_eq!(defs.len(), 1);
    assert_eq!(defs[0].name(), "External Network");
    assert!(defs[0].validations().contains(&Validation::Required));
    assert!(matches!(defs[0], FieldDef::Dropdown { .. }));
}

#[test]
fn test_fip_status_display() {
    assert_eq!(fip_status_display("ACTIVE"), ("●", RowStyleHint::Active));
    assert_eq!(fip_status_display("ERROR"), ("✗", RowStyleHint::Error));
    assert_eq!(fip_status_display("DOWN"), ("○", RowStyleHint::Disabled));
    assert_eq!(fip_status_display("BUILD"), ("?", RowStyleHint::Normal));
    assert_eq!(fip_status_display("UNKNOWN"), ("?", RowStyleHint::Normal));
}

#[test]
fn test_fip_columns_count() {
    assert_eq!(fip_columns().len(), 4);
}

#[test]
fn fip_status_display_ignores_case() {
    assert_eq!(fip_status_display("active"), ("●", RowStyleHint::Active));
    assert_eq!(fip_status_display("Down"), ("○", RowStyleHint::Disabled));
}

#[test]
fn networks_loaded_offers_only_external_networks() {
    let mut module = setup();
    module.handle_event(&AppEvent::NetworksLoaded(vec![
        make_network("net-1", "private", false),
        make_network("ext-1", "public", true),
    ]));
    module.open_create_form();
    let _ = module.take_actions();
    assert!(module.form_is_open());
    assert_eq!(module.cached_networks().len(), 2);
}

use ostui::models::neutron::{FixedIp, Port};
use ostui::ui::key::Key;
use ostui::ui::select_popup::SelectResult;

/// A key as the screen takes it: an open dialog answers first, then an
/// open popup (Enter picks its first item, Esc dismisses it), then the
/// view; in the create view the form's Esc arrives as a cancel.
fn press(m: &mut FloatingIpModule, key: Key) -> Option<Action> {
    if let Some(r) = m.handle_confirm_key(key) {
        return r;
    }
    if let Some(p) = m.select_popup() {
        let result = match key {
            Key::Enter => SelectResult::Selected(p.items[0].id.clone()),
            Key::Esc => SelectResult::Cancelled,
            _ => SelectResult::Pending,
        };
        m.handle_popup_result(result);
        return None;
    }
    match m.view_state() {
        ViewState::List => m.handle_list_key(key),
        ViewState::Create => m.handle_create_key(match key {
            Key::Esc => ostui::ui::form::FormAction::Cancel,
            _ => ostui::ui::form::FormAction::Pending,
        }),
        ViewState::Detail(_) => None,
    }
}

fn make_port(id: &str, network_id: &str, ip: &str, device_id: &str) -> Port {
    Port {
        id: id.into(),
        name: None,
        network_id: network_id.into(),
        fixed_ips: vec![FixedIp { subnet_id: "sub-1".into(), ip_address: ip.into() }],
        device_id: Some(device_id.into()),
        device_owner: Some("compute:az1".into()),
        status: "ACTIVE".into(),
        tenant_id: None,
    }
}

/// The ports of a server arrived, each labelled with its address.
fn ports_loaded(m: &mut FloatingIpModule, server_id: &str, ports: Vec<Port>) {
    let labels = ports.iter().map(|p| p.fixed_ips[0].ip_address.clone()).collect();
    m.handle_ports_loaded(server_id, ports, labels);
}

fn setup_with_servers() -> FloatingIpModule {
    let mut module = setup();
    let servers = vec![
        make_server("srv-1", "web-01", "ACTIVE"),
        make_server("srv-2", "web-02", "SHUTOFF"),
        make_server("srv-3", "db-01", "ACTIVE"),
    ];
    module.handle_event(&AppEvent::ServersLoaded(servers));
    module
}

#[test]
fn test_handle_key_shift_d_delete_confirm() {
    let mut module = setup();
    assert!(!module.confirm_is_active());
    press(&mut module, Key::Char('D'));
    assert!(module.confirm_is_active());
}

#[test]
fn test_confirm_delete_fip() {
    let mut module = setup();
    press(&mut module, Key::Char('D'));
    let action = press(&mut module, Key::Char('y'));
    assert!(matches!(action, Some(Action::DeleteFloatingIp { .. })));
    assert!(!module.confirm_is_active());
}

#[test]
fn test_handle_key_r_fetches_fips() {
    let mut module = setup();
    let action = press(&mut module, Key::Char('r'));
    assert!(matches!(action, Some(Action::FetchFloatingIps)));
}

#[test]
fn test_d_key_shows_hint_toast_once() {
    let mut module = setup();
    let action = press(&mut module, Key::Char('d'));
    assert!(matches!(action, Some(Action::ShowToast { .. })));

    // Second press: no toast
    let action = press(&mut module, Key::Char('d'));
    assert!(action.is_none());
}

#[test]
fn test_d_key_does_not_open_confirm() {
    let mut module = setup();
    press(&mut module, Key::Char('d'));
    assert!(!module.confirm_is_active());
}

#[test]
fn test_a_on_unassociated_fip_opens_server_popup() {
    let mut module = setup_with_servers();
    // fip-1 has no port_id (unassociated)
    press(&mut module, Key::Char('a'));
    assert!(module.select_popup().is_some());
}

#[test]
fn test_a_on_associated_fip_no_popup() {
    let mut module = FloatingIpModule::new();
    let fips = vec![make_fip_associated("fip-1", "203.0.113.10", "port-1")];
    module.handle_event(&AppEvent::FloatingIpsLoaded(fips));
    module.handle_event(&AppEvent::ServersLoaded(vec![make_server("srv-1", "web-01", "ACTIVE")]));
    press(&mut module, Key::Char('a'));
    assert!(module.select_popup().is_none());
}

#[test]
fn test_a_on_empty_servers_no_popup() {
    let mut module = setup();
    // No servers loaded
    press(&mut module, Key::Char('a'));
    assert!(module.select_popup().is_none());
}

#[test]
fn test_server_popup_filters_active_paused_shutoff() {
    let mut module = FloatingIpModule::new();
    let fips = vec![make_fip("fip-1", "203.0.113.10", "ACTIVE")];
    module.handle_event(&AppEvent::FloatingIpsLoaded(fips));
    let servers = vec![
        make_server("srv-1", "web-01", "ACTIVE"),
        make_server("srv-2", "web-02", "SHUTOFF"),
        make_server("srv-3", "db-01", "BUILD"), // should be filtered out
        make_server("srv-4", "db-02", "PAUSED"),
    ];
    module.handle_event(&AppEvent::ServersLoaded(servers));

    press(&mut module, Key::Char('a'));
    let popup = module.select_popup().unwrap();
    assert_eq!(popup.item_count(), 3); // ACTIVE, SHUTOFF, PAUSED
}

#[test]
fn test_server_selected_triggers_fetch_ports() {
    let mut module = setup_with_servers();
    press(&mut module, Key::Char('a')); // open server popup
    // Select first server (Enter)
    press(&mut module, Key::Enter);
    assert!(module.select_popup().is_none());
    assert!(module.is_loading_ports());
    assert!(module.pending_fip_id().is_some());

    let action = module.take_actions().remove(0);
    assert!(matches!(action, Action::FetchPorts { .. }));
}

#[test]
fn test_ports_loaded_zero_shows_toast() {
    let mut module = setup_with_servers();
    press(&mut module, Key::Char('a'));
    press(&mut module, Key::Enter);
    // Drain FetchPorts action
    module.take_actions();

    // Load zero ports
    ports_loaded(&mut module, "srv-1", vec![]);

    assert!(!module.is_loading_ports());
    assert!(module.pending_fip_id().is_none());
    let action = module.take_actions().remove(0);
    assert!(matches!(action, Action::ShowToast { message } if message.contains("No ports")));
}

#[test]
fn test_ports_loaded_one_auto_confirm() {
    let mut module = setup_with_servers();
    let networks = vec![make_network("net-1", "private", false)];
    module.handle_event(&AppEvent::NetworksLoaded(networks));

    press(&mut module, Key::Char('a'));
    press(&mut module, Key::Enter); // select server srv-1
    module.take_actions(); // drain FetchPorts

    // Load one port
    ports_loaded(&mut module, "srv-1", vec![make_port("port-1", "net-1", "10.0.0.5", "srv-1")]);

    assert!(!module.is_loading_ports());
    assert!(module.confirm_is_active()); // auto-confirm dialog
    assert!(module.pending_fip_id().is_none());
}

#[test]
fn test_ports_loaded_multiple_shows_port_popup() {
    let mut module = setup_with_servers();
    let networks = vec![make_network("net-1", "private", false)];
    module.handle_event(&AppEvent::NetworksLoaded(networks));

    press(&mut module, Key::Char('a'));
    press(&mut module, Key::Enter);
    module.take_actions();

    // Load multiple ports
    ports_loaded(
        &mut module,
        "srv-1",
        vec![make_port("port-1", "net-1", "10.0.0.5", "srv-1"), make_port("port-2", "net-1", "10.0.0.6", "srv-1")],
    );

    assert!(!module.is_loading_ports());
    assert!(module.select_popup().is_some());
    let popup = module.select_popup().unwrap();
    assert_eq!(popup.item_count(), 2);
}

#[test]
fn test_port_selected_opens_confirm() {
    let mut module = setup_with_servers();
    let networks = vec![make_network("net-1", "private", false)];
    module.handle_event(&AppEvent::NetworksLoaded(networks));

    press(&mut module, Key::Char('a'));
    press(&mut module, Key::Enter); // select server
    module.take_actions();

    ports_loaded(
        &mut module,
        "srv-1",
        vec![make_port("port-1", "net-1", "10.0.0.5", "srv-1"), make_port("port-2", "net-1", "10.0.0.6", "srv-1")],
    );

    // Select first port
    press(&mut module, Key::Enter);
    assert!(module.select_popup().is_none());
    assert!(module.confirm_is_active());
}

#[test]
fn test_confirm_associate_produces_action() {
    let mut module = setup_with_servers();
    let networks = vec![make_network("net-1", "private", false)];
    module.handle_event(&AppEvent::NetworksLoaded(networks));

    press(&mut module, Key::Char('a'));
    press(&mut module, Key::Enter);
    module.take_actions();

    // Single port auto-confirm
    ports_loaded(&mut module, "srv-1", vec![make_port("port-1", "net-1", "10.0.0.5", "srv-1")]);

    assert!(module.confirm_is_active());
    let action = press(&mut module, Key::Char('y'));
    assert!(
        matches!(action, Some(Action::AssociateFloatingIp { fip_id, port_id }) if fip_id == "fip-1" && port_id == "port-1")
    );
}

#[test]
fn test_x_on_associated_fip_opens_confirm() {
    let mut module = FloatingIpModule::new();
    let fips = vec![make_fip_associated("fip-1", "203.0.113.10", "port-1")];
    module.handle_event(&AppEvent::FloatingIpsLoaded(fips));

    press(&mut module, Key::Char('x'));
    assert!(module.confirm_is_active());
}

#[test]
fn test_x_on_unassociated_fip_no_confirm() {
    let mut module = setup();
    press(&mut module, Key::Char('x'));
    assert!(!module.confirm_is_active());
}

#[test]
fn test_confirm_disassociate_produces_action() {
    let mut module = FloatingIpModule::new();
    let fips = vec![make_fip_associated("fip-1", "203.0.113.10", "port-1")];
    module.handle_event(&AppEvent::FloatingIpsLoaded(fips));

    press(&mut module, Key::Char('x'));
    // TypeToConfirm: type the IP address
    for c in "203.0.113.10".chars() {
        press(&mut module, Key::Char(c));
    }
    let action = press(&mut module, Key::Enter);
    assert!(matches!(action, Some(Action::DisassociateFloatingIp { fip_id }) if fip_id == "fip-1"));
}

#[test]
fn test_is_modal_with_select_popup() {
    let mut module = setup_with_servers();
    assert!(!module.is_modal());
    press(&mut module, Key::Char('a'));
    assert!(module.is_modal()); // select popup active
}

#[test]
fn test_server_popup_cancel_clears_state() {
    let mut module = setup_with_servers();
    press(&mut module, Key::Char('a'));
    assert!(module.select_popup().is_some());
    press(&mut module, Key::Esc);
    assert!(module.select_popup().is_none());
    assert!(module.pending_fip_id().is_none());
}

#[test]
fn test_port_popup_cancel_clears_state() {
    let mut module = setup_with_servers();
    let networks = vec![make_network("net-1", "private", false)];
    module.handle_event(&AppEvent::NetworksLoaded(networks));

    press(&mut module, Key::Char('a'));
    press(&mut module, Key::Enter);
    module.take_actions();

    ports_loaded(
        &mut module,
        "srv-1",
        vec![make_port("port-1", "net-1", "10.0.0.5", "srv-1"), make_port("port-2", "net-1", "10.0.0.6", "srv-1")],
    );

    assert!(module.select_popup().is_some());
    press(&mut module, Key::Esc); // cancel port popup
    assert!(module.select_popup().is_none());
    assert!(module.pending_fip_id().is_none());
}
