use ostui::action::Action;
use ostui::event::AppEvent;
use ostui::models::neutron::Network;
use ostui::port::types::Subnet;
use ostui::module::network::view_model::{
    network_columns, network_create_defs, network_detail_data, network_status_display, network_to_row,
};
use ostui::module::network::NetworkModule;
use ostui::module::ViewState;
use ostui::ui::form::{FieldDef, Validation};
use ostui::ui::key::Key;
use ostui::ui::resource_list::RowStyleHint;

fn make_network(id: &str, name: &str, status: &str) -> Network {
    Network {
        id: id.into(),
        name: name.into(),
        status: status.into(),
        description: None,
        admin_state_up: true,
        external: false,
        shared: false,
        mtu: Some(1500),
        port_security_enabled: None,
        subnets: vec![],
        provider_network_type: None,
        provider_physical_network: None,
        provider_segmentation_id: None,
        tenant_id: None,
    }
}

fn setup() -> NetworkModule {
    let mut module = NetworkModule::new();
    let networks = vec![
        make_network("net-1", "private", "ACTIVE"),
        make_network("net-2", "public", "ACTIVE"),
        make_network("net-3", "mgmt", "DOWN"),
    ];
    module.handle_event(&AppEvent::NetworksLoaded(networks));
    module
}

#[test]
fn test_handle_event_networks_loaded() {
    let mut module = NetworkModule::new();
    assert!(module.networks().is_empty());

    let networks = vec![make_network("net-1", "test", "ACTIVE")];
    module.handle_event(&AppEvent::NetworksLoaded(networks));
    assert_eq!(module.networks().len(), 1);
}

#[test]
fn test_handle_event_subnets_loaded() {
    let mut module = setup();
    module.handle_list_key(Key::Enter);
    assert_eq!(*module.view_state(), ViewState::Detail("net-1".into()));
    module.handle_event(&AppEvent::SubnetsLoaded {
        network_id: "net-1".into(),
        subnets: vec![Subnet {
            id: "sub-1".into(),
            name: "private".into(),
            network_id: "net-1".into(),
            cidr: "10.0.0.0/24".into(),
            ip_version: 4,
            gateway_ip: Some("10.0.0.1".into()),
        }],
    });
    assert_eq!(module.subnets().len(), 1);
}

#[test]
fn test_handle_event_network_created_triggers_refresh() {
    let mut module = setup();
    let net = make_network("net-4", "new-net", "ACTIVE");
    module.handle_event(&AppEvent::NetworkCreated(net));
    let actions = module.take_actions();
    assert!(actions.iter().any(|a| matches!(a, Action::FetchNetworks)));
}

fn make_view_network() -> Network {
    Network {
        id: "net-1".into(),
        name: "private-net".into(),
        status: "ACTIVE".into(),
        description: Some("Test network".into()),
        admin_state_up: true,
        external: false,
        shared: false,
        mtu: Some(1500),
        port_security_enabled: Some(true),
        subnets: vec!["sub-1".into()],
        provider_network_type: Some("vxlan".into()),
        provider_physical_network: None,
        provider_segmentation_id: Some(100),
        tenant_id: None,
    }
}

fn make_subnet() -> Subnet {
    Subnet {
        id: "sub-1".into(),
        name: "private-subnet".into(),
        network_id: "net-1".into(),
        cidr: "10.0.0.0/24".into(),
        ip_version: 4,
        gateway_ip: Some("10.0.0.1".into()),
    }
}

#[test]
fn test_network_to_row() {
    let net = make_view_network();
    let row = network_to_row(&net, false);
    assert_eq!(row.id, "net-1");
    assert_eq!(row.cells[0], "private-net");
    assert!(row.cells[1].contains("ACTIVE"));
    assert_eq!(row.cells[2], "UP");
    assert_eq!(row.cells[3], "✗");
    assert_eq!(row.cells[4], "✗");
    assert_eq!(row.cells[5], "1500");
    assert_eq!(row.style_hint, Some(RowStyleHint::Active));
}

#[test]
fn test_network_status_display() {
    assert_eq!(network_status_display("ACTIVE"), ("●", RowStyleHint::Active));
    assert_eq!(network_status_display("ERROR"), ("✗", RowStyleHint::Error));
    assert_eq!(network_status_display("BUILD"), ("◐", RowStyleHint::Warning));
    assert_eq!(network_status_display("DOWN"), ("○", RowStyleHint::Disabled));
    assert_eq!(network_status_display("UNKNOWN"), ("?", RowStyleHint::Normal));
}

#[test]
fn test_network_detail_data() {
    let net = make_view_network();
    let subnets = vec![make_subnet()];
    let data = network_detail_data(&net, &subnets);
    assert_eq!(data.title, "Network: private-net");
    assert!(data.sections.len() >= 3);
}

#[test]
fn test_network_detail_data_no_subnets() {
    let net = make_view_network();
    let data = network_detail_data(&net, &[]);
    assert!(data.sections.iter().all(|s| s.name != "Subnets"));
}

#[test]
fn test_network_create_defs() {
    let defs = network_create_defs();
    assert_eq!(defs.len(), 5);
    assert_eq!(defs[0].name(), "Name");
    assert!(defs[0].validations().contains(&Validation::Required));
    assert_eq!(defs[1].name(), "Admin State Up");
    assert!(matches!(defs[1], FieldDef::Checkbox { .. }));
    assert_eq!(defs[2].name(), "Shared");
    assert!(matches!(defs[2], FieldDef::Checkbox { .. }));
    assert_eq!(defs[3].name(), "External");
    assert!(matches!(defs[3], FieldDef::Checkbox { .. }));
    assert_eq!(defs[4].name(), "MTU");
    assert!(!defs[4].validations().contains(&Validation::Required));
}

#[test]
fn test_network_columns_count() {
    assert_eq!(network_columns(false).len(), 6);
    assert_eq!(network_columns(true).len(), 7);
    assert_eq!(network_columns(true)[1].name, "Project");
}

#[test]
fn network_rows_match_their_columns() {
    let net = make_view_network();
    assert_eq!(network_to_row(&net, false).cells.len(), network_columns(false).len());
    assert_eq!(network_to_row(&net, true).cells.len(), network_columns(true).len());
}
