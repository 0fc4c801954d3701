use ostui::action::Action;
use ostui::event::AppEvent;
use ostui::models::neutron::NetworkAgent;
use ostui::models::nova::{Aggregate, ComputeService, Hypervisor};
use ostui::module::agent::view_model::{agent_columns, agent_to_row};
use ostui::module::agent::AgentModule;
use ostui::module::aggregate::view_model::{aggregate_columns, aggregate_to_row};
use ostui::module::aggregate::AggregateModule;
use ostui::module::compute_service::view_model::{compute_service_columns, compute_service_to_row};
use ostui::module::compute_service::ComputeServiceModule;
use ostui::module::hypervisor::view_model::{hypervisor_columns, hypervisor_to_row};
use ostui::module::hypervisor::HypervisorModule;
use ostui::models::keystone::Project;
use ostui::module::migration::MigrationModule;
use ostui::module::project::ProjectModule;
use ostui::module::usage::UsageModule;
use ostui::module::ViewState;
use ostui::ui::key::Key;
use ostui::ui::resource_list::RowStyleHint;

fn make_agent(id: &str, agent_type: &str) -> NetworkAgent {
    NetworkAgent {
        id: id.into(),
        agent_type: agent_type.into(),
        host: "network-01".into(),
        admin_state_up: true,
        alive: true,
        binary: "neutron-agent".into(),
    }
}

fn make_hypervisor(id: &str, name: &str) -> Hypervisor {
    Hypervisor {
        id: id.into(),
        hypervisor_hostname: name.into(),
        state: "up".into(),
        status: "enabled".into(),
        vcpus: 64,
        vcpus_used: 32,
        memory_mb: 131072,
        memory_mb_used: 65536,
        running_vms: 10,
        hypervisor_type: "QEMU".into(),
        local_gb: 1000,
        local_gb_used: 500,
    }
}

fn make_project(id: &str, name: &str) -> Project {
    Project { id: id.into(), name: name.into(), description: None, enabled: true, domain_id: Some("default".into()) }
}

fn make_aggregate(hosts: Vec<String>) -> Aggregate {
    Aggregate { id: 1, name: "agg1".into(), availability_zone: Some("az1".into()), hosts, metadata: vec![] }
}

fn make_service(host: &str) -> ComputeService {
    ComputeService {
        id: "s1".into(),
        binary: "nova-compute".into(),
        host: host.into(),
        state: "up".into(),
        status: "enabled".into(),
        updated_at: None,
        disabled_reason: None,
    }
}

#[test]
fn mod_test_initial() {
    let m = AgentModule::new();
    assert!(m.agents().is_empty());
    let m = AggregateModule::new();
    assert!(m.aggregates().is_empty());
    let m = ComputeServiceModule::new();
    assert!(m.services().is_empty());
}

#[test]
fn mod_test_nav() {
    let mut m = AgentModule::new();
    m.handle_event(&AppEvent::AgentsLoaded(vec![make_agent("a1", "OVS"), make_agent("a2", "L3")]));
    m.handle_key(Key::Char('j'));
    assert_eq!(m.selected_index(), 1);

    let mut m = HypervisorModule::new();
    m.handle_event(&AppEvent::HypervisorsLoaded(vec![make_hypervisor("h1", "node1"), make_hypervisor("h2", "node2")]));
    m.handle_key(Key::Char('j'));
    assert_eq!(m.selected_index(), 1);
}

#[test]
fn mod_test_refresh() {
    let mut m = AgentModule::new();
    assert!(matches!(m.handle_key(Key::Char('r')), Some(Action::FetchAgents)));
    let mut m = AggregateModule::new();
    assert!(matches!(m.handle_key(Key::Char('r')), Some(Action::FetchAggregates)));
    let mut m = ComputeServiceModule::new();
    assert!(matches!(m.handle_key(Key::Char('r')), Some(Action::FetchComputeServices)));
    let mut m = HypervisorModule::new();
    assert!(matches!(m.handle_key(Key::Char('r')), Some(Action::FetchHypervisors)));
}

#[test]
fn mod_test_event_loaded() {
    let mut m = AgentModule::new();
    m.handle_event(&AppEvent::AgentsLoaded(vec![make_agent("a1", "OVS")]));
    assert_eq!(m.agents().len(), 1);

    let mut m = AggregateModule::new();
    m.handle_event(&AppEvent::AggregatesLoaded(vec![make_aggregate(vec!["h1".into()])]));
    assert_eq!(m.aggregates().len(), 1);

    let mut m = ComputeServiceModule::new();
    m.handle_event(&AppEvent::ComputeServicesLoaded(vec![make_service("node1")]));
    assert_eq!(m.services().len(), 1);

    let mut m = ProjectModule::new();
    m.handle_event(&AppEvent::ProjectsLoaded(vec![make_project("p1", "t")]));
    assert_eq!(m.projects().len(), 1);
}

#[test]
fn mod_test_help_hint() {
    let m = ComputeServiceModule::new();
    assert_eq!(m.help_hint(), "r:Refresh");
    let m = MigrationModule::new();
    assert_eq!(m.help_hint(), "");
    let m: UsageModule<u8> = UsageModule::new();
    assert_eq!(m.help_hint(), "[/]:Period  j/k:Scroll  r:Refresh");
}

#[test]
fn mod_test_initial_state() {
    let m = HypervisorModule::new();
    assert!(m.hypervisors().is_empty());
    let m = ProjectModule::new();
    assert_eq!(*m.view_state(), ViewState::List);
}

#[test]
fn test_esc_returns_back() {
    let mut m = MigrationModule::new();
    let action = m.handle_key(Key::Esc);
    assert!(matches!(action, Some(Action::Back)));
}

#[test]
fn view_model_test_columns() {
    assert_eq!(agent_columns().len(), 5);
    assert_eq!(aggregate_columns().len(), 3);
    assert_eq!(compute_service_columns().len(), 5);
    assert_eq!(hypervisor_columns().len(), 6);
}

#[test]
fn test_to_row_alive() {
    let a = NetworkAgent {
        id: "a1".into(),
        agent_type: "OVS".into(),
        host: "n1".into(),
        admin_state_up: true,
        alive: true,
        binary: "neutron-ovs".into(),
    };
    let row = agent_to_row(&a);
    assert_eq!(row.cells[2], "Enabled");
    assert_eq!(row.cells[3], "✓");
    assert_eq!(row.style_hint, Some(RowStyleHint::Active));
}

#[test]
fn test_to_row_dead() {
    let a = NetworkAgent {
        id: "a1".into(),
        agent_type: "OVS".into(),
        host: "n1".into(),
        admin_state_up: true,
        alive: false,
        binary: "neutron-ovs".into(),
    };
    assert_eq!(agent_to_row(&a).style_hint, Some(RowStyleHint::Error));
}

#[test]
fn view_model_test_to_row() {
    let agg = make_aggregate(vec!["h1".into(), "h2".into()]);
    let row = aggregate_to_row(&agg);
    assert_eq!(row.cells[0], "agg1");
    assert_eq!(row.cells[2], "2");

    let svc = make_service("n1");
    let row = compute_service_to_row(&svc);
    assert_eq!(row.cells[0], "nova-compute");
    assert_eq!(row.cells[4], "-");
    assert_eq!(row.style_hint, Some(RowStyleHint::Active));

    let hv = make_hypervisor("h1", "node1");
    let row = hypervisor_to_row(&hv);
    assert_eq!(row.cells[0], "node1");
    assert_eq!(row.cells[3], "32/64");
    assert_eq!(row.style_hint, Some(RowStyleHint::Active));
}

#[test]
fn admin_rows_have_one_cell_per_column() {
    assert_eq!(agent_to_row(&make_agent("a", "OVS")).cells.len(), agent_columns().len());
    assert_eq!(aggregate_to_row(&make_aggregate(vec![])).cells.len(), aggregate_columns().len());
    assert_eq!(compute_service_to_row(&make_service("h")).cells.len(), compute_service_columns().len());
    assert_eq!(hypervisor_to_row(&make_hypervisor("h", "n")).cells.len(), hypervisor_columns().len());
}
