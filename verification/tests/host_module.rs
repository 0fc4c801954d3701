use ostui::action::Action;
use ostui::event::AppEvent;
use ostui::models::nova::{FlavorRef, Hypervisor, Server};
use ostui::module::host::{HostFocus, HostModule};
use ostui::module::LayoutHint;
use ostui::ui::key::Key;

fn make_hypervisor(id: &str, hostname: &str) -> Hypervisor {
    Hypervisor {
        id: id.into(),
        hypervisor_hostname: hostname.into(),
        hypervisor_type: "QEMU".into(),
        vcpus: 16,
        vcpus_used: 8,
        memory_mb: 32768,
        memory_mb_used: 16384,
        local_gb: 500,
        local_gb_used: 200,
        running_vms: 2,
        status: "enabled".into(),
        state: "up".into(),
    }
}

fn make_server(id: &str, name: &str, host: &str) -> Server {
    Server {
        id: id.into(),
        name: name.into(),
        status: "ACTIVE".into(),
        tenant_id: Some("t1".into()),
        host: Some(host.into()),
        host_id: None,
        availability_zone: None,
        flavor: FlavorRef { id: "f1".into(), original_name: None, vcpus: None, ram: None, disk: None },
        image: None,
        addresses: vec![],
        created: "2026-01-01T00:00:00Z".into(),
        updated: None,
        key_name: None,
        volumes_attached: vec![],
        security_groups: vec![],
    }
}

fn loaded_module(servers: Vec<Server>) -> HostModule {
    let mut m = HostModule::default();
    m.handle_event(&AppEvent::HypervisorsLoaded(vec![make_hypervisor("1", "compute-01"), make_hypervisor("2", "compute-02")]));
    m.handle_event(&AppEvent::ServersLoaded(servers));
    m
}

fn start_evacuation(m: &mut HostModule) {
    m.handle_key(Key::Right);
    m.handle_key(Key::Char(' '));
    m.handle_key(Key::Char('e'));
    m.handle_key(Key::Char('e'));
}

#[test]
fn test_host_module_layout_hint_full_width() {
    let m = HostModule::default();
    assert_eq!(m.layout_hint(), LayoutHint::FullWidth);
}

#[test]
fn test_host_module_is_busy_when_evacuating() {
    let mut m = loaded_module(vec![make_server("s1", "web-01", "compute-01")]);
    assert!(!m.is_busy());
    start_evacuation(&mut m);
    assert!(m.is_busy());
}

#[test]
fn test_host_module_sync_instance_list_filters_by_host() {
    let m = loaded_module(vec![
        make_server("s1", "web-01", "compute-01"),
        make_server("s2", "web-02", "compute-02"),
        make_server("s3", "db-01", "compute-01"),
    ]);
    assert_eq!(m.instance_list().filtered_count(), 2);
}

#[test]
fn test_host_module_focus_switching() {
    let mut m = HostModule::default();
    assert_eq!(m.focus(), HostFocus::HostList);

    m.handle_key(Key::Right);
    assert_eq!(m.focus(), HostFocus::InstanceList);

    m.handle_key(Key::Left);
    assert_eq!(m.focus(), HostFocus::HostList);
}

#[test]
fn test_host_module_help_hint_changes_with_focus() {
    let mut m = HostModule::default();
    assert!(m.help_hint().contains("instances"));

    m.handle_key(Key::Right);
    assert!(m.help_hint().contains("evacuate"));
}

#[test]
fn test_host_module_evac_result_logs() {
    let mut m = loaded_module(vec![make_server("s1", "web-01", "compute-01")]);
    start_evacuation(&mut m);
    assert!(m.is_busy());

    m.handle_event(&AppEvent::ServerEvacuateResult { id: "s1".into(), result: Ok(()) });

    assert!(!m.is_busy());
    assert!(m.log_panel().len() >= 1);
}

#[test]
fn evacuation_needs_a_second_press_to_start() {
    let mut m = loaded_module(vec![make_server("s1", "web-01", "compute-01")]);
    m.handle_key(Key::Right);
    m.handle_key(Key::Char(' '));
    m.handle_key(Key::Char('e'));
    assert!(m.evac_confirm_pending());
    assert!(!m.is_busy());
    m.handle_key(Key::Char('j'));
    assert!(!m.evac_confirm_pending());
    assert!(!m.is_busy());
}

#[test]
fn evacuation_dispatches_the_checked_server() {
    let mut m = loaded_module(vec![make_server("s1", "web-01", "compute-01")]);
    m.take_actions();
    start_evacuation(&mut m);
    let actions = m.take_actions();
    assert!(actions.iter().any(|a| matches!(a, Action::EvacuateServer { id, .. } if id == "s1")));
}

#[test]
fn evacuate_log_lines_carry_a_clock_time() {
    let mut m = loaded_module(vec![make_server("s1", "web-01", "compute-01")]);
    start_evacuation(&mut m);
    let entry = m.log_panel().entries().back().unwrap();
    let t: Vec<char> = entry.timestamp.chars().collect();
    assert_eq!(t.len(), 8);
    assert_eq!(t[2], ':');
    assert_eq!(t[5], ':');
    assert!(t.iter().enumerate().all(|(i, c)| i == 2 || i == 5 || c.is_ascii_digit()));
}

#[test]
fn leaving_the_instance_list_cancels_a_pending_evacuation() {
    let mut m = loaded_module(vec![make_server("s1", "web-01", "compute-01")]);
    m.handle_key(Key::Right);
    m.handle_key(Key::Char(' '));
    m.handle_key(Key::Char('e'));
    assert!(m.evac_confirm_pending());
    m.handle_key(Key::Left);
    assert!(!m.evac_confirm_pending());
    assert_eq!(m.log_panel().entries().back().unwrap().message, "Evacuate cancelled");
    m.handle_key(Key::Right);
    m.handle_key(Key::Char('e'));
    assert!(!m.is_busy());
    assert!(m.evac_confirm_pending());
}
