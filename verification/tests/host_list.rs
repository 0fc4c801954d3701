use ostui::models::nova::Hypervisor;
use ostui::module::host::host_list::{host_state_icon, HostList};
use ostui::module::usage::summary::{host_load_summary, hypervisor_is_up, infra_totals};

fn make_hypervisor(hostname: &str, vcpus: u32, vcpus_used: u32, state: &str, status: &str) -> Hypervisor {
    Hypervisor {
        id: "1".into(),
        hypervisor_hostname: hostname.into(),
        hypervisor_type: "QEMU".into(),
        vcpus,
        vcpus_used,
        memory_mb: 32768,
        memory_mb_used: 16384,
        local_gb: 500,
        local_gb_used: 200,
        running_vms: 5,
        status: status.into(),
        state: state.into(),
    }
}

#[test]
fn test_host_list_selection_movement() {
    let mut list = HostList::new();
    list.set_hypervisors(vec![
        make_hypervisor("compute-01", 16, 8, "up", "enabled"),
        make_hypervisor("compute-02", 32, 0, "up", "enabled"),
        make_hypervisor("compute-03", 16, 16, "down", "disabled"),
    ]);
    assert_eq!(list.selected_index(), 0);

    list.move_down();
    assert_eq!(list.selected_index(), 1);

    list.move_down();
    assert_eq!(list.selected_index(), 2);

    list.move_down();
    assert_eq!(list.selected_index(), 2);

    list.move_up();
    assert_eq!(list.selected_index(), 1);

    list.move_up();
    assert_eq!(list.selected_index(), 0);

    list.move_up();
    assert_eq!(list.selected_index(), 0);
}

#[test]
fn test_host_list_selected_hypervisor() {
    let mut list = HostList::new();
    assert!(list.selected_hypervisor().is_none());

    list.set_hypervisors(vec![make_hypervisor("compute-01", 16, 8, "up", "enabled")]);
    let h = list.selected_hypervisor().unwrap();
    assert_eq!(h.hypervisor_hostname, "compute-01");
}

#[test]
fn test_host_list_set_hypervisors_clamps_selection() {
    let mut list = HostList::new();
    list.set_hypervisors(vec![
        make_hypervisor("a", 1, 0, "up", "enabled"),
        make_hypervisor("b", 1, 0, "up", "enabled"),
        make_hypervisor("c", 1, 0, "up", "enabled"),
    ]);
    list.move_down();
    list.move_down();
    assert_eq!(list.selected_index(), 2);

    list.set_hypervisors(vec![make_hypervisor("a", 1, 0, "up", "enabled")]);
    assert_eq!(list.selected_index(), 0);
}

#[test]
fn test_host_list_empty() {
    let list = HostList::new();
    assert!(list.is_empty());
    assert_eq!(list.len(), 0);
    assert!(list.selected_hypervisor().is_none());
}

#[test]
fn test_host_list_empty_move_no_panic() {
    let mut list = HostList::new();
    list.move_down();
    list.move_up();
    assert_eq!(list.selected_index(), 0);
}

#[test]
fn test_host_state_icons() {
    assert_eq!(host_state_icon("up", "enabled"), "●");
    assert_eq!(host_state_icon("down", "enabled"), "✗");
    assert_eq!(host_state_icon("up", "disabled"), "⊘");
    assert_eq!(host_state_icon("unknown", "enabled"), "?");
}

#[test]
fn infra_totals_add_up_every_host() {
    let hvs = vec![
        make_hypervisor("a", 16, 8, "up", "enabled"),
        make_hypervisor("b", 32, 4, "down", "enabled"),
    ];
    let t = infra_totals(&hvs);
    assert_eq!(t.total_vcpus, 48);
    assert_eq!(t.used_vcpus, 12);
    assert_eq!(t.total_ram_mb, 65536);
    assert_eq!(t.used_ram_mb, 32768);
    assert_eq!(t.total_disk_gb, 1000);
    assert_eq!(t.used_disk_gb, 400);
    assert_eq!(t.total_vms, 10);
}

#[test]
fn host_load_counts_hosts_by_state() {
    let mut down = make_hypervisor("c", 8, 8, "up", "disabled");
    down.memory_mb = 2047;
    let hvs = vec![
        make_hypervisor("a", 16, 8, "up", "enabled"),
        make_hypervisor("b", 32, 4, "down", "enabled"),
        down,
    ];
    let s = host_load_summary(&hvs);
    assert_eq!(s.hosts_up, 1);
    assert_eq!(s.hosts_down, 2);
    assert_eq!(s.total_vcpus, 56);
    assert_eq!(s.used_vcpus, 20);
    assert_eq!(s.total_ram_gb, 32 + 32 + 1);
    assert_eq!(s.used_ram_gb, 16 * 3);
    assert!(hypervisor_is_up(&hvs[0]));
    assert!(!hypervisor_is_up(&hvs[2]));
}

#[test]
fn host_load_of_no_hosts_is_zero() {
    let s = host_load_summary(&vec![]);
    assert_eq!((s.hosts_up, s.hosts_down, s.total_vcpus, s.total_ram_gb), (0, 0, 0, 0));
}
