use ostui::models::nova::{FlavorRef, Server};
use ostui::module::host::instance_list::{EvacInlineStatus, InstanceList, StatusFilter};

fn make_server(id: &str, name: &str, status: &str) -> Server {
    Server {
        id: id.into(),
        name: name.into(),
        status: status.into(),
        tenant_id: Some("t1".into()),
        host: Some("compute-01".into()),
        host_id: None,
        availability_zone: Some("az1".into()),
        flavor: FlavorRef { id: "f1".into(), original_name: None, vcpus: None, ram: None, disk: None },
        image: None,
        addresses: vec![],
        created: "2026-01-01T00:00:00Z".into(),
        updated: None,
        key_name: None,
        volumes_attached: vec![],
        security_groups: vec![],
    }
}

#[test]
fn test_instance_list_checkbox_toggle() {
    let mut list = InstanceList::new();
    list.set_servers(vec![make_server("s1", "web-01", "ACTIVE"), make_server("s2", "web-02", "ACTIVE")]);
    assert_eq!(list.checked_count(), 0);

    list.toggle_check();
    assert!(list.is_checked("s1"));
    assert_eq!(list.checked_count(), 1);

    list.toggle_check();
    assert!(!list.is_checked("s1"));
    assert_eq!(list.checked_count(), 0);
}

#[test]
fn test_instance_list_select_all() {
    let mut list = InstanceList::new();
    list.set_servers(vec![
        make_server("s1", "web-01", "ACTIVE"),
        make_server("s2", "web-02", "ERROR"),
        make_server("s3", "web-03", "SHUTOFF"),
    ]);
    list.select_all();
    assert_eq!(list.checked_count(), 3);

    list.deselect_all();
    assert_eq!(list.checked_count(), 0);
}

#[test]
fn test_instance_list_status_filter_cycle() {
    let mut list = InstanceList::new();
    list.set_servers(vec![
        make_server("s1", "web-01", "ACTIVE"),
        make_server("s2", "web-02", "ERROR"),
        make_server("s3", "web-03", "SHUTOFF"),
    ]);
    assert_eq!(list.filtered_count(), 3);

    list.cycle_filter();
    assert_eq!(list.filter(), StatusFilter::Active);
    assert_eq!(list.filtered_count(), 1);

    list.cycle_filter();
    assert_eq!(list.filter(), StatusFilter::Error);
    assert_eq!(list.filtered_count(), 1);

    list.cycle_filter();
    assert_eq!(list.filter(), StatusFilter::Shutoff);
    assert_eq!(list.filtered_count(), 1);

    list.cycle_filter();
    assert_eq!(list.filter(), StatusFilter::All);
    assert_eq!(list.filtered_count(), 3);
}

#[test]
fn test_instance_list_navigation() {
    let mut list = InstanceList::new();
    list.set_servers(vec![make_server("s1", "web-01", "ACTIVE"), make_server("s2", "web-02", "ACTIVE")]);
    assert_eq!(list.selected_server().unwrap().id, "s1");

    list.move_down();
    assert_eq!(list.selected_server().unwrap().id, "s2");

    list.move_down();
    assert_eq!(list.selected_server().unwrap().id, "s2");
}

#[test]
fn test_instance_list_evac_inline_status() {
    let mut list = InstanceList::new();
    list.set_servers(vec![make_server("s1", "web-01", "ACTIVE")]);

    list.set_evac_status("s1", EvacInlineStatus::InFlight);
    assert_eq!(list.evac_status("s1"), Some(EvacInlineStatus::InFlight));

    list.set_evac_status("s1", EvacInlineStatus::Success);
    assert_eq!(list.evac_status("s1"), Some(EvacInlineStatus::Success));

    list.clear_evac_status();
    assert!(list.evac_status_is_empty());
}

#[test]
fn test_status_filter_matches() {
    assert!(StatusFilter::All.matches("ACTIVE"));
    assert!(StatusFilter::All.matches("ERROR"));
    assert!(StatusFilter::Active.matches("ACTIVE"));
    assert!(!StatusFilter::Active.matches("ERROR"));
    assert!(StatusFilter::Error.matches("ERROR"));
    assert!(StatusFilter::Shutoff.matches("SHUTOFF"));
    assert!(StatusFilter::Shutoff.matches("STOPPED"));
    assert!(!StatusFilter::Shutoff.matches("ACTIVE"));
}

#[test]
fn test_instance_list_empty_move_no_panic() {
    let mut list = InstanceList::new();
    list.move_down();
    list.move_up();
    assert!(list.selected_server().is_none());
}

#[test]
fn test_phantom_selection_excluded_from_checked_ids() {
    let mut list = InstanceList::new();
    list.set_servers(vec![make_server("s1", "web-01", "ACTIVE"), make_server("s2", "web-02", "ERROR")]);
    list.select_all();
    assert_eq!(list.checked_count(), 2);

    list.cycle_filter();
    assert_eq!(list.filtered_count(), 1);

    let ids = list.checked_ids();
    assert_eq!(ids.len(), 1);
    assert!(ids.contains(&"s1".to_string()));
    assert!(!ids.contains(&"s2".to_string()));
}

#[test]
fn test_set_servers_clears_checked_and_evac_status() {
    let mut list = InstanceList::new();
    list.set_servers(vec![make_server("s1", "web-01", "ACTIVE")]);
    list.toggle_check();
    list.set_evac_status("s1", EvacInlineStatus::Success);
    assert_eq!(list.checked_count(), 1);

    list.set_servers(vec![make_server("s2", "db-01", "ACTIVE")]);
    assert_eq!(list.checked_count(), 0);
    assert!(list.evac_status_is_empty());
}

#[test]
fn four_filter_steps_return_to_all() {
    let mut f = StatusFilter::Error;
    for _ in 0..4 {
        f = f.cycle();
    }
    assert_eq!(f, StatusFilter::Error);
    assert_eq!(StatusFilter::All.label(), StatusFilter::All.cycle().cycle().cycle().cycle().label());
}
