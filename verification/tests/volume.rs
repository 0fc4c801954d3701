use ostui::action::Action;
use ostui::event::AppEvent;
use ostui::models::cinder::{Volume, VolumeAttachment};
use ostui::module::volume::view_model::{
    volume_columns, volume_create_defs, volume_detail_data, volume_status_display, volume_to_row,
};
use ostui::module::volume::VolumeModule;
use ostui::module::ViewState;
use ostui::ui::form::Validation;
use ostui::ui::resource_list::RowStyleHint;

fn make_volume(id: &str, name: &str, status: &str) -> Volume {
    Volume {
        id: id.into(),
        name: Some(name.into()),
        description: None,
        status: status.into(),
        size: 100,
        volume_type: Some("ssd".into()),
        encrypted: false,
        bootable: "false".into(),
        attachments: vec![],
        availability_zone: Some("az1".into()),
        created_at: None,
    }
}

fn setup() -> VolumeModule {
    let mut module = VolumeModule::new();
    let volumes = vec![
        make_volume("vol-1", "data", "available"),
        make_volume("vol-2", "boot", "in-use"),
        make_volume("vol-3", "temp", "error"),
    ];
    module.handle_event(&AppEvent::VolumesLoaded(volumes));
    module
}

fn first_action(module: &mut VolumeModule) -> Action {
    module.take_actions().remove(0)
}

#[test]
fn test_handle_event_volumes_loaded() {
    let mut module = VolumeModule::new();
    let volumes = vec![make_volume("vol-1", "test", "available")];
    module.handle_event(&AppEvent::VolumesLoaded(volumes));
    assert_eq!(module.volumes().len(), 1);
}

#[test]
fn test_handle_event_volume_created_transitions_to_list() {
    let mut module = setup();
    module.open_create_form();
    assert_eq!(*module.view_state(), ViewState::Create);
    let vol = make_volume("vol-new", "new-vol", "creating");
    module.handle_event(&AppEvent::VolumeCreated(vol));
    assert_eq!(*module.view_state(), ViewState::List);
    assert!(matches!(first_action(&mut module), Action::FetchVolumes));
}

#[test]
fn test_handle_event_volume_deleted_triggers_refresh() {
    let mut module = setup();
    module.handle_event(&AppEvent::VolumeDeleted { id: "vol-1".into() });
    assert!(matches!(first_action(&mut module), Action::FetchVolumes));
}

#[test]
fn test_handle_event_volume_extended_triggers_refresh() {
    let mut module = setup();
    module.handle_event(&AppEvent::VolumeExtended { id: "vol-1".into() });
    assert!(matches!(first_action(&mut module), Action::FetchVolumes));
}

#[test]
fn test_refresh_action_returns_fetch_volumes() {
    let module = setup();
    assert!(matches!(module.refresh_action(), Some(Action::FetchVolumes)));
}

#[test]
fn test_handle_event_volume_attached_refreshes() {
    let mut module = setup();
    module.handle_event(&AppEvent::VolumeAttached { volume_id: "vol-1".into(), server_id: "srv-1".into() });
    assert!(matches!(first_action(&mut module), Action::FetchVolumes));
}

#[test]
fn test_handle_event_volume_detached_refreshes() {
    let mut module = setup();
    module.handle_event(&AppEvent::VolumeDetached { volume_id: "vol-1".into() });
    assert!(matches!(first_action(&mut module), Action::FetchVolumes));
}

#[test]
fn test_handle_event_volume_force_detached_refreshes() {
    let mut module = setup();
    module.handle_event(&AppEvent::VolumeForceDetached { volume_id: "vol-1".into() });
    assert!(matches!(first_action(&mut module), Action::FetchVolumes));
}

#[test]
fn test_handle_event_volume_state_reset_refreshes() {
    let mut module = setup();
    module.handle_event(&AppEvent::VolumeStateReset { volume_id: "vol-1".into() });
    assert!(matches!(first_action(&mut module), Action::FetchVolumes));
}

#[test]
fn test_set_admin() {
    let mut module = VolumeModule::new();
    assert!(!module.is_admin());
    module.set_admin(true);
    assert!(module.is_admin());
}

fn make_view_volume() -> Volume {
    Volume {
        id: "vol-1".into(),
        name: Some("data-vol".into()),
        description: Some("Data volume".into()),
        status: "available".into(),
        size: 100,
        volume_type: Some("ssd".into()),
        encrypted: false,
        bootable: "false".into(),
        attachments: vec![],
        availability_zone: Some("az1".into()),
        created_at: Some("2026-01-01T00:00:00Z".into()),
    }
}

fn make_attached_view_volume() -> Volume {
    Volume {
        attachments: vec![VolumeAttachment { server_id: "srv-12345678-abcd".into(), device: "/dev/vdb".into(), id: "att-1".into() }],
        status: "in-use".into(),
        ..make_view_volume()
    }
}

#[test]
fn test_volume_to_row_available() {
    let vol = make_view_volume();
    let row = volume_to_row(&vol);
    assert_eq!(row.id, "vol-1");
    assert_eq!(row.cells[1], "data-vol");
    assert_eq!(row.cells[2], "available");
    assert_eq!(row.cells[3], "100");
    assert_eq!(row.cells[4], "ssd");
    assert_eq!(row.cells[5], "✗");
    assert_eq!(row.cells[6], "-");
    assert_eq!(row.style_hint, Some(RowStyleHint::Active));
}

#[test]
fn test_volume_to_row_attached() {
    let vol = make_attached_view_volume();
    let row = volume_to_row(&vol);
    assert!(row.cells[6].contains("srv-1234"));
    assert!(row.cells[6].contains("/dev/vdb"));
}

#[test]
fn test_volume_status_display() {
    assert_eq!(volume_status_display("available"), ("●", RowStyleHint::Active));
    assert_eq!(volume_status_display("in-use"), ("◆", RowStyleHint::Active));
    assert_eq!(volume_status_display("error"), ("✗", RowStyleHint::Error));
    assert_eq!(volume_status_display("creating"), ("◐", RowStyleHint::Warning));
    assert_eq!(volume_status_display("maintenance"), ("○", RowStyleHint::Disabled));
    assert_eq!(volume_status_display("UNKNOWN"), ("?", RowStyleHint::Normal));
}

#[test]
fn test_volume_detail_data() {
    let vol = make_view_volume();
    let data = volume_detail_data(&vol);
    assert_eq!(data.title, "Volume: data-vol");
    assert_eq!(data.sections.len(), 1);
}

#[test]
fn test_volume_detail_data_with_attachments() {
    let vol = make_attached_view_volume();
    let data = volume_detail_data(&vol);
    assert_eq!(data.sections.len(), 2);
    assert!(data.sections.iter().any(|s| s.name == "Attachments"));
}

#[test]
fn test_volume_create_defs() {
    let defs = volume_create_defs();
    assert_eq!(defs.len(), 5);
    assert_eq!(defs[0].name(), "Name");
    assert!(defs[0].validations().contains(&Validation::Required));
    assert_eq!(defs[1].name(), "Size (GB)");
    assert!(defs[1].validations().contains(&Validation::Required));
    assert_eq!(defs[2].name(), "Type");
    assert!(!defs[2].validations().contains(&Validation::Required));
    assert_eq!(defs[3].name(), "Description");
    assert_eq!(defs[4].name(), "Availability Zone");
}

#[test]
fn test_volume_columns_count() {
    assert_eq!(volume_columns().len(), 7);
}
