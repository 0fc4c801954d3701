use ostui::action::Action;
use ostui::bytes::format_bytes;
use ostui::event::AppEvent;
use ostui::models::glance::Image;
use ostui::module::image::view_model::{image_columns, image_create_defs, image_detail_data, image_status_display, image_to_row};
use ostui::module::image::ImageModule;
use ostui::module::ViewState;
use ostui::ui::form::{FieldDef, Validation};
use ostui::ui::resource_list::RowStyleHint;

fn make_image(id: &str, name: &str, status: &str) -> Image {
    Image {
        id: id.into(),
        name: name.into(),
        status: status.into(),
        disk_format: Some("qcow2".into()),
        container_format: Some("bare".into()),
        size: Some(1_073_741_824),
        visibility: "public".into(),
        min_disk: 10,
        min_ram: 512,
        checksum: None,
        created_at: None,
    }
}

fn setup(is_admin: bool) -> ImageModule {
    let mut module = ImageModule::new();
    module.set_admin(is_admin);
    let images = vec![
        make_image("img-1", "Ubuntu 22.04", "active"),
        make_image("img-2", "CentOS 9", "active"),
        make_image("img-3", "Windows", "deactivated"),
    ];
    module.handle_event(&AppEvent::ImagesLoaded(images));
    module
}

#[test]
fn test_handle_event_images_loaded() {
    let mut module = ImageModule::new();
    let images = vec![make_image("img-1", "test", "active")];
    module.handle_event(&AppEvent::ImagesLoaded(images));
    assert_eq!(module.images().len(), 1);
}

#[test]
fn test_handle_event_image_created_transitions_to_list() {
    let mut module = setup(true);
    module.open_create_form();
    assert_eq!(*module.view_state(), ViewState::Create);
    let _ = module.take_actions();
    let img = make_image("img-new", "new-img", "queued");
    module.handle_event(&AppEvent::ImageCreated(img));
    assert_eq!(*module.view_state(), ViewState::List);
    let actions = module.take_actions();
    assert!(matches!(actions[0], Action::FetchImages));
}

#[test]
fn test_handle_event_image_deleted_triggers_refresh() {
    let mut module = setup(true);
    module.handle_event(&AppEvent::ImageDeleted { id: "img-1".into() });
    let actions = module.take_actions();
    assert!(matches!(actions[0], Action::FetchImages));
}

fn make_view_image() -> Image {
    Image {
        id: "img-1".into(),
        name: "Ubuntu 22.04".into(),
        status: "active".into(),
        disk_format: Some("qcow2".into()),
        container_format: Some("bare".into()),
        size: Some(2_147_483_648),
        visibility: "public".into(),
        min_disk: 10,
        min_ram: 512,
        checksum: Some("abc123".into()),
        created_at: Some("2026-01-01T00:00:00Z".into()),
    }
}

#[test]
fn test_image_to_row() {
    let img = make_view_image();
    let row = image_to_row(&img);
    assert_eq!(row.id, "img-1");
    assert_eq!(row.cells[0], "Ubuntu 22.04");
    assert!(row.cells[1].contains("active"));
    assert_eq!(row.cells[2], "qcow2");
    assert_eq!(row.cells[3], "2.0 GB");
    assert_eq!(row.cells[4], "public");
}

#[test]
fn test_image_status_display() {
    assert_eq!(image_status_display("active"), ("●", RowStyleHint::Active));
    assert_eq!(image_status_display("error"), ("✗", RowStyleHint::Error));
    assert_eq!(image_status_display("saving"), ("◐", RowStyleHint::Warning));
    assert_eq!(image_status_display("deactivated"), ("○", RowStyleHint::Disabled));
    assert_eq!(image_status_display("UNKNOWN"), ("?", RowStyleHint::Normal));
}

#[test]
fn test_format_bytes() {
    assert_eq!(format_bytes(0), "0 B");
    assert_eq!(format_bytes(1024), "1.0 KB");
    assert_eq!(format_bytes(1024 * 1024), "1.0 MB");
    assert_eq!(format_bytes(2_147_483_648), "2.0 GB");
}

#[test]
fn format_bytes_rounds_to_one_decimal() {
    assert_eq!(format_bytes(1023), "1023 B");
    assert_eq!(format_bytes(1536), "1.5 KB");
    assert_eq!(format_bytes(1024 * 1024 * 1024 * 1024), "1024.0 GB");
}

#[test]
fn test_image_detail_data() {
    let img = make_view_image();
    let data = image_detail_data(&img);
    assert_eq!(data.title, "Image: Ubuntu 22.04");
    assert_eq!(data.sections.len(), 2);
}

#[test]
fn test_image_create_defs() {
    let defs = image_create_defs();
    assert_eq!(defs.len(), 6);
    assert_eq!(defs[0].name(), "Name");
    assert!(defs[0].validations().contains(&Validation::Required));
    assert_eq!(defs[1].name(), "Disk Format");
    assert!(defs[1].validations().contains(&Validation::Required));
    assert!(matches!(defs[1], FieldDef::Dropdown { .. }));
    assert_eq!(defs[2].name(), "Container Format");
    assert!(defs[2].validations().contains(&Validation::Required));
    assert_eq!(defs[3].name(), "Visibility");
    assert!(!defs[3].validations().contains(&Validation::Required));
    assert_eq!(defs[4].name(), "Min Disk (GB)");
    assert_eq!(defs[5].name(), "Min RAM (MB)");
}

#[test]
fn test_image_columns_count() {
    assert_eq!(image_columns().len(), 5);
}

/// A key as the screen takes it: an open dialog answers it first, then
/// the view; in the create view Esc cancels the form.
fn press(m: &mut ImageModule, key: ostui::ui::key::Key) -> Option<Action> {
    if let Some(r) = m.handle_confirm_key(key) {
        return r;
    }
    match m.view_state() {
        ViewState::List => m.handle_list_key(key),
        ViewState::Detail(_) => m.handle_detail_key(key),
        ViewState::Create => match key {
            ostui::ui::key::Key::Esc => m.handle_create_key(ostui::ui::form::FormAction::Cancel),
            _ => m.handle_create_key(ostui::ui::form::FormAction::Pending),
        },
    }
}

#[test]
fn test_confirm_delete_image() {
    let mut module = setup(true);
    press(&mut module, ostui::ui::key::Key::Char('d'));
    let action = press(&mut module, ostui::ui::key::Key::Char('y'));
    assert!(matches!(action, Some(Action::DeleteImage { .. })));
}

#[test]
fn test_handle_key_r_fetches_images() {
    let mut module = setup(false);
    let action = press(&mut module, ostui::ui::key::Key::Char('r'));
    assert!(matches!(action, Some(Action::FetchImages)));
}
