use ostui::action::Action;
use ostui::event::AppEvent;
use ostui::models::nova::Flavor;
use ostui::module::flavor::view_model::{flavor_columns, flavor_create_defs, flavor_to_row};
use ostui::module::flavor::FlavorModule;
use ostui::ui::form::{FieldDef, Validation};

fn make_flavor(id: &str, name: &str) -> Flavor {
    Flavor { id: id.into(), name: name.into(), vcpus: 2, ram: 4096, disk: 40, is_public: true }
}

fn setup(is_admin: bool) -> FlavorModule {
    let mut module = FlavorModule::new();
    module.set_admin(is_admin);
    let flavors = vec![make_flavor("f1", "m1.small"), make_flavor("f2", "m1.medium"), make_flavor("f3", "m1.large")];
    module.handle_event(&AppEvent::FlavorsLoaded(flavors));
    module
}

#[test]
fn test_handle_event_flavors_loaded() {
    let mut module = FlavorModule::new();
    assert!(module.flavors().is_empty());

    let flavors = vec![make_flavor("f1", "test")];
    module.handle_event(&AppEvent::FlavorsLoaded(flavors));
    assert_eq!(module.flavors().len(), 1);
}

#[test]
fn test_handle_event_flavor_deleted_triggers_refresh() {
    let mut module = setup(true);
    module.handle_event(&AppEvent::FlavorDeleted { id: "f1".into() });
    let actions = module.take_actions();
    assert!(matches!(actions[0], Action::FetchFlavors));
}

#[test]
fn test_set_admin_via_trait_dispatch() {
    let mut module = FlavorModule::new();
    module.set_admin(true);
    assert!(module.is_admin());
}

#[test]
fn test_flavor_to_row() {
    let flavor = Flavor { id: "flv-1".into(), name: "m1.small".into(), vcpus: 2, ram: 4096, disk: 40, is_public: true };
    let row = flavor_to_row(&flavor);
    assert_eq!(row.id, "flv-1");
    assert_eq!(row.cells[0], "m1.small");
    assert_eq!(row.cells[1], "2");
    assert_eq!(row.cells[2], "4096");
    assert_eq!(row.cells[3], "40");
    assert_eq!(row.cells[4], "✓");
}

#[test]
fn test_flavor_create_defs() {
    let defs = flavor_create_defs();
    assert_eq!(defs.len(), 5);
    assert_eq!(defs[0].name(), "Name");
    assert!(defs[0].validations().contains(&Validation::Required));
    assert_eq!(defs[1].name(), "vCPU");
    assert!(defs[1].validations().contains(&Validation::Required));
    assert_eq!(defs[2].name(), "RAM (MB)");
    assert!(defs[2].validations().contains(&Validation::Required));
    assert_eq!(defs[3].name(), "Disk (GB)");
    assert!(defs[3].validations().contains(&Validation::Required));
    assert_eq!(defs[4].name(), "Public");
    assert!(matches!(defs[4], FieldDef::Checkbox { .. }));
}

#[test]
fn test_flavor_columns_count() {
    assert_eq!(flavor_columns().len(), 5);
}

#[test]
fn private_flavor_row_shows_no_mark() {
    let mut flavor = make_flavor("f9", "tiny");
    flavor.is_public = false;
    assert_ne!(flavor_to_row(&flavor).cells[4], "✓");
}
