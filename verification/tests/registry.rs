use ostui::action::Action;
use ostui::models::common::Route;
use ostui::registry::{register_all_modules, ModuleEntry, ModuleRegistry};
use ostui::ui::sidebar::SidebarItem;

fn make_entry(
    route: Route,
    label: &str,
    shortcut: &str,
    display_name: &'static str,
    related: &'static [Route],
    action: Option<Action>,
) -> ModuleEntry<()> {
    ModuleEntry {
        sidebar: SidebarItem { label: label.into(), route, shortcut: shortcut.into(), admin_only: false },
        component: (),
        initial_action: action,
        related_routes: related,
        display_name,
    }
}

#[test]
fn test_module_entry_sidebar_item() {
    let entry = make_entry(Route::Servers, "Servers", "1", "Servers", &[], None);
    assert_eq!(entry.sidebar.label, "Servers");
    assert_eq!(entry.sidebar.route, Route::Servers);
    assert_eq!(entry.display_name, "Servers");
}

#[test]
fn test_registry_register_and_count() {
    let mut registry = ModuleRegistry::new();
    registry.register(make_entry(Route::Servers, "Servers", "1", "Servers", &[], None));
    registry.register(make_entry(Route::Flavors, "Flavors", "2", "Flavors", &[], None));
    let parts = registry.into_parts();
    assert_eq!(parts.components.len(), 2);
    assert_eq!(parts.sidebar_items.len(), 2);
}

#[test]
fn test_registry_into_parts_components() {
    let mut registry = ModuleRegistry::new();
    registry.register(make_entry(Route::Servers, "Servers", "1", "Servers", &[], None));
    let parts = registry.into_parts();
    assert!(parts.has_component(Route::Servers));
}

#[test]
fn test_registry_into_parts_route_labels() {
    let mut registry = ModuleRegistry::new();
    registry.register(make_entry(
        Route::Servers,
        "Servers",
        "1",
        "Servers",
        &[Route::ServerDetail, Route::ServerCreate],
        None,
    ));
    let parts = registry.into_parts();
    assert_eq!(parts.route_label(Route::Servers), Some("Servers"));
    assert_eq!(parts.route_label(Route::ServerDetail), Some("Servers"));
    assert_eq!(parts.route_label(Route::ServerCreate), Some("Servers"));
}

#[test]
fn test_registry_into_parts_initial_actions() {
    let mut registry = ModuleRegistry::new();
    registry.register(make_entry(Route::Servers, "Servers", "1", "Servers", &[], Some(Action::FetchServers)));
    registry.register(make_entry(Route::Flavors, "Flavors", "2", "Flavors", &[], None));
    registry.register(make_entry(Route::Networks, "Networks", "3", "Networks", &[], Some(Action::FetchNetworks)));
    let parts = registry.into_parts();
    assert_eq!(parts.initial_actions.len(), 2);
}

#[test]
fn duplicate_routes_cannot_be_assembled() {
    let mut registry = ModuleRegistry::new();
    registry.register(make_entry(Route::Servers, "Servers", "1", "Servers", &[], None));
    assert!(registry.can_assemble());
    registry.register(make_entry(Route::Servers, "Again", "2", "Again", &[], None));
    assert!(!registry.can_assemble());
}

#[test]
fn standard_modules_assemble_with_labels() {
    let mut registry = ModuleRegistry::new();
    register_all_modules(&mut registry, |r: Route| r);
    assert!(registry.can_assemble());
    let parts = registry.into_parts();
    assert!(parts.has_component(Route::Servers));
    assert!(parts.has_component(Route::Usage));
    assert!(parts.route_label(Route::ServerDetail).is_some());
    for (route, component) in &parts.components {
        assert_eq!(route, component);
    }
}
