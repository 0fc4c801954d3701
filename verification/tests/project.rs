use ostui::action::Action;
use ostui::event::AppEvent;
use ostui::models::keystone::Project;
use ostui::module::project::view_model::{project_columns, project_create_form, project_detail_data, project_to_row};
use ostui::module::project::ProjectModule;
use ostui::ui::resource_list::RowStyleHint;

fn make_project() -> Project {
    Project {
        id: "proj-1".into(),
        name: "admin".into(),
        description: Some("Admin project".into()),
        enabled: true,
        domain_id: Some("default".into()),
    }
}

#[test]
fn test_project_to_row() {
    let proj = make_project();
    let row = project_to_row(&proj);
    assert_eq!(row.cells[0], "admin");
    assert_eq!(row.cells[2], "✓");
    assert_eq!(row.style_hint, Some(RowStyleHint::Normal));
}

#[test]
fn test_project_to_row_disabled() {
    let mut proj = make_project();
    proj.enabled = false;
    let row = project_to_row(&proj);
    assert_eq!(row.cells[2], "✗");
    assert_eq!(row.style_hint, Some(RowStyleHint::Disabled));
}

#[test]
fn test_project_detail_data() {
    let proj = make_project();
    let data = project_detail_data(&proj);
    assert_eq!(data.title, "Project: admin");
    assert_eq!(data.sections.len(), 1);
}

#[test]
fn test_project_create_form() {
    let form = project_create_form();
    assert_eq!(form.len(), 4);
    assert!(form[0].required);
    assert!(form[2].required);
}

#[test]
fn test_project_columns_count() {
    assert_eq!(project_columns().len(), 4);
}

#[test]
fn failed_request_shows_operation_and_message() {
    let mut m = ProjectModule::new();
    m.handle_event(&AppEvent::ApiError { operation: "list projects".into(), message: "denied".into() });
    assert_eq!(m.error_message(), Some("list projects: denied"));
    m.handle_event(&AppEvent::ProjectsLoaded(vec![make_project()]));
    assert_eq!(m.error_message(), None);
    assert_eq!(m.refresh_action(), Some(Action::FetchProjects));
}

fn setup_projects() -> ProjectModule {
    let mut m = ProjectModule::new();
    m.handle_event(&ostui::event::AppEvent::ProjectsLoaded(vec![
        Project { id: "p1".into(), name: "admin".into(), description: None, enabled: true, domain_id: Some("default".into()) },
        Project { id: "p2".into(), name: "demo".into(), description: None, enabled: true, domain_id: Some("default".into()) },
    ]));
    m
}

#[test]
fn test_enter_detail() {
    let mut m = setup_projects();
    m.handle_list_key(ostui::ui::key::Key::Enter);
    assert_eq!(*m.view_state(), ostui::module::ViewState::Detail("p1".into()));
}

#[test]
fn test_esc_to_list() {
    let mut m = setup_projects();
    m.handle_list_key(ostui::ui::key::Key::Enter);
    m.handle_detail_key(ostui::ui::key::Key::Esc);
    assert_eq!(*m.view_state(), ostui::module::ViewState::List);
}

#[test]
fn project_delete_asks_to_type_the_name() {
    let mut m = setup_projects();
    m.handle_list_key(ostui::ui::key::Key::Char('d'));
    assert!(m.confirm_is_active());
    let c = m.handle_list_key(ostui::ui::key::Key::Char('c'));
    assert_eq!(c, Some(Action::EnterFormMode));
    assert!(m.form_is_open());
}
