use ostui::models::keystone::User;
use ostui::module::user::view_model::{user_columns, user_create_defs, user_to_row};
use ostui::ui::form::{FieldDef, Validation};
use ostui::ui::resource_list::RowStyleHint;

fn make_user() -> User {
    User {
        id: "user-1".into(),
        name: "admin".into(),
        email: Some("admin@example.com".into()),
        enabled: true,
        default_project_id: None,
        domain_id: Some("default".into()),
    }
}

#[test]
fn test_user_to_row() {
    let row = user_to_row(&make_user());
    assert_eq!(row.cells[0], "admin");
    assert_eq!(row.cells[1], "admin@example.com");
    assert_eq!(row.cells[2], "✓");
}

#[test]
fn test_user_to_row_disabled() {
    let mut u = make_user();
    u.enabled = false;
    assert_eq!(user_to_row(&u).style_hint, Some(RowStyleHint::Disabled));
}

#[test]
fn test_user_create_defs() {
    let defs = user_create_defs();
    assert_eq!(defs.len(), 5);
    assert_eq!(defs[0].name(), "Username");
    assert!(defs[0].validations().contains(&Validation::Required));
    assert_eq!(defs[1].name(), "Password");
    assert!(defs[1].validations().contains(&Validation::Required));
    assert_eq!(defs[2].name(), "Email");
    assert!(!defs[2].validations().contains(&Validation::Required));
    assert_eq!(defs[3].name(), "Domain ID");
    assert!(defs[3].validations().contains(&Validation::Required));
    assert_eq!(defs[4].name(), "Enabled");
    assert!(matches!(defs[4], FieldDef::Checkbox { .. }));
}

#[test]
fn test_user_columns_count() {
    assert_eq!(user_columns().len(), 4);
    assert_eq!(user_to_row(&make_user()).cells.len(), user_columns().len());
}
