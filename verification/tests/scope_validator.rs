use ostui::module::common::scope_validator::{validate_form_scope, CrossProjectReason, FormSelection};

#[test]
fn test_validate_single_selection_match_passes() {
    let selections = [FormSelection { field: "image", project_id: Some("A") }];
    let result = validate_form_scope("A", &selections);
    assert!(result.is_ok(), "matching project_id must pass");
}

#[test]
fn test_validate_single_selection_mismatch_returns_error() {
    let selections = [FormSelection { field: "image", project_id: Some("B") }];
    let err = validate_form_scope("A", &selections).expect_err("mismatch must error");
    assert_eq!(err.field, "image");
    match err.reason {
        CrossProjectReason::FormSelectionMismatch { selected, active } => {
            assert_eq!(selected, "B");
            assert_eq!(active, "A");
        }
    }
}

#[test]
fn test_validate_multi_selection_first_mismatch_wins() {
    let selections = [
        FormSelection { field: "image", project_id: Some("A") },
        FormSelection { field: "network", project_id: Some("B") },
        FormSelection { field: "security_group", project_id: Some("C") },
    ];
    let err = validate_form_scope("A", &selections).expect_err("must error on first mismatch");
    assert_eq!(err.field, "network", "first mismatched field must be reported, subsequent mismatches ignored");
    match err.reason {
        CrossProjectReason::FormSelectionMismatch { selected, .. } => {
            assert_eq!(selected, "B");
        }
    }
}

#[test]
fn test_validation_error_carries_field_name_and_reason() {
    let selections = [FormSelection { field: "flavor", project_id: None }];
    let err = validate_form_scope("A", &selections).expect_err("None must fail-safe");
    assert_eq!(err.field, "flavor");
    match err.reason {
        CrossProjectReason::FormSelectionMismatch { selected, active } => {
            assert_eq!(selected, "", "None project_id encodes as empty selected");
            assert_eq!(active, "A");
        }
    }
}

#[test]
fn no_selections_pass() {
    assert!(validate_form_scope("A", &[]).is_ok());
}
