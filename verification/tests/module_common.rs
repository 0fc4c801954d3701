use ostui::module::{ConfirmHandler, PendingAction, ViewState};
use ostui::ui::confirm::ConfirmDialog;

#[test]
fn test_view_state_default_is_list() {
    let state = ViewState::List;
    assert_eq!(state, ViewState::List);
}

#[test]
fn test_pending_action_variants() {
    let actions: Vec<PendingAction> = vec![
        PendingAction::Delete { id: "s1".into(), name: "web".into() },
        PendingAction::Reboot { id: "s1".into(), hard: true },
        PendingAction::Stop { id: "s1".into() },
        PendingAction::Submit,
        PendingAction::DeleteSecurityGroup { id: "sg1".into(), name: "default".into() },
        PendingAction::DeleteSecurityGroupRule { rule_id: "rule1".into() },
        PendingAction::DeleteFloatingIp { id: "fip1".into(), ip: "203.0.113.10".into() },
        PendingAction::DeleteVolume { id: "vol1".into(), name: "data-vol".into() },
        PendingAction::DeleteSnapshot { id: "snap1".into(), name: "daily".into() },
        PendingAction::DeleteImage { id: "img1".into(), name: "ubuntu".into() },
        PendingAction::DeleteProject { id: "proj1".into(), name: "test".into() },
        PendingAction::DeleteUser { id: "user1".into(), name: "admin".into() },
    ];
    assert_eq!(actions.len(), 12);
}

#[test]
fn test_migration_pending_action_variants() {
    let actions: Vec<PendingAction> = vec![
        PendingAction::LiveMigrate { id: "s1".into() },
        PendingAction::ColdMigrate { id: "s1".into() },
        PendingAction::ConfirmMigrate { id: "s1".into() },
        PendingAction::RevertMigrate { id: "s1".into() },
        PendingAction::Evacuate { id: "s1".into() },
    ];
    assert_eq!(actions.len(), 5);
}

#[test]
fn confirm_handler_opens_with_its_pending_action() {
    let mut handler = ConfirmHandler::new();
    assert!(!handler.is_active());
    handler.open(ConfirmDialog::yes_no("Delete?".into()), PendingAction::Delete { id: "s1".into(), name: "web".into() });
    assert!(handler.is_active());
    assert_eq!(handler.pending, Some(PendingAction::Delete { id: "s1".into(), name: "web".into() }));
}
