use ostui::action::Action;
use ostui::module::{ConfirmHandler, PendingAction};
use ostui::ui::confirm::{ConfirmDialog, ConfirmResult};
use ostui::ui::key::Key;

#[test]
fn test_confirm_handler_flow() {
    let mut handler = ConfirmHandler::new();
    assert!(!handler.is_active());

    handler.open(
        ConfirmDialog::yes_no("Delete?".to_string()),
        PendingAction::Delete { id: "s1".into(), name: "web".into() },
    );
    assert!(handler.is_active());

    // Confirm
    let result = handler.handle_key(Key::Char('y'), |pa| match pa {
        PendingAction::Delete { id, name } => Some(Action::DeleteServer { id, name }),
        _ => None,
    });
    assert!(result.is_some());
    let action = result.unwrap();
    assert!(matches!(action, Some(Action::DeleteServer { .. })));
    assert!(!handler.is_active());
}

#[test]
fn test_confirm_handler_cancel() {
    let mut handler = ConfirmHandler::new();
    handler.open(
        ConfirmDialog::yes_no("Delete?".to_string()),
        PendingAction::Delete { id: "s1".into(), name: "web".into() },
    );

    let result = handler.handle_key(Key::Esc, |_| None);
    assert!(matches!(result, Some(None)));
    assert!(!handler.is_active());
    assert!(handler.pending.is_none());
}

#[test]
fn test_confirm_handler_inactive_returns_none() {
    let mut handler = ConfirmHandler::new();
    let result = handler.handle_key(Key::Char('y'), |_| None);
    assert!(result.is_none());
}

#[test]
fn confirm_handler_other_key_keeps_dialog_and_pending() {
    let mut handler = ConfirmHandler::new();
    handler.open(ConfirmDialog::yes_no("Stop?".to_string()), PendingAction::Stop { id: "s1".into() });
    let result = handler.handle_key(Key::Char('x'), |_| Some(Action::Back));
    assert!(matches!(result, Some(None)));
    assert!(handler.is_active());
    assert_eq!(handler.pending, Some(PendingAction::Stop { id: "s1".into() }));
    // `n` cancels a yes/no dialog
    let result = handler.handle_key(Key::Char('n'), |_| Some(Action::Back));
    assert!(matches!(result, Some(None)));
    assert!(!handler.is_active());
    assert!(handler.pending.is_none());
}

#[test]
fn type_to_confirm_needs_the_exact_text() {
    let mut d = ConfirmDialog::type_to_confirm("Delete 'web'?".to_string(), "web".to_string());
    assert_eq!(d.handle_key(Key::Enter), ConfirmResult::Pending);
    assert_eq!(d.handle_key(Key::Char('w')), ConfirmResult::Pending);
    assert_eq!(d.handle_key(Key::Char('x')), ConfirmResult::Pending);
    assert_eq!(d.handle_key(Key::Backspace), ConfirmResult::Pending);
    assert_eq!(d.input, vec!['w']);
    assert_eq!(d.handle_key(Key::Char('y')), ConfirmResult::Pending);
    // `y` is typed here, not a yes
    assert_eq!(d.input, vec!['w', 'y']);
    assert_eq!(d.handle_key(Key::Enter), ConfirmResult::Pending);
    assert_eq!(d.handle_key(Key::Backspace), ConfirmResult::Pending);
    assert_eq!(d.handle_key(Key::Char('e')), ConfirmResult::Pending);
    assert_eq!(d.handle_key(Key::Char('b')), ConfirmResult::Pending);
    assert_eq!(d.handle_key(Key::Enter), ConfirmResult::Confirmed);
    assert_eq!(d.message, "Delete 'web'?");
}

#[test]
fn type_to_confirm_esc_cancels_and_backspace_on_empty_is_harmless() {
    let mut d = ConfirmDialog::type_to_confirm("Delete?".to_string(), "db".to_string());
    assert_eq!(d.handle_key(Key::Backspace), ConfirmResult::Pending);
    assert!(d.input.is_empty());
    assert_eq!(d.handle_key(Key::Esc), ConfirmResult::Cancelled);
}

#[test]
fn confirmed_dialog_without_pending_action_gives_no_action() {
    let mut handler = ConfirmHandler { dialog: Some(ConfirmDialog::yes_no("Go?".to_string())), pending: None };
    let result = handler.handle_key(Key::Char('y'), |_| Some(Action::Back));
    assert!(matches!(result, Some(None)));
    assert!(!handler.is_active());
}
