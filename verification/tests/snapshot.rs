use ostui::action::Action;
use ostui::event::AppEvent;
use ostui::models::cinder::VolumeSnapshot;
use ostui::module::snapshot::view_model::{snapshot_columns, snapshot_detail_data, snapshot_status_display, snapshot_to_row};
use ostui::module::snapshot::SnapshotModule;
use ostui::ui::resource_list::RowStyleHint;

fn make_snapshot(id: &str, name: &str, status: &str) -> VolumeSnapshot {
    VolumeSnapshot {
        id: id.into(),
        name: Some(name.into()),
        status: status.into(),
        size: 100,
        volume_id: "vol-1".into(),
        created_at: Some("2026-01-15T00:00:00Z".into()),
        tenant_id: None,
    }
}

fn setup() -> SnapshotModule {
    let mut module = SnapshotModule::new();
    let snaps = vec![
        make_snapshot("snap-1", "daily", "available"),
        make_snapshot("snap-2", "weekly", "available"),
        make_snapshot("snap-3", "failed", "error"),
    ];
    module.handle_event(&AppEvent::SnapshotsLoaded(snaps));
    module
}

#[test]
fn test_handle_event_snapshots_loaded() {
    let mut module = SnapshotModule::new();
    let snaps = vec![make_snapshot("snap-1", "test", "available")];
    module.handle_event(&AppEvent::SnapshotsLoaded(snaps));
    assert_eq!(module.snapshots().len(), 1);
}

#[test]
fn test_handle_event_snapshot_deleted_triggers_refresh() {
    let mut module = setup();
    module.handle_event(&AppEvent::SnapshotDeleted { id: "snap-1".into() });
    let actions = module.take_actions();
    assert!(matches!(actions[0], Action::FetchSnapshots));
}

#[test]
fn test_snapshot_to_row() {
    let snap = make_snapshot("snap-1", "daily-backup", "available");
    let row = snapshot_to_row(&snap, false);
    assert_eq!(row.id, "snap-1");
    assert_eq!(row.cells[0], "daily-backup");
    assert!(row.cells[1].contains("available"));
    assert_eq!(row.cells[2], "100");
    assert_eq!(row.cells[3], "vol-1");
    assert_eq!(row.style_hint, Some(RowStyleHint::Active));
}

#[test]
fn test_snapshot_status_display() {
    assert_eq!(snapshot_status_display("available"), ("●", RowStyleHint::Active));
    assert_eq!(snapshot_status_display("error"), ("✗", RowStyleHint::Error));
    assert_eq!(snapshot_status_display("creating"), ("◐", RowStyleHint::Warning));
    assert_eq!(snapshot_status_display("UNKNOWN"), ("?", RowStyleHint::Normal));
}

#[test]
fn test_snapshot_detail_data() {
    let snap = make_snapshot("snap-1", "daily-backup", "available");
    let data = snapshot_detail_data(&snap);
    assert_eq!(data.title, "Snapshot: daily-backup");
    assert_eq!(data.sections.len(), 1);
}

#[test]
fn test_snapshot_columns_count() {
    assert_eq!(snapshot_columns(false).len(), 5);
    assert_eq!(snapshot_columns(true).len(), 6);
    assert_eq!(snapshot_columns(true)[1].name, "Project");
}

#[test]
fn snapshot_delete_asks_yes_no_by_name() {
    let mut module = setup();
    module.handle_list_key(ostui::ui::key::Key::Char('j'));
    module.handle_list_key(ostui::ui::key::Key::Char('d'));
    assert!(module.confirm_is_active());
    let r = module.handle_list_key(ostui::ui::key::Key::Char('r'));
    assert_eq!(r, Some(Action::FetchSnapshots));
}

fn press(m: &mut SnapshotModule, key: ostui::ui::key::Key) -> Option<Action> {
    m.handle_key(key)
}

#[test]
fn test_handle_key_d_delete_confirm() {
    let mut module = setup();
    assert!(!module.confirm_is_active());
    press(&mut module, ostui::ui::key::Key::Char('d'));
    assert!(module.confirm_is_active());
}

#[test]
fn test_confirm_delete_snapshot() {
    let mut module = setup();
    press(&mut module, ostui::ui::key::Key::Char('d'));
    let action = press(&mut module, ostui::ui::key::Key::Char('y'));
    assert!(matches!(action, Some(Action::DeleteSnapshot { .. })));
    assert!(!module.confirm_is_active());
}

#[test]
fn test_handle_key_r_fetches_snapshots() {
    let mut module = setup();
    let action = press(&mut module, ostui::ui::key::Key::Char('r'));
    assert!(matches!(action, Some(Action::FetchSnapshots)));
}
