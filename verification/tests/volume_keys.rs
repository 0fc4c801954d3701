use ostui::action::Action;
use ostui::event::AppEvent;
use ostui::models::cinder::{Volume, VolumeAttachment};
use ostui::models::nova::{FlavorRef, Server};
use ostui::module::volume::VolumeModule;
use ostui::module::{PendingAction, ViewState};
use ostui::ui::confirm::ConfirmMode;
use ostui::ui::key::Key;
use ostui::ui::select_popup::{ItemHint, SelectResult};

fn make_volume(id: &str, name: &str, status: &str) -> Volume {
    Volume {
        id: id.into(),
        name: Some(name.into()),
        description: None,
        status: status.into(),
        size: 100,
        volume_type: Some("ssd".into()),
        encrypted: false,
        bootable: "false".into(),
        attachments: vec![],
        availability_zone: Some("az1".into()),
        created_at: None,
    }
}

fn att(server_id: &str, device: &str, id: &str) -> VolumeAttachment {
    VolumeAttachment { server_id: server_id.into(), device: device.into(), id: id.into() }
}

fn make_attached_volume(id: &str, name: &str, server_id: &str, device: &str, att_id: &str) -> Volume {
    Volume { status: "in-use".into(), attachments: vec![att(server_id, device, att_id)], ..make_volume(id, name, "in-use") }
}

fn make_server(id: &str, name: &str, status: &str) -> Server {
    Server {
        id: id.into(),
        name: name.into(),
        status: status.into(),
        addresses: vec![],
        flavor: FlavorRef { id: "f1".into(), original_name: None, vcpus: None, ram: None, disk: None },
        image: None,
        key_name: None,
        availability_zone: None,
        created: "2026-01-01".into(),
        updated: None,
        tenant_id: None,
        host_id: None,
        host: None,
        volumes_attached: vec![],
        security_groups: vec![],
    }
}

fn setup() -> VolumeModule {
    let mut module = VolumeModule::new();
    module.handle_event(&AppEvent::VolumesLoaded(vec![
        make_volume("vol-1", "data", "available"),
        make_volume("vol-2", "boot", "in-use"),
        make_volume("vol-3", "temp", "error"),
    ]));
    module
}

fn setup_with_servers() -> VolumeModule {
    let mut module = setup();
    module.handle_event(&AppEvent::ServersLoaded(vec![
        make_server("srv-1", "web-01", "ACTIVE"),
        make_server("srv-2", "db-01", "SHUTOFF"),
        make_server("srv-3", "ci-01", "ERROR"),
    ]));
    module
}

fn detail_of(volume: Volume, admin: bool) -> VolumeModule {
    let mut module = VolumeModule::new();
    module.set_admin(admin);
    module.handle_event(&AppEvent::ServersLoaded(vec![make_server("srv-1", "web-01", "ACTIVE")]));
    module.handle_event(&AppEvent::VolumesLoaded(vec![volume]));
    module.handle_list_key(Key::Enter, false);
    module
}

#[test]
fn test_handle_key_shift_d_opens_confirm() {
    let mut module = setup();
    module.handle_list_key(Key::Char('D'), false);
    assert!(module.confirm_is_active());
    assert_eq!(module.pending_action(), Some(&PendingAction::DeleteVolume { id: "vol-1".into(), name: "data".into() }));
    assert_eq!(module.dialog().unwrap().mode, ConfirmMode::TypeToConfirm("data".into()));
}

#[test]
fn test_handle_key_d_shows_hint_toast() {
    let mut module = setup();
    let action = module.handle_list_key(Key::Char('d'), false);
    assert!(matches!(action, Some(Action::ShowToast { message }) if message.contains("Shift+D")));
    assert!(!module.confirm_is_active());
}

#[test]
fn test_handle_key_d_hint_only_once() {
    let mut module = setup();
    module.handle_list_key(Key::Char('d'), false);
    assert!(module.handle_list_key(Key::Char('d'), false).is_none());
}

#[test]
fn test_handle_key_r_fetches_volumes() {
    let mut module = setup();
    assert!(matches!(module.handle_list_key(Key::Char('r'), false), Some(Action::FetchVolumes)));
}

#[test]
fn test_is_modal_true_when_select_popup_open() {
    let mut module = setup_with_servers();
    module.handle_list_key(Key::Char('a'), false);
    assert!(module.is_modal());
}

#[test]
fn test_attach_opens_server_popup_for_available_volume() {
    let mut module = setup_with_servers();
    module.handle_list_key(Key::Char('a'), false);
    assert!(module.select_popup().is_some());
}

#[test]
fn test_attach_ignores_non_available_volume() {
    let mut module = setup_with_servers();
    module.handle_list_key(Key::Char('j'), false);
    module.handle_list_key(Key::Char('a'), false);
    assert!(module.select_popup().is_none());
}

#[test]
fn test_attach_ignores_transitional_volume() {
    let mut module = VolumeModule::new();
    module.handle_event(&AppEvent::ServersLoaded(vec![make_server("srv-1", "web-01", "ACTIVE")]));
    module.handle_event(&AppEvent::VolumesLoaded(vec![make_volume("vol-1", "data", "attaching")]));
    module.handle_list_key(Key::Char('a'), true);
    assert!(module.select_popup().is_none());
}

#[test]
fn test_attach_server_popup_filters_active_paused_shutoff() {
    let mut module = setup_with_servers();
    module.handle_list_key(Key::Char('a'), false);
    assert_eq!(module.select_popup().unwrap().items.len(), 2);
}

#[test]
fn test_attach_server_popup_shutoff_has_warning_hint() {
    let mut module = setup_with_servers();
    module.handle_list_key(Key::Char('a'), false);
    let popup = module.select_popup().unwrap();
    assert_eq!(popup.items[1].hint, ItemHint::Warning("SHUTOFF".into()));
    assert_eq!(popup.items[0].hint, ItemHint::Normal);
}

#[test]
fn test_attach_popup_cancel_closes() {
    let mut module = setup_with_servers();
    module.handle_list_key(Key::Char('a'), false);
    module.handle_popup_result(SelectResult::Cancelled);
    assert!(module.select_popup().is_none());
    assert!(!module.confirm_is_active());
}

#[test]
fn test_attach_no_popup_when_no_servers() {
    let mut module = setup();
    module.handle_list_key(Key::Char('a'), false);
    assert!(module.select_popup().is_none());
}

#[test]
fn test_attach_full_cycle() {
    let mut module = setup_with_servers();
    module.handle_list_key(Key::Char('a'), false);
    module.handle_popup_result(SelectResult::Selected("srv-1".into()));
    assert!(module.select_popup().is_none());
    assert!(module.confirm_is_active());
    assert_eq!(
        module.pending_action(),
        Some(&PendingAction::AttachVolume { volume_id: "vol-1".into(), server_id: "srv-1".into(), device: None })
    );
    assert_eq!(module.dialog().unwrap().message, "Attach volume to 'web-01'?");
    let action = VolumeModule::resolve_action(module.pending_action().unwrap().clone());
    assert!(matches!(action, Some(Action::AttachVolume { .. })));
}

#[test]
fn test_detach_single_attachment_opens_confirm() {
    let mut module = detail_of(make_attached_volume("vol-1", "data", "srv-1", "/dev/vdb", "att-1"), false);
    module.handle_detail_key(Key::Char('x'), false);
    assert!(module.confirm_is_active());
    assert_eq!(module.dialog().unwrap().message, "Detach volume from 'web-01'?");
    assert_eq!(module.dialog().unwrap().mode, ConfirmMode::YesNo);
}

#[test]
fn test_detach_multiple_attachments_opens_popup() {
    let mut vol = make_attached_volume("vol-1", "data", "srv-1", "/dev/vdb", "att-1");
    vol.attachments.push(att("srv-2", "/dev/vdc", "att-2"));
    let mut module = detail_of(vol, false);
    module.handle_detail_key(Key::Char('x'), false);
    let popup = module.select_popup().unwrap();
    assert_eq!(popup.items.len(), 2);
    assert_eq!(popup.items[0].label, "web-01 (/dev/vdb)");
    assert_eq!(popup.items[1].label, "unknown (/dev/vdc)");
}

#[test]
fn test_detach_ignores_non_in_use_volume() {
    let mut module = detail_of(make_volume("vol-1", "data", "available"), false);
    module.handle_detail_key(Key::Char('x'), false);
    assert!(!module.confirm_is_active());
}

#[test]
fn test_detach_ignores_transitional_volume() {
    let mut vol = make_volume("vol-1", "data", "detaching");
    vol.attachments = vec![att("srv-1", "/dev/vdb", "att-1")];
    let mut module = detail_of(vol, false);
    module.handle_detail_key(Key::Char('x'), true);
    assert!(!module.confirm_is_active());
}

#[test]
fn test_detach_boot_volume_non_admin_rejected() {
    let mut vol = make_attached_volume("vol-1", "boot", "srv-1", "/dev/vda", "att-1");
    vol.bootable = "true".into();
    let mut module = detail_of(vol, false);
    module.take_actions();
    module.handle_detail_key(Key::Char('x'), false);
    assert!(!module.confirm_is_active());
    let actions = module.take_actions();
    assert!(matches!(&actions[0], Action::ShowToast { message } if message.contains("admin required")));
}

#[test]
fn test_detach_boot_volume_admin_type_to_confirm() {
    let mut vol = make_attached_volume("vol-1", "boot", "srv-1", "/dev/vda", "att-1");
    vol.bootable = "true".into();
    let mut module = detail_of(vol, true);
    module.handle_detail_key(Key::Char('x'), false);
    assert!(module.confirm_is_active());
    assert_eq!(module.dialog().unwrap().mode, ConfirmMode::TypeToConfirm("boot".into()));
}

#[test]
fn test_detach_confirm_dispatches_detach_action() {
    let mut module = detail_of(make_attached_volume("vol-1", "data", "srv-1", "/dev/vdb", "att-1"), false);
    module.handle_detail_key(Key::Char('x'), false);
    let action = VolumeModule::resolve_action(module.pending_action().unwrap().clone());
    assert!(matches!(action, Some(Action::DetachVolume { .. })));
}

#[test]
fn test_detach_popup_select_opens_confirm() {
    let mut vol = make_attached_volume("vol-1", "data", "srv-1", "/dev/vdb", "att-1");
    vol.attachments.push(att("srv-2", "/dev/vdc", "att-2"));
    let mut module = detail_of(vol, false);
    module.handle_detail_key(Key::Char('x'), false);
    module.handle_popup_result(SelectResult::Selected("att-2".into()));
    assert!(module.select_popup().is_none());
    assert_eq!(
        module.pending_action(),
        Some(&PendingAction::DetachVolume { volume_id: "vol-1".into(), server_id: "srv-2".into(), attachment_id: "att-2".into() })
    );
}

#[test]
fn test_force_detach_admin_only() {
    let mut module = detail_of(make_attached_volume("vol-1", "data", "srv-1", "/dev/vdb", "att-1"), false);
    module.handle_detail_key(Key::Char('F'), false);
    assert!(!module.confirm_is_active());
}

#[test]
fn test_force_detach_admin_opens_type_to_confirm() {
    let mut module = detail_of(make_attached_volume("vol-1", "data", "srv-1", "/dev/vdb", "att-1"), true);
    module.handle_detail_key(Key::Char('F'), false);
    assert!(module.confirm_is_active());
    let d = module.dialog().unwrap();
    assert_eq!(d.mode, ConfirmMode::TypeToConfirm("data".into()));
    assert!(d.details.iter().any(|l| l.contains("WARNING")));
}

#[test]
fn test_force_detach_confirm_dispatches_action() {
    let mut module = detail_of(make_attached_volume("vol-1", "data", "srv-1", "/dev/vdb", "att-1"), true);
    module.handle_detail_key(Key::Char('F'), false);
    let action = VolumeModule::resolve_action(module.pending_action().unwrap().clone());
    assert!(matches!(action, Some(Action::ForceDetachVolume { .. })));
}

#[test]
fn test_force_detach_error_volume() {
    let mut module = detail_of(make_volume("vol-1", "data", "error"), true);
    module.handle_detail_key(Key::Char('F'), false);
    assert!(module.confirm_is_active());
    assert_eq!(
        module.pending_action(),
        Some(&PendingAction::ForceDetachVolume { volume_id: "vol-1".into(), server_id: "".into(), attachment_id: "".into() })
    );
}

#[test]
fn test_force_detach_ignores_available_volume() {
    let mut module = detail_of(make_volume("vol-1", "data", "available"), true);
    module.handle_detail_key(Key::Char('F'), false);
    assert!(!module.confirm_is_active());
}

#[test]
fn test_force_detach_ignores_transitional_volume() {
    let mut module = detail_of(make_volume("vol-1", "data", "detaching"), true);
    module.handle_detail_key(Key::Char('F'), true);
    assert!(!module.confirm_is_active());
}

#[test]
fn test_state_reset_admin_only() {
    let mut module = detail_of(make_volume("vol-1", "data", "error"), false);
    module.handle_detail_key(Key::Char('R'), false);
    assert!(!module.confirm_is_active());
}

#[test]
fn test_state_reset_admin_opens_type_to_confirm() {
    let mut module = detail_of(make_volume("vol-1", "data", "error"), true);
    module.handle_detail_key(Key::Char('R'), false);
    assert_eq!(module.dialog().unwrap().mode, ConfirmMode::TypeToConfirm("data".into()));
    assert_eq!(module.dialog().unwrap().message, "Reset volume 'data' state to available?");
}

#[test]
fn test_state_reset_confirm_dispatches_action() {
    let mut module = detail_of(make_volume("vol-1", "data", "error"), true);
    module.handle_detail_key(Key::Char('R'), false);
    let action = VolumeModule::resolve_action(module.pending_action().unwrap().clone());
    assert!(matches!(action, Some(Action::ForceResetVolumeState { .. })));
}

#[test]
fn test_state_reset_ignores_available() {
    let mut module = detail_of(make_volume("vol-1", "data", "available"), true);
    module.handle_detail_key(Key::Char('R'), false);
    assert!(!module.confirm_is_active());
}

#[test]
fn test_state_reset_ignores_in_use() {
    let mut module = detail_of(make_attached_volume("vol-1", "data", "srv-1", "/dev/vdb", "att-1"), true);
    module.handle_detail_key(Key::Char('R'), false);
    assert!(!module.confirm_is_active());
}

#[test]
fn test_state_reset_ignores_transitional() {
    let mut module = detail_of(make_volume("vol-1", "data", "attaching"), true);
    module.handle_detail_key(Key::Char('R'), true);
    assert!(!module.confirm_is_active());
}

#[test]
fn test_attach_popup_in_list_cancel() {
    let mut module = setup_with_servers();
    module.handle_list_key(Key::Char('a'), false);
    assert!(module.handle_list_key(Key::Char('j'), false).is_none());
    assert_eq!(module.selected_index(), 0);
    module.handle_popup_result(SelectResult::Cancelled);
    assert!(module.select_popup().is_none());
    assert_eq!(*module.view_state(), ViewState::List);
}

/// A key as the list screen takes it: an open dialog answers first.
fn press_list(m: &mut VolumeModule, key: Key) -> Option<Action> {
    if let Some(r) = m.handle_confirm_key(key) {
        return r;
    }
    match m.view_state() {
        ViewState::Create => m.handle_create_key(match key {
            Key::Esc => ostui::ui::form::FormAction::Cancel,
            _ => ostui::ui::form::FormAction::Pending,
        }),
        ViewState::Detail(_) => m.handle_detail_key(key, false),
        ViewState::List => m.handle_list_key(key, false),
    }
}

#[test]
fn test_confirm_delete_volume() {
    let mut module = setup();
    press_list(&mut module, Key::Char('D'));
    // Type the volume name to confirm
    for c in "data".chars() {
        press_list(&mut module, Key::Char(c));
    }
    let action = press_list(&mut module, Key::Enter);
    assert!(matches!(action, Some(Action::DeleteVolume { .. })));
    assert!(!module.confirm_is_active());
}

#[test]
fn mod_test_is_modal_true_when_confirm_active() {
    let mut module = setup();
    press_list(&mut module, Key::Char('D'));
    assert!(module.is_modal());
}

#[test]
fn mod_test_is_modal_true_when_form_open() {
    let mut module = setup();
    press_list(&mut module, Key::Char('c'));
    assert!(module.is_modal());
}

#[test]
fn volume_create_form_cancel_returns_to_list() {
    let mut module = setup();
    press_list(&mut module, Key::Char('c'));
    assert_eq!(*module.view_state(), ViewState::Create);
    press_list(&mut module, Key::Esc);
    assert_eq!(*module.view_state(), ViewState::List);
    assert!(!module.form_is_open());
    assert_eq!(module.help_hint(), "Enter:Detail c:Create a:Attach D:Delete r:Refresh");
}
