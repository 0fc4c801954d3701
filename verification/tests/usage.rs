use ostui::action::Action;
use ostui::event::AppEvent;
use ostui::models::keystone::Project;
use ostui::models::nova::Hypervisor;
use ostui::module::usage::{resolve_project_name, DateRangePreset, UsageModule, UsagePeriods};
use ostui::ui::key::Key;

#[derive(Debug, Clone, PartialEq)]
struct TenantUsage {
    tenant_id: String,
    total_vcpus_usage: f64,
    total_memory_mb_usage: f64,
    total_local_gb_usage: f64,
    total_hours: f64,
    servers: usize,
}

fn make_module() -> UsageModule<TenantUsage> {
    UsageModule::new()
}

fn periods() -> UsagePeriods {
    UsagePeriods {
        this_month: ("2026-03-01T00:00:00+00:00".into(), "2026-03-15T12:00:00+00:00".into()),
        last_month: ("2026-02-01T00:00:00+00:00".into(), "2026-03-01T00:00:00+00:00".into()),
        last_7_days: ("2026-03-08T12:00:00+00:00".into(), "2026-03-15T12:00:00+00:00".into()),
    }
}

fn sample_hypervisors() -> Vec<Hypervisor> {
    vec![
        Hypervisor {
            id: "1".into(),
            hypervisor_hostname: "compute-01".into(),
            hypervisor_type: "QEMU".into(),
            vcpus: 64,
            vcpus_used: 32,
            memory_mb: 131072,
            memory_mb_used: 65536,
            local_gb: 2000,
            local_gb_used: 500,
            running_vms: 20,
            status: "enabled".into(),
            state: "up".into(),
        },
        Hypervisor {
            id: "2".into(),
            hypervisor_hostname: "compute-02".into(),
            hypervisor_type: "QEMU".into(),
            vcpus: 64,
            vcpus_used: 48,
            memory_mb: 131072,
            memory_mb_used: 98304,
            local_gb: 2000,
            local_gb_used: 1500,
            running_vms: 30,
            status: "enabled".into(),
            state: "up".into(),
        },
    ]
}

fn sample_usages() -> Vec<TenantUsage> {
    vec![
        TenantUsage {
            tenant_id: "proj-1".into(),
            total_vcpus_usage: 100.0,
            total_memory_mb_usage: 204800.0,
            total_local_gb_usage: 500.0,
            total_hours: 720.0,
            servers: 1,
        },
        TenantUsage {
            tenant_id: "proj-2".into(),
            total_vcpus_usage: 200.0,
            total_memory_mb_usage: 409600.0,
            total_local_gb_usage: 1000.0,
            total_hours: 1440.0,
            servers: 2,
        },
    ]
}

fn sample_projects() -> Vec<Project> {
    vec![
        Project { id: "proj-1".into(), name: "web-team".into(), description: None, enabled: true, domain_id: Some("default".into()) },
        Project { id: "proj-2".into(), name: "data-team".into(), description: None, enabled: true, domain_id: Some("default".into()) },
    ]
}

fn mounted_module() -> UsageModule<TenantUsage> {
    let mut m = make_module();
    m.handle_key(Key::Char('x'), &periods());
    m.take_actions();
    m
}

#[test]
fn test_date_range_label() {
    assert_eq!(DateRangePreset::ThisMonth.label(), "This Month");
    assert_eq!(DateRangePreset::LastMonth.label(), "Last Month");
    assert_eq!(DateRangePreset::Last7Days.label(), "Last 7 Days");
}

#[test]
fn test_date_range_next_cycles() {
    let mut d = DateRangePreset::ThisMonth;
    d = d.next();
    assert_eq!(d, DateRangePreset::LastMonth);
    d = d.next();
    assert_eq!(d, DateRangePreset::Last7Days);
    d = d.next();
    assert_eq!(d, DateRangePreset::ThisMonth);
}

#[test]
fn test_date_range_prev_cycles() {
    let mut d = DateRangePreset::ThisMonth;
    d = d.prev();
    assert_eq!(d, DateRangePreset::Last7Days);
    d = d.prev();
    assert_eq!(d, DateRangePreset::LastMonth);
    d = d.prev();
    assert_eq!(d, DateRangePreset::ThisMonth);
}

#[test]
fn test_new_module_defaults() {
    let m = make_module();
    assert_eq!(m.date_range(), DateRangePreset::ThisMonth);
    assert!(m.tenant_usages().is_empty());
    assert!(m.hypervisors().is_empty());
    assert_eq!(m.scroll_offset(), 0);
    assert!(m.error_message().is_none());
}

#[test]
fn test_handle_event_usage_loaded() {
    let mut m = mounted_module();
    assert!(m.is_loading());
    let usages = sample_usages();
    m.handle_usage_loaded(usages.clone());
    assert_eq!(m.tenant_usages().len(), 2);
    assert!(!m.is_loading());
    assert!(m.error_message().is_none());
}

#[test]
fn test_handle_event_hypervisors_loaded() {
    let mut m = make_module();
    let hvs = sample_hypervisors();
    m.handle_event(&AppEvent::HypervisorsLoaded(hvs.clone()));
    assert_eq!(m.hypervisors().len(), 2);
}

#[test]
fn test_handle_event_projects_loaded() {
    let mut m = make_module();
    m.handle_event(&AppEvent::ProjectsLoaded(sample_projects()));
    assert_eq!(m.project_name("proj-2"), "data-team");
    assert_eq!(m.project_name("proj-1"), "web-team");
}

#[test]
fn test_refresh_action_returns_fetch_usage() {
    let m = make_module();
    match m.refresh_action(&periods()) {
        Some(Action::FetchUsage { .. }) => {}
        other => panic!("expected Some(FetchUsage), got {other:?}"),
    }
}

#[test]
fn test_on_context_changed_dispatches_hypervisors_and_projects() {
    let mut m = make_module();
    m.take_actions();

    m.on_context_changed();

    let mut saw_hv = false;
    let mut saw_proj = false;
    for action in m.take_actions() {
        match action {
            Action::FetchHypervisors => saw_hv = true,
            Action::FetchProjects => saw_proj = true,
            _ => {}
        }
    }
    assert!(saw_hv, "on_context_changed must dispatch FetchHypervisors");
    assert!(saw_proj, "on_context_changed must dispatch FetchProjects");
}

#[test]
fn test_resolve_project_name_found() {
    let mut m = make_module();
    m.handle_event(&AppEvent::ProjectsLoaded(sample_projects()));
    assert_eq!(m.project_name("proj-1"), "web-team");
    assert_eq!(resolve_project_name(&sample_projects(), "proj-1"), "web-team");
}

#[test]
fn test_resolve_project_name_not_found_short_id() {
    let m = make_module();
    assert_eq!(m.project_name("abc"), "abc");
}

#[test]
fn test_resolve_project_name_not_found_long_id() {
    let m = make_module();
    let long_id = "abcdefghij1234567890";
    let resolved = m.project_name(long_id);
    assert_eq!(resolved, "abcdefgh...");
}

#[test]
fn test_handle_event_unrelated_is_noop() {
    let mut m = make_module();
    m.handle_event(&AppEvent::ServersLoaded(vec![]));
    assert!(m.tenant_usages().is_empty());
    assert!(m.hypervisors().is_empty());
}

#[test]
fn test_usage_loaded_clears_error() {
    let mut m = make_module();
    m.handle_event(&AppEvent::ApiError { operation: "FetchUsage".into(), message: "old error".into() });
    assert!(m.error_message().is_some());
    m.handle_usage_loaded(vec![]);
    assert!(m.error_message().is_none());
}

#[test]
fn first_key_only_starts_loading() {
    let mut m = make_module();
    let r = m.handle_key(Key::Char('r'), &periods());
    assert_eq!(r, None);
    let actions = m.take_actions();
    assert_eq!(
        actions,
        vec![
            Action::FetchUsage { start: "2026-03-01T00:00:00+00:00".into(), end: "2026-03-15T12:00:00+00:00".into() },
            Action::FetchHypervisors,
            Action::FetchProjects,
        ]
    );
}

#[test]
fn period_keys_step_and_reload_the_chosen_window() {
    let mut m = mounted_module();
    m.handle_key(Key::Char(']'), &periods());
    assert_eq!(m.date_range(), DateRangePreset::LastMonth);
    assert_eq!(
        m.take_actions(),
        vec![Action::FetchUsage { start: "2026-02-01T00:00:00+00:00".into(), end: "2026-03-01T00:00:00+00:00".into() }]
    );
    m.handle_key(Key::Char('['), &periods());
    m.handle_key(Key::Char('['), &periods());
    assert_eq!(m.date_range(), DateRangePreset::Last7Days);
}

#[test]
fn scrolling_stays_within_the_records() {
    let mut m = mounted_module();
    m.handle_usage_loaded(sample_usages());
    m.handle_key(Key::Char('j'), &periods());
    m.handle_key(Key::Char('j'), &periods());
    m.handle_key(Key::Char('j'), &periods());
    assert_eq!(m.scroll_offset(), 1);
    m.handle_key(Key::Up, &periods());
    m.handle_key(Key::Up, &periods());
    assert_eq!(m.scroll_offset(), 0);
    let _unused = (sample_usages()[0].total_memory_mb_usage, sample_usages()[0].total_local_gb_usage, sample_usages()[0].total_hours, sample_usages()[0].servers, sample_usages()[0].total_vcpus_usage);
}

#[test]
fn known_long_non_ascii_id_resolves_without_cutting() {
    let projects = vec![Project { id: "ééééééé".into(), name: "accents".into(), description: None, enabled: true, domain_id: None }];
    assert_eq!(resolve_project_name(&projects, "ééééééé"), "accents");
}

#[test]
fn previous_month_wraps_into_last_year() {
    assert_eq!(ostui::module::usage::previous_month(2026, 1), (2025, 12));
    assert_eq!(ostui::module::usage::previous_month(2026, 7), (2026, 6));
}

/// A mounted screen scrolled down to `offset`, with enough records for it.
fn scrolled_module(offset: usize) -> UsageModule<TenantUsage> {
    let mut m = mounted_module();
    let mut usages = Vec::new();
    for _ in 0..=offset {
        usages.extend(sample_usages());
    }
    m.handle_usage_loaded(usages);
    for _ in 0..offset {
        m.handle_key(Key::Char('j'), &periods());
    }
    assert_eq!(m.scroll_offset(), offset);
    m
}

#[test]
fn test_key_bracket_changes_date_range() {
    let mut m = make_module();
    assert_eq!(m.date_range(), DateRangePreset::ThisMonth);

    // First key triggers mount (consumed)
    m.handle_key(Key::Char('r'), &periods());
    // Drain mount fetch actions
    m.take_actions();

    // Now '[' changes date range
    let result = m.handle_key(Key::Char('['), &periods());
    assert!(result.is_none());
    assert_eq!(m.date_range(), DateRangePreset::Last7Days);
    assert!(m.is_loading());

    let sent = m.take_actions();
    assert!(!sent.is_empty());
    match &sent[0] {
        Action::FetchUsage { .. } => {}
        other => panic!("expected FetchUsage, got {other:?}"),
    }
}

#[test]
fn test_key_bracket_right_changes_date_range() {
    let mut m = make_module();

    // Mount
    m.handle_key(Key::Char('r'), &periods());
    m.take_actions();

    let result = m.handle_key(Key::Char(']'), &periods());
    assert!(result.is_none());
    assert_eq!(m.date_range(), DateRangePreset::LastMonth);
    assert!(m.is_loading());

    let sent = m.take_actions();
    assert!(matches!(sent.first(), Some(Action::FetchUsage { .. })));
}

#[test]
fn test_key_j_scrolls_down() {
    let mut m = mounted_module();
    // Need usages to allow scrolling past 0
    m.handle_usage_loaded(sample_usages());
    assert_eq!(m.scroll_offset(), 0);
    m.handle_key(Key::Char('j'), &periods());
    assert_eq!(m.scroll_offset(), 1);
}

#[test]
fn test_key_k_scrolls_up() {
    let mut m = scrolled_module(3);
    m.handle_key(Key::Char('k'), &periods());
    assert_eq!(m.scroll_offset(), 2);
}

#[test]
fn test_key_k_saturates_at_zero() {
    let mut m = make_module();
    m.handle_key(Key::Char('k'), &periods());
    assert_eq!(m.scroll_offset(), 0);
}

#[test]
fn test_key_r_refreshes() {
    let mut m = make_module();

    let result = m.handle_key(Key::Char('r'), &periods());
    assert!(result.is_none());
    assert!(m.is_loading());

    let sent = m.take_actions();
    assert!(matches!(sent.first(), Some(Action::FetchUsage { .. })));
}

#[test]
fn test_key_left_focuses_sidebar() {
    let mut m = mounted_module();
    let result = m.handle_key(Key::Left, &periods());
    assert!(matches!(result, Some(Action::FocusSidebar)));
}

#[test]
fn test_key_esc_returns_back() {
    let mut m = mounted_module();
    let result = m.handle_key(Key::Esc, &periods());
    assert!(matches!(result, Some(Action::Back)));
}

#[test]
fn test_key_down_scrolls() {
    let mut m = mounted_module();
    m.handle_usage_loaded(sample_usages());
    m.handle_key(Key::Down, &periods());
    assert_eq!(m.scroll_offset(), 1);
}

#[test]
fn test_key_up_scrolls() {
    let mut m = scrolled_module(5);
    m.handle_key(Key::Up, &periods());
    assert_eq!(m.scroll_offset(), 4);
}

#[test]
fn test_unknown_key_returns_none() {
    let mut m = make_module();
    let result = m.handle_key(Key::Char('z'), &periods());
    assert!(result.is_none());
}

#[test]
fn test_bracket_left_cycle_returns_to_original() {
    let mut m = mounted_module();
    // '[' → Last7Days, '[' → LastMonth, '[' → ThisMonth
    m.handle_key(Key::Char('['), &periods());
    m.handle_key(Key::Char('['), &periods());
    m.handle_key(Key::Char('['), &periods());
    assert_eq!(m.date_range(), DateRangePreset::ThisMonth);
}

#[test]
fn test_bracket_right_left_reverse() {
    let mut m = mounted_module();
    m.handle_key(Key::Char(']'), &periods());
    assert_eq!(m.date_range(), DateRangePreset::LastMonth);
    m.handle_key(Key::Char('['), &periods());
    assert_eq!(m.date_range(), DateRangePreset::ThisMonth);
}

#[test]
fn test_first_key_triggers_mount() {
    let mut m = make_module();
    assert!(!m.is_mounted());

    // Any key triggers mount
    m.handle_key(Key::Char('j'), &periods());
    assert!(m.is_mounted());
    assert!(m.is_loading());

    // Should have sent FetchUsage, FetchHypervisors, FetchProjects
    let actions = m.take_actions();
    assert_eq!(actions.len(), 3);
    assert!(matches!(actions[0], Action::FetchUsage { .. }));
    assert!(matches!(actions[1], Action::FetchHypervisors));
    assert!(matches!(actions[2], Action::FetchProjects));
}

#[test]
fn test_second_key_does_not_remount() {
    let mut m = make_module();

    m.handle_key(Key::Char('j'), &periods());
    // Drain mount actions
    m.take_actions();

    m.handle_key(Key::Char('j'), &periods());
    // No new mount actions
    assert!(m.take_actions().is_empty());
}

#[test]
fn test_loading_set_on_key_r() {
    let mut m = make_module();
    m.handle_usage_loaded(Vec::new());
    assert!(!m.is_loading());
    m.handle_key(Key::Char('r'), &periods());
    assert!(m.is_loading());
}
