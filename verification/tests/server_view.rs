use ostui::bytes::format_bytes;
use ostui::models::nova::{Address, FlavorRef, ImageRef, NetworkAddresses, Server, ServerMigration, ServerSecurityGroup};
use ostui::module::server::view_model::{
    format_ips, server_columns, server_columns_full, server_create_defs, server_detail_data, server_detail_data_full,
    server_to_row, server_to_row_full, status_display,
};
use ostui::ui::detail_view::DetailField;
use ostui::ui::form::{FieldDef, Validation};
use ostui::ui::resource_list::RowStyleHint;

fn make_server(status: &str) -> Server {
    Server {
        id: "srv-1".into(),
        name: "web-01".into(),
        status: status.into(),
        addresses: vec![NetworkAddresses {
            network: "private".into(),
            addrs: vec![
                Address { addr: "10.0.0.5".into(), version: 4, mac_addr: Some("fa:16:3e:aa:bb:cc".into()), ip_type: Some("fixed".into()) },
                Address { addr: "192.168.1.100".into(), version: 4, mac_addr: None, ip_type: Some("floating".into()) },
            ],
        }],
        flavor: FlavorRef { id: "flv-1".into(), original_name: Some("m1.small".into()), vcpus: Some(2), ram: Some(4096), disk: Some(40) },
        image: Some(ImageRef { id: "img-1".into() }),
        key_name: Some("mykey".into()),
        availability_zone: Some("nova".into()),
        created: "2026-01-01T00:00:00Z".into(),
        updated: None,
        tenant_id: Some("proj-1".into()),
        host_id: None,
        host: Some("compute-01".into()),
        volumes_attached: vec![],
        security_groups: vec![],
    }
}

fn migration(mem: (i64, i64, i64), disk: Option<(i64, i64, i64)>) -> ServerMigration {
    ServerMigration {
        id: 1,
        status: "running".into(),
        source_compute: "compute-01".into(),
        dest_compute: "compute-02".into(),
        memory_total_bytes: Some(mem.0),
        memory_processed_bytes: Some(mem.1),
        memory_remaining_bytes: Some(mem.2),
        disk_total_bytes: disk.map(|d| d.0),
        disk_processed_bytes: disk.map(|d| d.1),
        disk_remaining_bytes: disk.map(|d| d.2),
        created_at: None,
        updated_at: None,
    }
}

#[test]
fn test_server_columns_count() {
    assert_eq!(server_columns(false).len(), 7);
    assert_eq!(server_columns(true).len(), 8);
    assert_eq!(server_columns(true)[2].name, "Project");
}

#[test]
fn test_server_columns_with_host() {
    assert_eq!(server_columns_full(false, true).len(), 8);
    assert_eq!(server_columns_full(false, true)[2].name, "Host");
}

#[test]
fn test_server_columns_with_tenant_and_host() {
    let cols = server_columns_full(true, true);
    assert_eq!(cols.len(), 9);
    assert_eq!(cols[2].name, "Project");
    assert_eq!(cols[3].name, "Host");
}

#[test]
fn test_server_to_row_active() {
    let server = make_server("ACTIVE");
    let row = server_to_row(&server, false);
    assert_eq!(row.id, "srv-1");
    assert_eq!(row.cells[1], "web-01");
    assert_eq!(row.cells[2], "ACTIVE");
    assert_eq!(row.style_hint, Some(RowStyleHint::Active));
}

#[test]
fn test_server_to_row_with_tenant() {
    let server = make_server("ACTIVE");
    let row = server_to_row(&server, true);
    assert_eq!(row.cells[1], "web-01");
    assert_eq!(row.cells[2], "proj-1");
    assert_eq!(row.cells[3], "ACTIVE");
}

#[test]
fn test_server_to_row_error() {
    let server = make_server("ERROR");
    let row = server_to_row(&server, false);
    assert_eq!(row.style_hint, Some(RowStyleHint::Error));
}

#[test]
fn test_format_ips_fixed_and_floating() {
    let server = make_server("ACTIVE");
    let ips = format_ips(&server.addresses);
    assert!(ips.contains("10.0.0.5"));
    assert!(ips.contains("192.168.1.100"));
    let fixed_pos = ips.find("10.0.0.5").unwrap();
    let float_pos = ips.find("192.168.1.100").unwrap();
    assert!(fixed_pos < float_pos);
}

#[test]
fn test_format_ips_empty() {
    let ips = format_ips(&vec![]);
    assert!(ips.is_empty());
}

#[test]
fn test_status_display_mapping() {
    assert_eq!(status_display("ACTIVE"), ("●", RowStyleHint::Active));
    assert_eq!(status_display("ERROR"), ("✗", RowStyleHint::Error));
    assert_eq!(status_display("DELETED"), ("✗", RowStyleHint::Error));
    assert_eq!(status_display("BUILD"), ("◐", RowStyleHint::Warning));
    assert_eq!(status_display("SHUTOFF"), ("○", RowStyleHint::Disabled));
    assert_eq!(status_display("UNKNOWN"), ("?", RowStyleHint::Normal));
    assert_eq!(status_display("REVERT_RESIZE"), ("◐", RowStyleHint::Warning));
    assert_eq!(status_display("MIGRATING"), ("◐", RowStyleHint::Warning));
    assert_eq!(status_display("VERIFY_RESIZE"), ("◐", RowStyleHint::Warning));
}

#[test]
fn status_display_ignores_case() {
    assert_eq!(status_display("active"), ("●", RowStyleHint::Active));
    assert_eq!(status_display("Shutoff"), ("○", RowStyleHint::Disabled));
}

#[test]
fn test_server_detail_data_sections() {
    let server = make_server("ACTIVE");
    let data = server_detail_data(&server);
    assert_eq!(data.title, "Server: web-01");
    assert!(data.sections.len() >= 3);
}

#[test]
fn test_server_create_defs() {
    let defs = server_create_defs();
    assert_eq!(defs.len(), 7);
    assert_eq!(defs[0].name(), "Name");
    assert!(defs[0].validations().contains(&Validation::Required));
    assert_eq!(defs[1].name(), "Image");
    assert!(matches!(defs[1], FieldDef::Dropdown { .. }));
    assert_eq!(defs[2].name(), "Flavor");
    assert_eq!(defs[3].name(), "Network");
    assert_eq!(defs[4].name(), "Security Group");
    assert!(!defs[4].validations().contains(&Validation::Required));
    assert_eq!(defs[5].name(), "Key Pair");
    assert_eq!(defs[6].name(), "Availability Zone");
}

#[test]
fn test_server_to_row_with_host() {
    let server = make_server("ACTIVE");
    let row = server_to_row_full(&server, false, true);
    assert_eq!(row.cells[2], "compute-01");
    assert_eq!(row.cells[3], "ACTIVE");
}

#[test]
fn test_detail_verify_resize_banner() {
    let server = make_server("VERIFY_RESIZE");
    let data = server_detail_data_full(&server, None, None, false, &[], &[]);
    assert_eq!(data.sections[0].name, "⚠ Migration Pending");
}

#[test]
fn test_detail_no_banner_for_active() {
    let server = make_server("ACTIVE");
    let data = server_detail_data_full(&server, None, None, false, &[], &[]);
    assert_ne!(data.sections[0].name, "⚠ Migration Pending");
}

#[test]
fn test_detail_migration_progress_section() {
    let server = make_server("MIGRATING");
    let mig = migration(
        (1024 * 1024, 512 * 1024, 512 * 1024),
        Some((10 * 1024 * 1024 * 1024, 5 * 1024 * 1024 * 1024, 5 * 1024 * 1024 * 1024)),
    );
    let data = server_detail_data_full(&server, Some(&mig), None, false, &[], &[]);
    let mig_section = data.sections.iter().find(|s| s.name == "Migration Progress");
    assert!(mig_section.is_some());
    let fields = &mig_section.unwrap().fields;
    assert_eq!(fields.len(), 5);
}

#[test]
fn test_detail_no_migration_progress_without_data() {
    let server = make_server("ACTIVE");
    let data = server_detail_data_full(&server, None, None, false, &[], &[]);
    let mig_section = data.sections.iter().find(|s| s.name == "Migration Progress");
    assert!(mig_section.is_none());
}

#[test]
fn test_format_bytes_units() {
    assert_eq!(format_bytes(0), "0 B");
    assert_eq!(format_bytes(500), "500 B");
    assert_eq!(format_bytes(1024), "1.0 KB");
    assert_eq!(format_bytes(1048576), "1.0 MB");
    assert_eq!(format_bytes(1073741824), "1.0 GB");
}

#[test]
fn test_server_to_row_host_none_shows_dash() {
    let mut server = make_server("ACTIVE");
    server.host = None;
    let row = server_to_row_full(&server, false, true);
    assert_eq!(row.cells[2], "-");
}

#[test]
fn test_detail_migration_progress_memory_only() {
    let server = make_server("MIGRATING");
    let mut mig = migration((2048, 1024, 1024), None);
    mig.source_compute = "c1".into();
    mig.dest_compute = "c2".into();
    let data = server_detail_data_full(&server, Some(&mig), None, false, &[], &[]);
    let mig_section = data.sections.iter().find(|s| s.name == "Migration Progress").unwrap();
    assert_eq!(mig_section.fields.len(), 4);
}

#[test]
fn test_detail_verify_resize_banner_migration() {
    let server = make_server("VERIFY_RESIZE");
    let data = server_detail_data_full(&server, None, None, false, &[], &[]);
    let banner = &data.sections[0];
    assert_eq!(banner.name, "⚠ Migration Pending");
    if let DetailField::KeyValue { value, style, .. } = &banner.fields[0] {
        assert!(value.contains("migration"));
        assert_eq!(*style, Some(RowStyleHint::Warning));
    } else {
        panic!("Expected KeyValue in banner");
    }
}

#[test]
fn test_detail_verify_resize_banner_resize() {
    let server = make_server("VERIFY_RESIZE");
    let data = server_detail_data_full(&server, None, None, true, &[], &[]);
    let banner = &data.sections[0];
    assert_eq!(banner.name, "⚠ Resize Pending");
    if let DetailField::KeyValue { value, style, .. } = &banner.fields[0] {
        assert!(value.contains("resize"));
        assert!(!value.contains("migration"));
        assert_eq!(*style, Some(RowStyleHint::Warning));
    } else {
        panic!("Expected KeyValue in banner");
    }
}

#[test]
fn test_detail_security_groups_section() {
    let mut server = make_server("ACTIVE");
    server.security_groups = vec![ServerSecurityGroup { name: "default".into() }, ServerSecurityGroup { name: "web-sg".into() }];
    let data = server_detail_data(&server);
    let sg_section = data.sections.iter().find(|s| s.name == "Security Groups");
    assert!(sg_section.is_some(), "Security Groups section should exist");
    let fields = &sg_section.unwrap().fields;
    assert_eq!(fields.len(), 2);
    if let DetailField::KeyValue { key, value, .. } = &fields[0] {
        assert_eq!(key, "SG");
        assert_eq!(value, "default");
    } else {
        panic!("Expected KeyValue for SG field");
    }
    if let DetailField::KeyValue { value, .. } = &fields[1] {
        assert_eq!(value, "web-sg");
    } else {
        panic!("Expected KeyValue for SG field");
    }
}

#[test]
fn test_detail_no_security_groups_when_empty() {
    let server = make_server("ACTIVE");
    let data = server_detail_data(&server);
    let sg_section = data.sections.iter().find(|s| s.name == "Security Groups");
    assert!(sg_section.is_none(), "Security Groups section should not exist when empty");
}

#[test]
fn server_rows_match_their_columns() {
    let server = make_server("ACTIVE");
    for (t, h) in [(false, false), (true, false), (false, true), (true, true)] {
        assert_eq!(server_to_row_full(&server, t, h).cells.len(), server_columns_full(t, h).len());
    }
}
