//! Network rows, detail screen and form.
use vstd::prelude::*;
use crate::models::neutron::Network;
use crate::module::flavor::view_model::{check_icon, check_icon_str};
use crate::port::types::Subnet;
use crate::text::{bool_str, bool_text, cat3, dec, opt_or, opt_str_or, opt_view, str_eq, strs_view, to_upper, u64_text, uppercase_of};
use crate::ui::detail_view::{fields_view, kv, opt_kv, push_kv, push_opt_kv, push_section, section, sections_view, table_view, DetailData, DetailDataView, DetailField, DetailSection, FieldView, SectionView};
use crate::ui::form::{checkbox_spec, field_specs, text_spec, FieldDef};
use crate::ui::resource_list::{column, columns_view, push_column, ColumnAlign, ColumnDef, ColumnView, ColumnWidth, Row, RowStyleHint, RowView};

verus! {

/// Icon and style of an upper-cased network status.
pub open spec fn network_status_spec(upper: Seq<char>) -> (Seq<char>, RowStyleHint) {
    if upper == "ACTIVE"@ {
        ("●"@, RowStyleHint::Active)
    } else if upper == "ERROR"@ {
        ("✗"@, RowStyleHint::Error)
    } else if upper == "BUILD"@ {
        ("◐"@, RowStyleHint::Warning)
    } else if upper == "DOWN"@ {
        ("○"@, RowStyleHint::Disabled)
    } else {
        ("?"@, RowStyleHint::Normal)
    }
}

/// Icon and style for an already upper-cased status.
pub fn network_status_for_upper(upper: &str) -> (r: (&'static str, RowStyleHint))
    ensures
        (r.0@, r.1) == network_status_spec(upper@),
{
    if str_eq(upper, "ACTIVE") {
        ("●", RowStyleHint::Active)
    } else if str_eq(upper, "ERROR") {
        ("✗", RowStyleHint::Error)
    } else if str_eq(upper, "BUILD") {
        ("◐", RowStyleHint::Warning)
    } else if str_eq(upper, "DOWN") {
        ("○", RowStyleHint::Disabled)
    } else {
        ("?", RowStyleHint::Normal)
    }
}

/// Icon and style of a network status, compared case-insensitively.
pub fn network_status_display(status: &str) -> (r: (&'static str, RowStyleHint))
    ensures
        (r.0@, r.1) == network_status_spec(uppercase_of(status@)),
{
    let upper = to_upper(status);
    network_status_for_upper(upper.as_str())
}

/// `UP` or `DOWN`.
pub open spec fn admin_text(up: bool) -> Seq<char> {
    if up { "UP"@ } else { "DOWN"@ }
}

/// An optional number in decimal, or `-`.
pub open spec fn opt_num_text(n: Option<u32>) -> Seq<char> {
    match n {
        Some(m) => dec(m as nat),
        None => "-"@,
    }
}

/// The row of a network: name, project when shown, status with icon,
/// admin state, external and shared icons, MTU.
pub open spec fn network_row_spec(n: Network, show_tenant: bool) -> RowView {
    let (icon, style) = network_status_spec(uppercase_of(n.status@));
    RowView {
        id: n.id@,
        cells: seq![n.name@] + (if show_tenant { seq![opt_or(n.tenant_id, "-"@)] } else { Seq::empty() })
            + seq![
            icon + " "@ + n.status@,
            admin_text(n.admin_state_up),
            check_icon(n.external),
            check_icon(n.shared),
            opt_num_text(n.mtu),
        ],
        style_hint: Some(style),
    }
}

/// The table row of a network.
pub fn network_to_row(network: &Network, show_tenant: bool) -> (r: Row)
    ensures
        r@ == network_row_spec(*network, show_tenant),
{
    let (icon, style) = network_status_display(network.status.as_str());
    let admin = if network.admin_state_up { "UP" } else { "DOWN" };
    let mtu = match network.mtu {
        Some(m) => u64_text(m as u64),
        None => String::from_str("-"),
    };
    let mut cells = vec![network.name.clone()];
    if show_tenant {
        cells.push(opt_str_or(&network.tenant_id, "-"));
    }
    cells.push(cat3(icon, " ", network.status.as_str()));
    cells.push(String::from_str(admin));
    cells.push(String::from_str(check_icon_str(network.external)));
    cells.push(String::from_str(check_icon_str(network.shared)));
    cells.push(mtu);
    let r = Row { id: network.id.clone(), cells, style_hint: Some(style) };
    proof {
        assert(r@.cells =~= network_row_spec(*network, show_tenant).cells);
    }
    r
}

/// The subnet table rows: name, CIDR, gateway (or `-`), IP version.
pub open spec fn subnet_rows_spec(subnets: Seq<Subnet>) -> Seq<Seq<Seq<char>>> {
    subnets.map_values(|s: Subnet| seq![s.name@, s.cidr@, opt_or(s.gateway_ip, "-"@), dec(s.ip_version as nat)])
}

/// An optional number as a key/value entry.
pub open spec fn opt_num_kv(key: Seq<char>, n: Option<u32>) -> Seq<FieldView> {
    match n {
        Some(m) => seq![kv(key, dec(m as nat), None)],
        None => Seq::empty(),
    }
}

/// An optional flag as a key/value entry.
pub open spec fn opt_bool_kv(key: Seq<char>, b: Option<bool>) -> Seq<FieldView> {
    match b {
        Some(v) => seq![kv(key, bool_text(v), None)],
        None => Seq::empty(),
    }
}

/// The provider entries of a network.
pub open spec fn provider_fields_spec(n: Network) -> Seq<FieldView> {
    opt_kv("Network Type"@, opt_view(n.provider_network_type)) + opt_kv(
        "Physical Network"@,
        opt_view(n.provider_physical_network),
    ) + opt_num_kv("Segmentation ID"@, n.provider_segmentation_id)
}

/// The detail screen of a network: basic info, settings, provider
/// attributes (when any) and subnets (when any).
pub open spec fn network_detail_spec(n: Network, subnets: Seq<Subnet>) -> DetailDataView {
    let basic = seq![
        kv("ID"@, n.id@, None),
        kv("Name"@, n.name@, None),
        kv("Status"@, n.status@, Some(network_status_spec(uppercase_of(n.status@)).1)),
    ] + opt_kv("Description"@, opt_view(n.description));
    let settings = seq![
        kv("Shared"@, bool_text(n.shared), None),
        kv("External"@, bool_text(n.external), None),
        kv("Admin State"@, admin_text(n.admin_state_up), None),
    ] + opt_num_kv("MTU"@, n.mtu) + opt_bool_kv("Port Security"@, n.port_security_enabled);
    let provider = provider_fields_spec(n);
    DetailDataView {
        title: "Network: "@ + n.name@,
        sections: seq![
            SectionView { name: "Basic Info"@, fields: basic },
            SectionView { name: "Settings"@, fields: settings },
        ] + (if provider.len() > 0 {
            seq![SectionView { name: "Provider"@, fields: provider }]
        } else {
            Seq::empty()
        }) + (if subnets.len() > 0 {
            seq![
                SectionView {
                    name: "Subnets"@,
                    fields: seq![
                        FieldView::NestedTable {
                            label: "Subnets"@,
                            columns: seq!["Name"@, "CIDR"@, "Gateway"@, "IP Version"@],
                            rows: subnet_rows_spec(subnets),
                        },
                    ],
                },
            ]
        } else {
            Seq::empty()
        }),
    }
}

fn push_opt_num(fields: &mut Vec<DetailField>, key: &str, n: Option<u32>)
    ensures
        fields_view(final(fields)@) == fields_view(old(fields)@) + opt_num_kv(key@, n),
{
    let ghost before = fields_view(fields@);
    match n {
        Some(m) => push_kv(fields, key, u64_text(m as u64), None),
        None => {},
    }
    proof {
        assert(fields_view(fields@) =~= before + opt_num_kv(key@, n));
    }
}

fn push_opt_bool(fields: &mut Vec<DetailField>, key: &str, b: Option<bool>)
    ensures
        fields_view(final(fields)@) == fields_view(old(fields)@) + opt_bool_kv(key@, b),
{
    let ghost before = fields_view(fields@);
    match b {
        Some(v) => push_kv(fields, key, String::from_str(bool_str(v)), None),
        None => {},
    }
    proof {
        assert(fields_view(fields@) =~= before + opt_bool_kv(key@, b));
    }
}

/// The subnet table rows.
fn subnet_rows(subnets: &[Subnet]) -> (r: Vec<Vec<String>>)
    ensures
        table_view(r@) == subnet_rows_spec(subnets@),
{
    let n = subnets.len();
    let mut rows: Vec<Vec<String>> = Vec::new();
    let mut i: usize = 0;
    while i < n
        invariant
            n == subnets@.len(),
            i <= n,
            table_view(rows@) == subnet_rows_spec(subnets@.subrange(0, i as int)),
        decreases n - i,
    {
        let s = &subnets[i];
        let row = vec![
            s.name.clone(),
            s.cidr.clone(),
            opt_str_or(&s.gateway_ip, "-"),
            u64_text(s.ip_version as u64),
        ];
        let ghost before = rows@;
        rows.push(row);
        proof {
            assert(strs_view(row@) =~= seq![s.name@, s.cidr@, opt_or(s.gateway_ip, "-"@), dec(s.ip_version as nat)]);
            assert(subnets@.subrange(0, i + 1) =~= subnets@.subrange(0, i as int).push(subnets@[i as int]));
            assert(table_view(rows@) =~= table_view(before).push(strs_view(row@)));
            assert(subnet_rows_spec(subnets@.subrange(0, i + 1)) =~= subnet_rows_spec(subnets@.subrange(0, i as int)).push(strs_view(row@)));
        }
        i = i + 1;
    }
    proof {
        assert(subnets@.subrange(0, n as int) =~= subnets@);
    }
    rows
}

/// The detail screen of a network and its subnets.
pub fn network_detail_data(network: &Network, subnets: &[Subnet]) -> (r: DetailData)
    ensures
        r@ == network_detail_spec(*network, subnets@),
{
    let ghost spec = network_detail_spec(*network, subnets@);
    let mut basic: Vec<DetailField> = Vec::new();
    push_kv(&mut basic, "ID", network.id.clone(), None);
    push_kv(&mut basic, "Name", network.name.clone(), None);
    let (_, st) = network_status_display(network.status.as_str());
    push_kv(&mut basic, "Status", network.status.clone(), Some(st));
    push_opt_kv(&mut basic, "Description", &network.description);
    let mut settings: Vec<DetailField> = Vec::new();
    push_kv(&mut settings, "Shared", String::from_str(bool_str(network.shared)), None);
    push_kv(&mut settings, "External", String::from_str(bool_str(network.external)), None);
    let admin = if network.admin_state_up { "UP" } else { "DOWN" };
    push_kv(&mut settings, "Admin State", String::from_str(admin), None);
    push_opt_num(&mut settings, "MTU", network.mtu);
    push_opt_bool(&mut settings, "Port Security", network.port_security_enabled);
    let mut provider: Vec<DetailField> = Vec::new();
    push_opt_kv(&mut provider, "Network Type", &network.provider_network_type);
    push_opt_kv(&mut provider, "Physical Network", &network.provider_physical_network);
    push_opt_num(&mut provider, "Segmentation ID", network.provider_segmentation_id);
    let mut sections: Vec<DetailSection> = Vec::new();
    push_section(&mut sections, section("Basic Info", basic));
    push_section(&mut sections, section("Settings", settings));
    proof {
        assert(spec.sections[0].fields =~= fields_view(basic@));
        assert(spec.sections[1].fields =~= fields_view(settings@));
        assert(provider_fields_spec(*network) =~= fields_view(provider@));
    }
    let ghost two = sections_view(sections@);
    let has_provider = provider.len() > 0;
    if has_provider {
        push_section(&mut sections, section("Provider", provider));
    }
    let ghost three = sections_view(sections@);
    if subnets.len() > 0 {
        let columns = vec![
            String::from_str("Name"),
            String::from_str("CIDR"),
            String::from_str("Gateway"),
            String::from_str("IP Version"),
        ];
        let rows = subnet_rows(subnets);
        proof {
            assert(strs_view(columns@) =~= seq!["Name"@, "CIDR"@, "Gateway"@, "IP Version"@]);
        }
        let table = DetailField::NestedTable { label: String::from_str("Subnets"), columns, rows };
        let fields = vec![table];
        proof {
            assert(fields_view(fields@) =~= seq![
                FieldView::NestedTable {
                    label: "Subnets"@,
                    columns: seq!["Name"@, "CIDR"@, "Gateway"@, "IP Version"@],
                    rows: subnet_rows_spec(subnets@),
                },
            ]);
        }
        push_section(&mut sections, section("Subnets", fields));
    }
    let mut title = String::from_str("Network: ");
    title.append(network.name.as_str());
    let r = DetailData { title, sections };
    proof {
        assert(sections_view(r.sections@) =~= spec.sections);
    }
    r
}

/// The network form: required name, admin-state, shared and external
/// boxes, optional MTU.
pub fn network_create_defs() -> (r: Vec<FieldDef>)
    ensures
        field_specs(r@) == seq![
            text_spec("Name"@, true),
            checkbox_spec("Admin State Up"@),
            checkbox_spec("Shared"@),
            checkbox_spec("External"@),
            text_spec("MTU"@, false),
        ],
{
    let r = vec![
        FieldDef::text("Name", true),
        FieldDef::checkbox("Admin State Up"),
        FieldDef::checkbox("Shared"),
        FieldDef::checkbox("External"),
        FieldDef::text("MTU", false),
    ];
    proof {
        assert(field_specs(r@) =~= seq![
            text_spec("Name"@, true),
            checkbox_spec("Admin State Up"@),
            checkbox_spec("Shared"@),
            checkbox_spec("External"@),
            text_spec("MTU"@, false),
        ]);
    }
    r
}

/// The network table's columns.
pub open spec fn network_columns_spec(show_tenant: bool) -> Seq<ColumnView> {
    seq![
        column("Name"@, ColumnWidth::Percent(25), ColumnAlign::Left),
    ]
        + (if show_tenant { seq![column("Project"@, ColumnWidth::Percent(12), ColumnAlign::Left)] } else { Seq::<ColumnView>::empty() })
        + seq![
        column("Status"@, ColumnWidth::Fixed(10), ColumnAlign::Left),
        column("Admin"@, ColumnWidth::Fixed(8), ColumnAlign::Center),
        column("External"@, ColumnWidth::Fixed(9), ColumnAlign::Center),
        column("Shared"@, ColumnWidth::Fixed(8), ColumnAlign::Center),
        column("MTU"@, ColumnWidth::Fixed(6), ColumnAlign::Right),
    ]
}

/// The columns of the network table, with the optional ones shown when asked for.
pub fn network_columns(show_tenant: bool) -> (r: Vec<ColumnDef>)
    ensures
        columns_view(r@) == network_columns_spec(show_tenant),
{
    let mut r: Vec<ColumnDef> = Vec::new();
    push_column(&mut r, "Name", ColumnWidth::Percent(25), ColumnAlign::Left);
    if show_tenant {
        push_column(&mut r, "Project", ColumnWidth::Percent(12), ColumnAlign::Left);
    }
    push_column(&mut r, "Status", ColumnWidth::Fixed(10), ColumnAlign::Left);
    push_column(&mut r, "Admin", ColumnWidth::Fixed(8), ColumnAlign::Center);
    push_column(&mut r, "External", ColumnWidth::Fixed(9), ColumnAlign::Center);
    push_column(&mut r, "Shared", ColumnWidth::Fixed(8), ColumnAlign::Center);
    push_column(&mut r, "MTU", ColumnWidth::Fixed(6), ColumnAlign::Right);
    r
}

/// Every network row has one cell per column of the table it is made for.
pub proof fn lemma_network_row_fits_columns(n: Network, show_tenant: bool)
    ensures
        network_row_spec(n, show_tenant).cells.len() == network_columns_spec(show_tenant).len(),
{
}

/// A network's detail screen has a Settings section second, whose first
/// entries read `Shared` with `true` exactly when the network is shared,
/// `External` with `true` exactly when it is external (`false`
/// otherwise), and `Admin State` with `UP` or `DOWN`.
pub proof fn lemma_network_settings(n: Network, subnets: Seq<Subnet>)
    ensures
        ({
            let s = network_detail_spec(n, subnets).sections[1];
            &&& s.name == "Settings"@
            &&& s.fields.len() >= 3
            &&& s.fields[0] matches FieldView::KeyValue { key, value, style }
                && key == "Shared"@ && value == (if n.shared { "true"@ } else { "false"@ }) && style is None
            &&& s.fields[1] matches FieldView::KeyValue { key, value, style }
                && key == "External"@ && value == (if n.external { "true"@ } else { "false"@ }) && style is None
            &&& s.fields[2] matches FieldView::KeyValue { key, value, style }
                && key == "Admin State"@ && value == (if n.admin_state_up { "UP"@ } else { "DOWN"@ }) && style is None
        }),
{
    reveal_strlit("true");
    reveal_strlit("false");
}

/// A network's row (without the project column) reads its name, its
/// status, `UP` or `DOWN` for its admin state, then `✓` or `✗` for
/// external and for shared, in that order, and its MTU or `-`; the
/// project column, when shown, comes right after the name.
pub proof fn lemma_network_row_cells(n: Network)
    ensures
        ({
            let c = network_row_spec(n, false).cells;
            &&& c.len() == 6
            &&& c[0] == n.name@
            &&& c[2] == (if n.admin_state_up { "UP"@ } else { "DOWN"@ })
            &&& c[3] == (if n.external { "✓"@ } else { "✗"@ })
            &&& c[4] == (if n.shared { "✓"@ } else { "✗"@ })
            &&& n.mtu matches Some(m) ==> c[5] == dec(m as nat)
            &&& n.mtu is None ==> c[5] == "-"@
        }),
        ({
            let c = network_row_spec(n, true).cells;
            &&& c.len() == 7
            &&& c[0] == n.name@
            &&& n.tenant_id matches Some(t) ==> c[1] == t@
            &&& n.tenant_id is None ==> c[1] == "-"@
            &&& c.subrange(2, 7) == network_row_spec(n, false).cells.subrange(1, 6)
        }),
{
    assert(network_row_spec(n, true).cells.subrange(2, 7) =~= network_row_spec(n, false).cells.subrange(1, 6));
}

} // verus!
