//! Security group rows, rule rows, detail screen and forms.
use vstd::prelude::*;
use crate::models::neutron::{SecurityGroup, SecurityGroupRule};
use crate::text::{cat, dec, eq_ignore_ascii_case, eq_ignore_ascii_case_spec, opt_or, opt_str_or, opt_view, strs_view, u64_text};
use crate::ui::detail_view::{fields_view, kv, opt_kv, push_kv, push_opt_kv, push_section, section, sections_view, table_view, DetailData, DetailDataView, DetailField, DetailSection, FieldView, SectionView};
use crate::ui::form::{dropdown_spec, field_specs, text_spec, FieldDef};
use crate::ui::resource_list::{column, columns_view, push_column, ColumnAlign, ColumnDef, ColumnView, ColumnWidth, Row, RowStyleHint, RowView};

verus! {

broadcast use vstd::seq_lib::group_seq_properties;

/// The row of a security group: name, project when shown, description or
/// `-`, number of rules.
pub open spec fn sg_row_spec(sg: SecurityGroup, show_tenant: bool) -> RowView {
    RowView {
        id: sg.id@,
        cells: seq![sg.name@] + (if show_tenant {
            seq![opt_or(sg.tenant_id, "-"@)]
        } else {
            Seq::empty()
        }) + seq![opt_or(sg.description, "-"@), dec(sg.security_group_rules@.len())],
        style_hint: Some(RowStyleHint::Normal),
    }
}

/// The table row of a security group.
pub fn sg_to_row(sg: &SecurityGroup, show_tenant: bool) -> (r: Row)
    ensures
        r@ == sg_row_spec(*sg, show_tenant),
{
    let mut cells = vec![sg.name.clone()];
    if show_tenant {
        cells.push(opt_str_or(&sg.tenant_id, "-"));
    }
    cells.push(opt_str_or(&sg.description, "-"));
    cells.push(u64_text(sg.security_group_rules.len() as u64));
    let r = Row { id: sg.id.clone(), cells, style_hint: Some(RowStyleHint::Normal) };
    proof {
        assert(r@.cells =~= sg_row_spec(*sg, show_tenant).cells);
    }
    r
}

/// The port column of a rule: one port, a `min-max` range, or `Any`
/// unless both bounds are set.
pub open spec fn port_range_text(min: Option<u16>, max: Option<u16>) -> Seq<char> {
    match (min, max) {
        (Some(a), Some(b)) => if a == b {
            dec(a as nat)
        } else {
            dec(a as nat) + "-"@ + dec(b as nat)
        },
        _ => "Any"@,
    }
}

/// The peer column of a rule: the remote prefix, else the remote group,
/// else `Any`.
pub open spec fn rule_peer_text(rule: SecurityGroupRule) -> Seq<char> {
    match rule.remote_ip_prefix {
        Some(p) => p@,
        None => opt_or(rule.remote_group_id, "Any"@),
    }
}

/// The cells of a rule: direction, protocol or `Any`, ports, peer,
/// ethertype.
pub open spec fn rule_row_spec(rule: SecurityGroupRule) -> Seq<Seq<char>> {
    seq![
        rule.direction@,
        opt_or(rule.protocol, "Any"@),
        port_range_text(rule.port_range_min, rule.port_range_max),
        rule_peer_text(rule),
        rule.ethertype@,
    ]
}

/// The cells of a rule.
pub fn rule_to_row(rule: &SecurityGroupRule) -> (r: Vec<String>)
    ensures
        strs_view(r@) == rule_row_spec(*rule),
{
    let ports = match (rule.port_range_min, rule.port_range_max) {
        (Some(a), Some(b)) => if a == b {
            u64_text(a as u64)
        } else {
            let lo = u64_text(a as u64);
            let hi = u64_text(b as u64);
            let mut s = cat(lo.as_str(), "-");
            s.append(hi.as_str());
            s
        },
        _ => String::from_str("Any"),
    };
    let peer = match &rule.remote_ip_prefix {
        Some(p) => p.clone(),
        None => opt_str_or(&rule.remote_group_id, "Any"),
    };
    let r = vec![
        rule.direction.clone(),
        opt_str_or(&rule.protocol, "Any"),
        ports,
        peer,
        rule.ethertype.clone(),
    ];
    proof {
        assert(strs_view(r@) =~= rule_row_spec(*rule));
    }
    r
}

/// Whether a rule goes in the given direction, compared ASCII
/// case-insensitively.
pub open spec fn goes(dir: Seq<char>) -> spec_fn(SecurityGroupRule) -> bool {
    |r: SecurityGroupRule| eq_ignore_ascii_case_spec(r.direction@, dir)
}

/// The rows of the rules that go in one direction, in order.
pub open spec fn direction_rows_spec(rules: Seq<SecurityGroupRule>, dir: Seq<char>) -> Seq<Seq<Seq<char>>> {
    rules.filter(goes(dir)).map_values(|r: SecurityGroupRule| rule_row_spec(r))
}

/// The rows of the rules that go in one direction.
fn direction_rows(rules: &Vec<SecurityGroupRule>, dir: &str) -> (r: Vec<Vec<String>>)
    ensures
        table_view(r@) == direction_rows_spec(rules@, dir@),
{
    let n = rules.len();
    let mut rows: Vec<Vec<String>> = Vec::new();
    let mut i: usize = 0;
    while i < n
        invariant
            n == rules@.len(),
            i <= n,
            table_view(rows@) == direction_rows_spec(rules@.subrange(0, i as int), dir@),
        decreases n - i,
    {
        let rule = &rules[i];
        let ghost before = rows@;
        proof {
            assert(rules@.subrange(0, i + 1) =~= rules@.subrange(0, i as int).push(rules@[i as int]));
            rules@.subrange(0, i as int).lemma_filter_push(rules@[i as int], goes(dir@));
        }
        if eq_ignore_ascii_case(rule.direction.as_str(), dir) {
            let row = rule_to_row(rule);
            rows.push(row);
            proof {
                assert(table_view(rows@) =~= table_view(before).push(strs_view(row@)));
            }
        }
        proof {
            assert(table_view(rows@) =~= direction_rows_spec(rules@.subrange(0, i + 1), dir@));
        }
        i = i + 1;
    }
    proof {
        assert(rules@.subrange(0, n as int) =~= rules@);
    }
    rows
}

/// A rule table section, when the table has rows.
pub open spec fn rule_section(
    name: Seq<char>,
    label: Seq<char>,
    peer: Seq<char>,
    rows: Seq<Seq<Seq<char>>>,
) -> Seq<SectionView> {
    if rows.len() > 0 {
        seq![
            SectionView {
                name,
                fields: seq![
                    FieldView::NestedTable {
                        label,
                        columns: seq!["Direction"@, "Protocol"@, "Port"@, peer, "Ethertype"@],
                        rows,
                    },
                ],
            },
        ]
    } else {
        Seq::empty()
    }
}

/// The detail screen of a security group: basic info, then the ingress
/// rules and the egress rules as tables, each when there are any.
pub open spec fn sg_detail_spec(sg: SecurityGroup) -> DetailDataView {
    DetailDataView {
        title: "Security Group: "@ + sg.name@,
        sections: seq![
            SectionView {
                name: "Basic Info"@,
                fields: seq![kv("ID"@, sg.id@, None), kv("Name"@, sg.name@, None)] + opt_kv(
                    "Description"@,
                    opt_view(sg.description),
                ),
            },
        ] + rule_section(
            "Ingress Rules"@,
            "Ingress"@,
            "Source"@,
            direction_rows_spec(sg.security_group_rules@, "ingress"@),
        ) + rule_section(
            "Egress Rules"@,
            "Egress"@,
            "Destination"@,
            direction_rows_spec(sg.security_group_rules@, "egress"@),
        ),
    }
}

/// Append a rule table section when the table has rows.
fn push_rule_section(
    sections: &mut Vec<DetailSection>,
    name: &str,
    label: &str,
    peer: &str,
    rows: Vec<Vec<String>>,
)
    ensures
        sections_view(final(sections)@) == sections_view(old(sections)@) + rule_section(
            name@,
            label@,
            peer@,
            table_view(rows@),
        ),
{
    let ghost before = sections_view(sections@);
    if rows.len() > 0 {
        let columns = vec![
            String::from_str("Direction"),
            String::from_str("Protocol"),
            String::from_str("Port"),
            String::from_str(peer),
            String::from_str("Ethertype"),
        ];
        proof {
            assert(strs_view(columns@) =~= seq!["Direction"@, "Protocol"@, "Port"@, peer@, "Ethertype"@]);
        }
        let ghost rv = table_view(rows@);
        let table = DetailField::NestedTable { label: String::from_str(label), columns, rows };
        let fields = vec![table];
        proof {
            assert(fields_view(fields@) =~= seq![
                FieldView::NestedTable {
                    label: label@,
                    columns: seq!["Direction"@, "Protocol"@, "Port"@, peer@, "Ethertype"@],
                    rows: rv,
                },
            ]);
        }
        push_section(sections, section(name, fields));
    }
    proof {
        assert(sections_view(sections@) =~= before + rule_section(name@, label@, peer@, table_view(rows@)));
    }
}

/// The detail screen of a security group.
pub fn sg_detail_data(sg: &SecurityGroup) -> (r: DetailData)
    ensures
        r@ == sg_detail_spec(*sg),
{
    let ghost spec = sg_detail_spec(*sg);
    let mut basic: Vec<DetailField> = Vec::new();
    push_kv(&mut basic, "ID", sg.id.clone(), None);
    push_kv(&mut basic, "Name", sg.name.clone(), None);
    push_opt_kv(&mut basic, "Description", &sg.description);
    proof {
        assert(fields_view(basic@) =~= spec.sections[0].fields);
    }
    let mut sections: Vec<DetailSection> = Vec::new();
    push_section(&mut sections, section("Basic Info", basic));
    let ingress = direction_rows(&sg.security_group_rules, "ingress");
    push_rule_section(&mut sections, "Ingress Rules", "Ingress", "Source", ingress);
    let egress = direction_rows(&sg.security_group_rules, "egress");
    push_rule_section(&mut sections, "Egress Rules", "Egress", "Destination", egress);
    let title = cat("Security Group: ", sg.name.as_str());
    let r = DetailData { title, sections };
    proof {
        assert(sections_view(r.sections@) =~= spec.sections);
    }
    r
}

/// The security group form: required name, optional description.
pub fn sg_create_defs() -> (r: Vec<FieldDef>)
    ensures
        field_specs(r@) == seq![text_spec("Name"@, true), text_spec("Description"@, false)],
{
    let r = vec![FieldDef::text("Name", true), FieldDef::text("Description", false)];
    proof {
        assert(field_specs(r@) =~= seq![text_spec("Name"@, true), text_spec("Description"@, false)]);
    }
    r
}

/// The rule form: required direction, optional protocol, port bounds and
/// source prefix.
pub fn sg_rule_defs() -> (r: Vec<FieldDef>)
    ensures
        field_specs(r@) == seq![
            dropdown_spec("Direction"@, seq!["ingress"@, "egress"@], true),
            dropdown_spec("Protocol"@, seq!["tcp"@, "udp"@, "icmp"@], false),
            text_spec("Port Min"@, false),
            text_spec("Port Max"@, false),
            text_spec("Source CIDR"@, false),
        ],
{
    let dirs = vec![String::from_str("ingress"), String::from_str("egress")];
    let protos = vec![String::from_str("tcp"), String::from_str("udp"), String::from_str("icmp")];
    proof {
        assert(strs_view(dirs@) =~= seq!["ingress"@, "egress"@]);
        assert(strs_view(protos@) =~= seq!["tcp"@, "udp"@, "icmp"@]);
    }
    let r = vec![
        FieldDef::dropdown("Direction", dirs, true),
        FieldDef::dropdown("Protocol", protos, false),
        FieldDef::text("Port Min", false),
        FieldDef::text("Port Max", false),
        FieldDef::text("Source CIDR", false),
    ];
    proof {
        assert(field_specs(r@) =~= seq![
            dropdown_spec("Direction"@, seq!["ingress"@, "egress"@], true),
            dropdown_spec("Protocol"@, seq!["tcp"@, "udp"@, "icmp"@], false),
            text_spec("Port Min"@, false),
            text_spec("Port Max"@, false),
            text_spec("Source CIDR"@, false),
        ]);
    }
    r
}

/// The security group table's columns.
pub open spec fn sg_columns_spec(show_tenant: bool) -> Seq<ColumnView> {
    seq![
        column("Name"@, ColumnWidth::Percent(30), ColumnAlign::Left),
    ]
        + (if show_tenant { seq![column("Project"@, ColumnWidth::Percent(12), ColumnAlign::Left)] } else { Seq::<ColumnView>::empty() })
        + seq![
        column("Description"@, ColumnWidth::Percent(40), ColumnAlign::Left),
        column("Rules"@, ColumnWidth::Fixed(8), ColumnAlign::Right),
    ]
}

/// The columns of the security group table, with the optional ones shown when asked for.
pub fn sg_columns(show_tenant: bool) -> (r: Vec<ColumnDef>)
    ensures
        columns_view(r@) == sg_columns_spec(show_tenant),
{
    let mut r: Vec<ColumnDef> = Vec::new();
    push_column(&mut r, "Name", ColumnWidth::Percent(30), ColumnAlign::Left);
    if show_tenant {
        push_column(&mut r, "Project", ColumnWidth::Percent(12), ColumnAlign::Left);
    }
    push_column(&mut r, "Description", ColumnWidth::Percent(40), ColumnAlign::Left);
    push_column(&mut r, "Rules", ColumnWidth::Fixed(8), ColumnAlign::Right);
    r
}

/// Every security group row has one cell per column of the table it is made for.
pub proof fn lemma_security_group_row_fits_columns(sg: SecurityGroup, show_tenant: bool)
    ensures
        sg_row_spec(sg, show_tenant).cells.len() == sg_columns_spec(show_tenant).len(),
{
}

/// A rule's row reads, in order: its direction; its protocol, or `Any`
/// when it has none; its ports; its peer; its ethertype. The peer is the
/// remote IP prefix when the rule has one, else the remote group (so a
/// group's own-group rule names that group and does not read as open to
/// everyone), and `Any` only when the rule has neither.
pub proof fn lemma_rule_row_cells(rule: SecurityGroupRule)
    ensures
        rule_row_spec(rule).len() == 5,
        rule_row_spec(rule)[0] == rule.direction@,
        rule.protocol matches Some(p) ==> rule_row_spec(rule)[1] == p@,
        rule.protocol is None ==> rule_row_spec(rule)[1] == "Any"@,
        rule.remote_ip_prefix matches Some(p) ==> rule_row_spec(rule)[3] == p@,
        forall|g: String| rule.remote_ip_prefix is None && rule.remote_group_id == Some(g) ==> rule_row_spec(rule)[3] == g@,
        rule.remote_ip_prefix is None && rule.remote_group_id is None ==> rule_row_spec(rule)[3] == "Any"@,
        rule.port_range_min is None || rule.port_range_max is None ==> rule_row_spec(rule)[2] == "Any"@,
        forall|a: u16| rule.port_range_min == Some(a) && rule.port_range_max == Some(a) ==> rule_row_spec(rule)[2]
            == dec(a as nat),
        rule_row_spec(rule)[4] == rule.ethertype@,
{
}

/// A security group's row (without the project column) reads its name,
/// its description or `-`, and how many rules it has.
pub proof fn lemma_sg_row_cells(sg: SecurityGroup)
    ensures
        sg_row_spec(sg, false).cells.len() == 3,
        sg_row_spec(sg, false).cells[0] == sg.name@,
        sg.description matches Some(d) ==> sg_row_spec(sg, false).cells[1] == d@,
        sg.description is None ==> sg_row_spec(sg, false).cells[1] == "-"@,
        sg_row_spec(sg, false).cells[2] == dec(sg.security_group_rules@.len()),
{
}

/// A security group's detail screen lists, after its basic info, the
/// ingress rules under `Ingress Rules` with the peer column called
/// `Source`, then the egress rules under `Egress Rules` with the peer
/// column called `Destination`; each table holds exactly the rows of the
/// rules going that way (direction compared ignoring ASCII case), in
/// order, and is left out when there are none.
pub proof fn lemma_sg_detail_rule_tables(sg: SecurityGroup)
    ensures
        ({
            let d = sg_detail_spec(sg);
            let ins = sg.security_group_rules@.filter(
                |r: SecurityGroupRule| eq_ignore_ascii_case_spec(r.direction@, "ingress"@),
            );
            let outs = sg.security_group_rules@.filter(
                |r: SecurityGroupRule| eq_ignore_ascii_case_spec(r.direction@, "egress"@),
            );
            let n_in: int = if ins.len() > 0 { 1 } else { 0 };
            &&& d.sections.len() == 1 + n_in + (if outs.len() > 0 { 1int } else { 0 })
            &&& d.sections[0].name == "Basic Info"@
            &&& ins.len() > 0 ==> {
                &&& d.sections[1].name == "Ingress Rules"@
                &&& d.sections[1].fields == seq![
                    FieldView::NestedTable {
                        label: "Ingress"@,
                        columns: seq!["Direction"@, "Protocol"@, "Port"@, "Source"@, "Ethertype"@],
                        rows: ins.map_values(|r: SecurityGroupRule| rule_row_spec(r)),
                    },
                ]
            }
            &&& outs.len() > 0 ==> {
                &&& d.sections[1 + n_in].name == "Egress Rules"@
                &&& d.sections[1 + n_in].fields == seq![
                    FieldView::NestedTable {
                        label: "Egress"@,
                        columns: seq!["Direction"@, "Protocol"@, "Port"@, "Destination"@, "Ethertype"@],
                        rows: outs.map_values(|r: SecurityGroupRule| rule_row_spec(r)),
                    },
                ]
            }
        }),
{
    let rules = sg.security_group_rules@;
    assert(direction_rows_spec(rules, "ingress"@).len() == rules.filter(goes("ingress"@)).len());
    assert(direction_rows_spec(rules, "egress"@).len() == rules.filter(goes("egress"@)).len());
    assert(rules.filter(goes("ingress"@)) =~= rules.filter(
        |r: SecurityGroupRule| eq_ignore_ascii_case_spec(r.direction@, "ingress"@),
    ));
    assert(rules.filter(goes("egress"@)) =~= rules.filter(
        |r: SecurityGroupRule| eq_ignore_ascii_case_spec(r.direction@, "egress"@),
    ));
}

} // verus!
