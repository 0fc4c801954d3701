//! Volume rows, detail screen and form.
use vstd::prelude::*;
use crate::models::cinder::{Volume, VolumeAttachment};
use crate::module::flavor::view_model::{check_icon, check_icon_str};
use crate::text::{bool_str, bool_text, cat, char_prefix, dec, join, join_spec, lowercase_of, opt_or, opt_str_or, opt_view, str_eq, strs_view, take_chars, to_lower, u64_text};
use crate::ui::detail_view::{fields_view, kv, opt_kv, push_kv, push_opt_kv, push_section, section, sections_view, table_view, DetailData, DetailDataView, DetailField, DetailSection, FieldView, SectionView};
use crate::ui::form::{field_specs, text_spec, FieldDef};
use crate::ui::resource_list::{column, columns_view, push_column, ColumnAlign, ColumnDef, ColumnView, ColumnWidth, Row, RowStyleHint, RowView};

verus! {

/// Icon and style of a lower-cased volume status.
pub open spec fn volume_status_spec(lower: Seq<char>) -> (Seq<char>, RowStyleHint) {
    if lower == "available"@ {
        ("●"@, RowStyleHint::Active)
    } else if lower == "in-use"@ {
        ("◆"@, RowStyleHint::Active)
    } else if lower == "error"@ || lower == "error_deleting"@ || lower == "error_extending"@
        || lower == "error_restoring"@ {
        ("✗"@, RowStyleHint::Error)
    } else if lower == "creating"@ || lower == "attaching"@ || lower == "detaching"@ || lower
        == "extending"@ || lower == "downloading"@ || lower == "uploading"@ || lower
        == "retyping"@ || lower == "migrating"@ || lower == "deleting"@ {
        ("◐"@, RowStyleHint::Warning)
    } else if lower == "maintenance"@ {
        ("○"@, RowStyleHint::Disabled)
    } else {
        ("?"@, RowStyleHint::Normal)
    }
}

/// Icon and style for an already lower-cased status.
pub fn volume_status_for_lower(lower: &str) -> (r: (&'static str, RowStyleHint))
    ensures
        (r.0@, r.1) == volume_status_spec(lower@),
{
    if str_eq(lower, "available") {
        ("●", RowStyleHint::Active)
    } else if str_eq(lower, "in-use") {
        ("◆", RowStyleHint::Active)
    } else if str_eq(lower, "error") || str_eq(lower, "error_deleting") || str_eq(
        lower,
        "error_extending",
    ) || str_eq(lower, "error_restoring") {
        ("✗", RowStyleHint::Error)
    } else if str_eq(lower, "creating") || str_eq(lower, "attaching") || str_eq(lower, "detaching")
        || str_eq(lower, "extending") || str_eq(lower, "downloading") || str_eq(lower, "uploading")
        || str_eq(lower, "retyping") || str_eq(lower, "migrating") || str_eq(lower, "deleting") {
        ("◐", RowStyleHint::Warning)
    } else if str_eq(lower, "maintenance") {
        ("○", RowStyleHint::Disabled)
    } else {
        ("?", RowStyleHint::Normal)
    }
}

/// Icon and style of a volume status, compared case-insensitively.
pub fn volume_status_display(status: &str) -> (r: (&'static str, RowStyleHint))
    ensures
        (r.0@, r.1) == volume_status_spec(lowercase_of(status@)),
{
    let lower = to_lower(status);
    volume_status_for_lower(lower.as_str())
}

/// How an attachment is shown in the row: the first eight characters of
/// the server ID and the device in brackets.
pub open spec fn attachment_label(a: VolumeAttachment) -> Seq<char> {
    take_chars(a.server_id@, 8) + " ("@ + a.device@ + ")"@
}

/// The attachment column: `-`, or the labels joined by `, `.
pub open spec fn attachments_text(atts: Seq<VolumeAttachment>) -> Seq<char> {
    if atts.len() == 0 {
        "-"@
    } else {
        join_spec(atts.map_values(|a: VolumeAttachment| attachment_label(a)), ", "@)
    }
}

/// The attachment column of a volume.
fn attachments_cell(atts: &Vec<VolumeAttachment>) -> (r: String)
    ensures
        r@ == attachments_text(atts@),
{
    if atts.len() == 0 {
        return String::from_str("-");
    }
    let n = atts.len();
    let mut labels: Vec<String> = Vec::new();
    let mut i: usize = 0;
    while i < n
        invariant
            n == atts@.len(),
            i <= n,
            strs_view(labels@) == atts@.subrange(0, i as int).map_values(
                |a: VolumeAttachment| attachment_label(a),
            ),
        decreases n - i,
    {
        let a = &atts[i];
        let mut label = char_prefix(a.server_id.as_str(), 8);
        label.append(" (");
        label.append(a.device.as_str());
        label.append(")");
        let ghost before = labels@;
        labels.push(label);
        proof {
            assert(label@ =~= attachment_label(atts@[i as int]));
            assert(atts@.subrange(0, i + 1) =~= atts@.subrange(0, i as int).push(atts@[i as int]));
            assert(strs_view(labels@) =~= strs_view(before).push(label@));
            assert(atts@.subrange(0, i + 1).map_values(|a: VolumeAttachment| attachment_label(a))
                =~= atts@.subrange(0, i as int).map_values(|a: VolumeAttachment| attachment_label(a)).push(
                attachment_label(atts@[i as int]),
            ));
        }
        i = i + 1;
    }
    proof {
        assert(atts@.subrange(0, n as int) =~= atts@);
    }
    join(&labels, ", ")
}

/// The row of a volume: icon, name or `-`, status, size, type or `-`,
/// bootable icon, attachments.
pub open spec fn volume_row_spec(v: Volume) -> RowView {
    let (icon, style) = volume_status_spec(lowercase_of(v.status@));
    RowView {
        id: v.id@,
        cells: seq![
            icon,
            opt_or(v.name, "-"@),
            v.status@,
            dec(v.size as nat),
            opt_or(v.volume_type, "-"@),
            check_icon(v.bootable@ == "true"@),
            attachments_text(v.attachments@),
        ],
        style_hint: Some(style),
    }
}

/// The table row of a volume.
pub fn volume_to_row(volume: &Volume) -> (r: Row)
    ensures
        r@ == volume_row_spec(*volume),
{
    let (icon, style) = volume_status_display(volume.status.as_str());
    let bootable = str_eq(volume.bootable.as_str(), "true");
    let r = Row {
        id: volume.id.clone(),
        cells: vec![
            String::from_str(icon),
            opt_str_or(&volume.name, "-"),
            volume.status.clone(),
            u64_text(volume.size),
            opt_str_or(&volume.volume_type, "-"),
            String::from_str(check_icon_str(bootable)),
            attachments_cell(&volume.attachments),
        ],
        style_hint: Some(style),
    };
    proof {
        assert(r@.cells =~= volume_row_spec(*volume).cells);
    }
    r
}

/// The attachment table: server, device, attachment ID.
pub open spec fn attachment_rows_spec(atts: Seq<VolumeAttachment>) -> Seq<Seq<Seq<char>>> {
    atts.map_values(|a: VolumeAttachment| seq![a.server_id@, a.device@, a.id@])
}

/// The attachment table rows.
fn attachment_rows(atts: &Vec<VolumeAttachment>) -> (r: Vec<Vec<String>>)
    ensures
        table_view(r@) == attachment_rows_spec(atts@),
{
    let n = atts.len();
    let mut rows: Vec<Vec<String>> = Vec::new();
    let mut i: usize = 0;
    while i < n
        invariant
            n == atts@.len(),
            i <= n,
            table_view(rows@) == attachment_rows_spec(atts@.subrange(0, i as int)),
        decreases n - i,
    {
        let a = &atts[i];
        let row = vec![a.server_id.clone(), a.device.clone(), a.id.clone()];
        let ghost before = rows@;
        rows.push(row);
        proof {
            assert(strs_view(row@) =~= seq![a.server_id@, a.device@, a.id@]);
            assert(atts@.subrange(0, i + 1) =~= atts@.subrange(0, i as int).push(atts@[i as int]));
            assert(table_view(rows@) =~= table_view(before).push(strs_view(row@)));
            assert(attachment_rows_spec(atts@.subrange(0, i + 1)) =~= attachment_rows_spec(
                atts@.subrange(0, i as int),
            ).push(strs_view(row@)));
        }
        i = i + 1;
    }
    proof {
        assert(atts@.subrange(0, n as int) =~= atts@);
    }
    rows
}

/// The detail screen of a volume: basic info, and the attachments as a
/// table when there are any.
pub open spec fn volume_detail_spec(v: Volume) -> DetailDataView {
    let name = opt_or(v.name, "-"@);
    let basic = seq![
        kv("ID"@, v.id@, None),
        kv("Name"@, name, None),
        kv("Status"@, v.status@, Some(volume_status_spec(lowercase_of(v.status@)).1)),
        kv("Size"@, dec(v.size as nat) + " GB"@, None),
    ] + opt_kv("Description"@, opt_view(v.description)) + opt_kv("Type"@, opt_view(v.volume_type))
        + seq![kv("Encrypted"@, bool_text(v.encrypted), None), kv("Bootable"@, v.bootable@, None)]
        + opt_kv("AZ"@, opt_view(v.availability_zone)) + opt_kv("Created"@, opt_view(v.created_at));
    DetailDataView {
        title: "Volume: "@ + name,
        sections: seq![SectionView { name: "Basic Info"@, fields: basic }] + (if v.attachments@.len()
            > 0 {
            seq![
                SectionView {
                    name: "Attachments"@,
                    fields: seq![
                        FieldView::NestedTable {
                            label: "Attachments"@,
                            columns: seq!["Server ID"@, "Device"@, "Attachment ID"@],
                            rows: attachment_rows_spec(v.attachments@),
                        },
                    ],
                },
            ]
        } else {
            Seq::empty()
        }),
    }
}

/// The detail screen of a volume.
pub fn volume_detail_data(volume: &Volume) -> (r: DetailData)
    ensures
        r@ == volume_detail_spec(*volume),
{
    let ghost spec = volume_detail_spec(*volume);
    let name = opt_str_or(&volume.name, "-");
    let (_, st) = volume_status_display(volume.status.as_str());
    let size = u64_text(volume.size);
    let mut basic: Vec<DetailField> = Vec::new();
    push_kv(&mut basic, "ID", volume.id.clone(), None);
    push_kv(&mut basic, "Name", name.clone(), None);
    push_kv(&mut basic, "Status", volume.status.clone(), Some(st));
    push_kv(&mut basic, "Size", cat(size.as_str(), " GB"), None);
    push_opt_kv(&mut basic, "Description", &volume.description);
    push_opt_kv(&mut basic, "Type", &volume.volume_type);
    push_kv(&mut basic, "Encrypted", String::from_str(bool_str(volume.encrypted)), None);
    push_kv(&mut basic, "Bootable", volume.bootable.clone(), None);
    push_opt_kv(&mut basic, "AZ", &volume.availability_zone);
    push_opt_kv(&mut basic, "Created", &volume.created_at);
    proof {
        assert(fields_view(basic@) =~= spec.sections[0].fields);
    }
    let mut sections: Vec<DetailSection> = Vec::new();
    push_section(&mut sections, section("Basic Info", basic));
    if volume.attachments.len() > 0 {
        let columns = vec![
            String::from_str("Server ID"),
            String::from_str("Device"),
            String::from_str("Attachment ID"),
        ];
        let rows = attachment_rows(&volume.attachments);
        proof {
            assert(strs_view(columns@) =~= seq!["Server ID"@, "Device"@, "Attachment ID"@]);
        }
        let table = DetailField::NestedTable { label: String::from_str("Attachments"), columns, rows };
        let fields = vec![table];
        proof {
            assert(fields_view(fields@) =~= seq![
                FieldView::NestedTable {
                    label: "Attachments"@,
                    columns: seq!["Server ID"@, "Device"@, "Attachment ID"@],
                    rows: attachment_rows_spec(volume.attachments@),
                },
            ]);
        }
        push_section(&mut sections, section("Attachments", fields));
    }
    let title = cat("Volume: ", name.as_str());
    let r = DetailData { title, sections };
    proof {
        assert(sections_view(r.sections@) =~= spec.sections);
    }
    r
}

/// The volume form: required name and size, optional type, description
/// and availability zone.
pub fn volume_create_defs() -> (r: Vec<FieldDef>)
    ensures
        field_specs(r@) == seq![
            text_spec("Name"@, true),
            text_spec("Size (GB)"@, true),
            text_spec("Type"@, false),
            text_spec("Description"@, false),
            text_spec("Availability Zone"@, false),
        ],
{
    let r = vec![
        FieldDef::text("Name", true),
        FieldDef::text("Size (GB)", true),
        FieldDef::text("Type", false),
        FieldDef::text("Description", false),
        FieldDef::text("Availability Zone", false),
    ];
    proof {
        assert(field_specs(r@) =~= seq![
            text_spec("Name"@, true),
            text_spec("Size (GB)"@, true),
            text_spec("Type"@, false),
            text_spec("Description"@, false),
            text_spec("Availability Zone"@, false),
        ]);
    }
    r
}

/// The volume table's columns.
pub open spec fn volume_columns_spec() -> Seq<ColumnView> {
    seq![
        column(""@, ColumnWidth::Fixed(3), ColumnAlign::Center),
        column("Name"@, ColumnWidth::Percent(20), ColumnAlign::Left),
        column("Status"@, ColumnWidth::Fixed(12), ColumnAlign::Left),
        column("Size(GB)"@, ColumnWidth::Fixed(9), ColumnAlign::Right),
        column("Type"@, ColumnWidth::Fixed(12), ColumnAlign::Left),
        column("Bootable"@, ColumnWidth::Fixed(9), ColumnAlign::Center),
        column("Attached To"@, ColumnWidth::Percent(18), ColumnAlign::Left),
    ]
}

/// The columns of the volume table.
pub fn volume_columns() -> (r: Vec<ColumnDef>)
    ensures
        columns_view(r@) == volume_columns_spec(),
{
    let mut r: Vec<ColumnDef> = Vec::new();
    push_column(&mut r, "", ColumnWidth::Fixed(3), ColumnAlign::Center);
    push_column(&mut r, "Name", ColumnWidth::Percent(20), ColumnAlign::Left);
    push_column(&mut r, "Status", ColumnWidth::Fixed(12), ColumnAlign::Left);
    push_column(&mut r, "Size(GB)", ColumnWidth::Fixed(9), ColumnAlign::Right);
    push_column(&mut r, "Type", ColumnWidth::Fixed(12), ColumnAlign::Left);
    push_column(&mut r, "Bootable", ColumnWidth::Fixed(9), ColumnAlign::Center);
    push_column(&mut r, "Attached To", ColumnWidth::Percent(18), ColumnAlign::Left);
    r
}

/// Every volume row has one cell per column of the table it is made for.
pub proof fn lemma_volume_row_fits_columns(v: Volume)
    ensures
        volume_row_spec(v).cells.len() == volume_columns_spec().len(),
{
}

/// A volume's row shows `✓` in its Bootable column exactly when Cinder
/// reports the volume bootable with the text `true`, and `✗` otherwise;
/// beside it stand the name (or `-`), the status and the size in GB.
pub proof fn lemma_volume_row_bootable(v: Volume)
    ensures
        volume_row_spec(v).cells.len() == 7,
        volume_row_spec(v).id == v.id@,
        (volume_row_spec(v).cells[5] == "✓"@) <==> (v.bootable@ == "true"@),
        (volume_row_spec(v).cells[5] == "✗"@) <==> (v.bootable@ != "true"@),
        v.name matches Some(n) ==> volume_row_spec(v).cells[1] == n@,
        v.name is None ==> volume_row_spec(v).cells[1] == "-"@,
        volume_row_spec(v).cells[2] == v.status@,
        volume_row_spec(v).cells[3] == dec(v.size as nat),
{
    reveal_strlit("✓");
    reveal_strlit("✗");
    assert("✓"@.len() == 1 && "✗"@.len() == 1);
    assert("✓"@[0] != "✗"@[0]);
    assert("✓"@ != "✗"@);
}

/// A volume's detail screen opens with its ID, its name (or `-`), its
/// status and its size in GB; after the optional description and type
/// come `Encrypted`, `true` exactly when the volume is encrypted, and
/// `Bootable`, the text Cinder reports.
pub proof fn lemma_volume_detail_basic(v: Volume)
    ensures
        ({
            let f = volume_detail_spec(v).sections[0].fields;
            let k = 4 + (if v.description is Some { 1int } else { 0 }) + (if v.volume_type is Some { 1int } else { 0 });
            &&& volume_detail_spec(v).sections[0].name == "Basic Info"@
            &&& f.len() >= k + 2
            &&& f[0] == kv("ID"@, v.id@, None)
            &&& f[1] == kv("Name"@, if v.name is Some { v.name->0@ } else { "-"@ }, None)
            &&& f[2] matches FieldView::KeyValue { key, value, .. } && key == "Status"@ && value == v.status@
            &&& f[3] == kv("Size"@, dec(v.size as nat) + " GB"@, None)
            &&& f[k] == kv("Encrypted"@, if v.encrypted { "true"@ } else { "false"@ }, None)
            &&& f[k + 1] == kv("Bootable"@, v.bootable@, None)
        }),
        (volume_detail_spec(v).sections.len() == 2) == (v.attachments@.len() > 0),
{
    reveal_strlit("true");
    reveal_strlit("false");
    let name = opt_or(v.name, "-"@);
    let b0 = seq![
        kv("ID"@, v.id@, None),
        kv("Name"@, name, None),
        kv("Status"@, v.status@, Some(volume_status_spec(lowercase_of(v.status@)).1)),
        kv("Size"@, dec(v.size as nat) + " GB"@, None),
    ];
    let d = opt_kv("Description"@, opt_view(v.description));
    let t = opt_kv("Type"@, opt_view(v.volume_type));
    let eb = seq![kv("Encrypted"@, bool_text(v.encrypted), None), kv("Bootable"@, v.bootable@, None)];
    let z = opt_kv("AZ"@, opt_view(v.availability_zone));
    let c = opt_kv("Created"@, opt_view(v.created_at));
    let f = volume_detail_spec(v).sections[0].fields;
    let pre = b0 + d + t;
    assert(f == pre + eb + z + c);
    assert(pre[0] == b0[0] && pre[1] == b0[1] && pre[2] == b0[2] && pre[3] == b0[3]);
    assert(f[0] == pre[0] && f[1] == pre[1] && f[2] == pre[2] && f[3] == pre[3]);
    let k = pre.len() as int;
    assert((pre + eb)[k] == eb[0] && (pre + eb)[k + 1] == eb[1]);
    assert(f[k] == eb[0] && f[k + 1] == eb[1]);
    assert(bool_text(v.encrypted) =~= (if v.encrypted { "true"@ } else { "false"@ }));
    assert(d.len() == (if v.description is Some { 1int } else { 0 }));
    assert(t.len() == (if v.volume_type is Some { 1int } else { 0 }));
    assert(name == (if v.name is Some { v.name->0@ } else { "-"@ }));
}

} // verus!
