//! Volume snapshot rows and detail screen.
use vstd::prelude::*;
use crate::models::cinder::VolumeSnapshot;
use crate::text::{cat, cat3, dec, lowercase_of, opt_or, opt_str_or, opt_view, str_eq, to_lower, u64_text};
use crate::ui::detail_view::{fields_view, kv, opt_kv, push_kv, push_opt_kv, section, sections_view, DetailData, DetailDataView, DetailField, DetailSection, FieldView, SectionView};
use crate::ui::resource_list::{column, columns_view, push_column, ColumnAlign, ColumnDef, ColumnView, ColumnWidth, Row, RowStyleHint, RowView};

verus! {

/// Icon and style of a lower-cased snapshot status.
pub open spec fn snapshot_status_spec(lower: Seq<char>) -> (Seq<char>, RowStyleHint) {
    if lower == "available"@ {
        ("●"@, RowStyleHint::Active)
    } else if lower == "error"@ || lower == "error_deleting"@ {
        ("✗"@, RowStyleHint::Error)
    } else if lower == "creating"@ || lower == "deleting"@ {
        ("◐"@, RowStyleHint::Warning)
    } else {
        ("?"@, RowStyleHint::Normal)
    }
}

/// Icon and style for an already lower-cased status.
pub fn snapshot_status_for_lower(lower: &str) -> (r: (&'static str, RowStyleHint))
    ensures
        (r.0@, r.1) == snapshot_status_spec(lower@),
{
    if str_eq(lower, "available") {
        ("●", RowStyleHint::Active)
    } else if str_eq(lower, "error") || str_eq(lower, "error_deleting") {
        ("✗", RowStyleHint::Error)
    } else if str_eq(lower, "creating") || str_eq(lower, "deleting") {
        ("◐", RowStyleHint::Warning)
    } else {
        ("?", RowStyleHint::Normal)
    }
}

/// Icon and style of a snapshot status, compared case-insensitively.
pub fn snapshot_status_display(status: &str) -> (r: (&'static str, RowStyleHint))
    ensures
        (r.0@, r.1) == snapshot_status_spec(lowercase_of(status@)),
{
    let lower = to_lower(status);
    snapshot_status_for_lower(lower.as_str())
}

/// The row of a snapshot: name or `-`, project when shown, status with
/// icon, size, volume, creation time or `-`.
pub open spec fn snapshot_row_spec(s: VolumeSnapshot, show_tenant: bool) -> RowView {
    let (icon, style) = snapshot_status_spec(lowercase_of(s.status@));
    RowView {
        id: s.id@,
        cells: seq![opt_or(s.name, "-"@)] + (if show_tenant {
            seq![opt_or(s.tenant_id, "-"@)]
        } else {
            Seq::empty()
        }) + seq![
            icon + " "@ + s.status@,
            dec(s.size as nat),
            s.volume_id@,
            opt_or(s.created_at, "-"@),
        ],
        style_hint: Some(style),
    }
}

/// The table row of a snapshot.
pub fn snapshot_to_row(snap: &VolumeSnapshot, show_tenant: bool) -> (r: Row)
    ensures
        r@ == snapshot_row_spec(*snap, show_tenant),
{
    let (icon, style) = snapshot_status_display(snap.status.as_str());
    let mut cells = vec![opt_str_or(&snap.name, "-")];
    if show_tenant {
        cells.push(opt_str_or(&snap.tenant_id, "-"));
    }
    cells.push(cat3(icon, " ", snap.status.as_str()));
    cells.push(u64_text(snap.size));
    cells.push(snap.volume_id.clone());
    cells.push(opt_str_or(&snap.created_at, "-"));
    let r = Row { id: snap.id.clone(), cells, style_hint: Some(style) };
    proof {
        assert(r@.cells =~= snapshot_row_spec(*snap, show_tenant).cells);
    }
    r
}

/// The detail screen of a snapshot: one section with ID, name, status,
/// size in GB, volume, and creation time when known.
pub open spec fn snapshot_detail_spec(s: VolumeSnapshot) -> DetailDataView {
    let name = opt_or(s.name, "-"@);
    DetailDataView {
        title: "Snapshot: "@ + name,
        sections: seq![
            SectionView {
                name: "Basic Info"@,
                fields: seq![
                    kv("ID"@, s.id@, None),
                    kv("Name"@, name, None),
                    kv("Status"@, s.status@, Some(snapshot_status_spec(lowercase_of(s.status@)).1)),
                    kv("Size"@, dec(s.size as nat) + " GB"@, None),
                    kv("Volume ID"@, s.volume_id@, None),
                ] + opt_kv("Created"@, opt_view(s.created_at)),
            },
        ],
    }
}

/// The detail screen of a snapshot.
pub fn snapshot_detail_data(snap: &VolumeSnapshot) -> (r: DetailData)
    ensures
        r@ == snapshot_detail_spec(*snap),
{
    let name = opt_str_or(&snap.name, "-");
    let (_, st) = snapshot_status_display(snap.status.as_str());
    let size = u64_text(snap.size);
    let mut fields: Vec<DetailField> = Vec::new();
    push_kv(&mut fields, "ID", snap.id.clone(), None);
    push_kv(&mut fields, "Name", name.clone(), None);
    push_kv(&mut fields, "Status", snap.status.clone(), Some(st));
    push_kv(&mut fields, "Size", cat(size.as_str(), " GB"), None);
    push_kv(&mut fields, "Volume ID", snap.volume_id.clone(), None);
    push_opt_kv(&mut fields, "Created", &snap.created_at);
    proof {
        assert(fields_view(fields@) =~= snapshot_detail_spec(*snap).sections[0].fields);
    }
    let title = cat("Snapshot: ", name.as_str());
    let r = DetailData { title, sections: vec![section("Basic Info", fields)] };
    proof {
        assert(sections_view(r.sections@) =~= snapshot_detail_spec(*snap).sections);
    }
    r
}

/// The snapshot table's columns.
pub open spec fn snapshot_columns_spec(show_tenant: bool) -> Seq<ColumnView> {
    seq![
        column("Name"@, ColumnWidth::Percent(25), ColumnAlign::Left),
    ]
        + (if show_tenant { seq![column("Project"@, ColumnWidth::Percent(12), ColumnAlign::Left)] } else { Seq::<ColumnView>::empty() })
        + seq![
        column("Status"@, ColumnWidth::Fixed(12), ColumnAlign::Left),
        column("Size(GB)"@, ColumnWidth::Fixed(9), ColumnAlign::Right),
        column("Volume ID"@, ColumnWidth::Percent(25), ColumnAlign::Left),
        column("Created"@, ColumnWidth::Percent(20), ColumnAlign::Left),
    ]
}

/// The columns of the volume snapshot table, with the optional ones shown when asked for.
pub fn snapshot_columns(show_tenant: bool) -> (r: Vec<ColumnDef>)
    ensures
        columns_view(r@) == snapshot_columns_spec(show_tenant),
{
    let mut r: Vec<ColumnDef> = Vec::new();
    push_column(&mut r, "Name", ColumnWidth::Percent(25), ColumnAlign::Left);
    if show_tenant {
        push_column(&mut r, "Project", ColumnWidth::Percent(12), ColumnAlign::Left);
    }
    push_column(&mut r, "Status", ColumnWidth::Fixed(12), ColumnAlign::Left);
    push_column(&mut r, "Size(GB)", ColumnWidth::Fixed(9), ColumnAlign::Right);
    push_column(&mut r, "Volume ID", ColumnWidth::Percent(25), ColumnAlign::Left);
    push_column(&mut r, "Created", ColumnWidth::Percent(20), ColumnAlign::Left);
    r
}

/// Every snapshot row has one cell per column of the table it is made for.
pub proof fn lemma_snapshot_row_fits_columns(s: VolumeSnapshot, show_tenant: bool)
    ensures
        snapshot_row_spec(s, show_tenant).cells.len() == snapshot_columns_spec(show_tenant).len(),
{
}

/// A snapshot's row (without the project column) reads its name or `-`,
/// its status, its size in GB, the volume it was taken of, and its
/// creation time or `-`.
pub proof fn lemma_snapshot_row_cells(s: VolumeSnapshot)
    ensures
        ({
            let c = snapshot_row_spec(s, false).cells;
            &&& c.len() == 5
            &&& s.name matches Some(n) ==> c[0] == n@
            &&& s.name is None ==> c[0] == "-"@
            &&& c[2] == dec(s.size as nat)
            &&& c[3] == s.volume_id@
            &&& s.created_at matches Some(t) ==> c[4] == t@
            &&& s.created_at is None ==> c[4] == "-"@
        }),
{
}

/// A snapshot's detail screen has one section reading its ID, its name (or
/// `-`), its status, its size in GB and the volume it was taken of, then
/// its creation time when known.
pub proof fn lemma_snapshot_detail_fields(s: VolumeSnapshot)
    ensures
        ({
            let d = snapshot_detail_spec(s);
            let f = d.sections[0].fields;
            &&& d.sections.len() == 1
            &&& f.len() == 5 + (if s.created_at is Some { 1int } else { 0 })
            &&& f[0] == kv("ID"@, s.id@, None)
            &&& f[1] == kv("Name"@, if s.name is Some { s.name->0@ } else { "-"@ }, None)
            &&& f[2] matches FieldView::KeyValue { key, value, .. } && key == "Status"@ && value == s.status@
            &&& f[3] == kv("Size"@, dec(s.size as nat) + " GB"@, None)
            &&& f[4] == kv("Volume ID"@, s.volume_id@, None)
            &&& s.created_at matches Some(t) ==> f[5] == kv("Created"@, t@, None)
        }),
{
}

} // verus!
