//! Flavor rows and form.
use vstd::prelude::*;
use crate::models::nova::Flavor;
use crate::text::{dec, u64_text};
use crate::ui::form::{checkbox_spec, field_specs, text_spec, FieldDef};
use crate::ui::resource_list::{column, columns_view, push_column, ColumnAlign, ColumnDef, ColumnView, ColumnWidth, Row, RowStyleHint, RowView};

verus! {

/// `✓` for true, `✗` for false.
pub open spec fn check_icon(b: bool) -> Seq<char> {
    if b { "✓"@ } else { "✗"@ }
}

/// `✓` for true, `✗` for false.
pub fn check_icon_str(b: bool) -> (r: &'static str)
    ensures
        r@ == check_icon(b),
{
    if b { "✓" } else { "✗" }
}

/// The row of a flavor: name, vCPUs, RAM, disk, public icon.
pub open spec fn flavor_row_spec(f: Flavor) -> RowView {
    RowView {
        id: f.id@,
        cells: seq![f.name@, dec(f.vcpus as nat), dec(f.ram as nat), dec(f.disk as nat), check_icon(f.is_public)],
        style_hint: Some(RowStyleHint::Normal),
    }
}

/// The table row of a flavor.
pub fn flavor_to_row(flavor: &Flavor) -> (r: Row)
    ensures
        r@ == flavor_row_spec(*flavor),
{
    let r = Row {
        id: flavor.id.clone(),
        cells: vec![
            flavor.name.clone(),
            u64_text(flavor.vcpus as u64),
            u64_text(flavor.ram as u64),
            u64_text(flavor.disk as u64),
            String::from_str(check_icon_str(flavor.is_public)),
        ],
        style_hint: Some(RowStyleHint::Normal),
    };
    proof {
        assert(r@.cells =~= flavor_row_spec(*flavor).cells);
    }
    r
}

/// The flavor form: required name, vCPU, RAM and disk, and a public box.
pub fn flavor_create_defs() -> (r: Vec<FieldDef>)
    ensures
        field_specs(r@) == seq![
            text_spec("Name"@, true),
            text_spec("vCPU"@, true),
            text_spec("RAM (MB)"@, true),
            text_spec("Disk (GB)"@, true),
            checkbox_spec("Public"@),
        ],
{
    let r = vec![
        FieldDef::text("Name", true),
        FieldDef::text("vCPU", true),
        FieldDef::text("RAM (MB)", true),
        FieldDef::text("Disk (GB)", true),
        FieldDef::checkbox("Public"),
    ];
    proof {
        assert(field_specs(r@) =~= seq![
            text_spec("Name"@, true),
            text_spec("vCPU"@, true),
            text_spec("RAM (MB)"@, true),
            text_spec("Disk (GB)"@, true),
            checkbox_spec("Public"@),
        ]);
    }
    r
}

/// The flavor table's columns.
pub open spec fn flavor_columns_spec() -> Seq<ColumnView> {
    seq![
        column("Name"@, ColumnWidth::Percent(25), ColumnAlign::Left),
        column("vCPU"@, ColumnWidth::Fixed(8), ColumnAlign::Right),
        column("RAM (MB)"@, ColumnWidth::Fixed(10), ColumnAlign::Right),
        column("Disk (GB)"@, ColumnWidth::Fixed(10), ColumnAlign::Right),
        column("Public"@, ColumnWidth::Fixed(8), ColumnAlign::Center),
    ]
}

/// The columns of the flavor table.
pub fn flavor_columns() -> (r: Vec<ColumnDef>)
    ensures
        columns_view(r@) == flavor_columns_spec(),
{
    let mut r: Vec<ColumnDef> = Vec::new();
    push_column(&mut r, "Name", ColumnWidth::Percent(25), ColumnAlign::Left);
    push_column(&mut r, "vCPU", ColumnWidth::Fixed(8), ColumnAlign::Right);
    push_column(&mut r, "RAM (MB)", ColumnWidth::Fixed(10), ColumnAlign::Right);
    push_column(&mut r, "Disk (GB)", ColumnWidth::Fixed(10), ColumnAlign::Right);
    push_column(&mut r, "Public", ColumnWidth::Fixed(8), ColumnAlign::Center);
    r
}

/// Every flavor row has one cell per column of the table it is made for.
pub proof fn lemma_flavor_row_fits_columns(f: Flavor)
    ensures
        flavor_row_spec(f).cells.len() == flavor_columns_spec().len(),
{
}

/// A flavor's row reads its name, vCPUs, RAM in MB and disk in GB, in
/// that order, then `✓` exactly when the flavor is public.
pub proof fn lemma_flavor_row_cells(f: Flavor)
    ensures
        flavor_row_spec(f).id == f.id@,
        flavor_row_spec(f).cells == seq![
            f.name@,
            dec(f.vcpus as nat),
            dec(f.ram as nat),
            dec(f.disk as nat),
            if f.is_public { "✓"@ } else { "✗"@ },
        ],
{
}

} // verus!
