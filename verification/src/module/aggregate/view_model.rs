//! Host aggregate rows.
use vstd::prelude::*;
use crate::models::nova::Aggregate;
use crate::text::{dec, opt_or, opt_str_or, u64_text};
use crate::ui::resource_list::{column, columns_view, push_column, ColumnAlign, ColumnDef, ColumnView, ColumnWidth, Row, RowStyleHint, RowView};

verus! {

/// The row of an aggregate: name, availability zone (or `-`), host count.
pub open spec fn aggregate_row_spec(agg: Aggregate) -> RowView {
    RowView {
        id: dec(agg.id as nat),
        cells: seq![agg.name@, opt_or(agg.availability_zone, "-"@), dec(agg.hosts@.len())],
        style_hint: Some(RowStyleHint::Normal),
    }
}

/// The table row of a host aggregate.
pub fn aggregate_to_row(agg: &Aggregate) -> (r: Row)
    ensures
        r@ == aggregate_row_spec(*agg),
{
    let r = Row {
        id: u64_text(agg.id),
        cells: vec![
            agg.name.clone(),
            opt_str_or(&agg.availability_zone, "-"),
            u64_text(agg.hosts.len() as u64),
        ],
        style_hint: Some(RowStyleHint::Normal),
    };
    proof {
        assert(r@.cells =~= aggregate_row_spec(*agg).cells);
    }
    r
}

/// The host aggregate table's columns.
pub open spec fn aggregate_columns_spec() -> Seq<ColumnView> {
    seq![
        column("Name"@, ColumnWidth::Percent(25), ColumnAlign::Left),
        column("AZ"@, ColumnWidth::Percent(15), ColumnAlign::Left),
        column("Hosts"@, ColumnWidth::Fixed(8), ColumnAlign::Right),
    ]
}

/// The columns of the host aggregate table.
pub fn aggregate_columns() -> (r: Vec<ColumnDef>)
    ensures
        columns_view(r@) == aggregate_columns_spec(),
{
    let mut r: Vec<ColumnDef> = Vec::new();
    push_column(&mut r, "Name", ColumnWidth::Percent(25), ColumnAlign::Left);
    push_column(&mut r, "AZ", ColumnWidth::Percent(15), ColumnAlign::Left);
    push_column(&mut r, "Hosts", ColumnWidth::Fixed(8), ColumnAlign::Right);
    r
}

/// Every host aggregate row has one cell per column of the table it is made for.
pub proof fn lemma_aggregate_row_fits_columns(agg: Aggregate)
    ensures
        aggregate_row_spec(agg).cells.len() == aggregate_columns_spec().len(),
{
}

/// An aggregate's row reads its name, its zone or `-`, and how many hosts
/// it holds; its id is the aggregate's number in decimal.
pub proof fn lemma_aggregate_row_cells(agg: Aggregate)
    ensures
        aggregate_row_spec(agg).id == dec(agg.id as nat),
        aggregate_row_spec(agg).cells.len() == 3,
        aggregate_row_spec(agg).cells[0] == agg.name@,
        agg.availability_zone matches Some(z) ==> aggregate_row_spec(agg).cells[1] == z@,
        agg.availability_zone is None ==> aggregate_row_spec(agg).cells[1] == "-"@,
        aggregate_row_spec(agg).cells[2] == dec(agg.hosts@.len()),
{
}

} // verus!
