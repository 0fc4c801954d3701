//! Compute service rows.
use vstd::prelude::*;
use crate::models::nova::ComputeService;
use crate::text::{opt_or, opt_str_or, str_eq};
use crate::ui::resource_list::{column, columns_view, push_column, ColumnAlign, ColumnDef, ColumnView, ColumnWidth, Row, RowStyleHint, RowView};

verus! {

/// Style of a service or hypervisor state: active when `up`, an error when
/// `down`, normal otherwise.
pub open spec fn up_down_style(state: Seq<char>) -> RowStyleHint {
    if state == "up"@ {
        RowStyleHint::Active
    } else if state == "down"@ {
        RowStyleHint::Error
    } else {
        RowStyleHint::Normal
    }
}

/// Style of a service or hypervisor state.
pub fn up_down_style_of(state: &str) -> (r: RowStyleHint)
    ensures
        r == up_down_style(state@),
{
    if str_eq(state, "up") {
        RowStyleHint::Active
    } else if str_eq(state, "down") {
        RowStyleHint::Error
    } else {
        RowStyleHint::Normal
    }
}

/// The row of a compute service: binary, host, state, status, disabled
/// reason (or `-`).
pub open spec fn compute_service_row_spec(svc: ComputeService) -> RowView {
    RowView {
        id: svc.id@,
        cells: seq![svc.binary@, svc.host@, svc.state@, svc.status@, opt_or(svc.disabled_reason, "-"@)],
        style_hint: Some(up_down_style(svc.state@)),
    }
}

/// The table row of a compute service.
pub fn compute_service_to_row(svc: &ComputeService) -> (r: Row)
    ensures
        r@ == compute_service_row_spec(*svc),
{
    let style = up_down_style_of(svc.state.as_str());
    let r = Row {
        id: svc.id.clone(),
        cells: vec![
            svc.binary.clone(),
            svc.host.clone(),
            svc.state.clone(),
            svc.status.clone(),
            opt_str_or(&svc.disabled_reason, "-"),
        ],
        style_hint: Some(style),
    };
    proof {
        assert(r@.cells =~= compute_service_row_spec(*svc).cells);
    }
    r
}

/// The compute service table's columns.
pub open spec fn compute_service_columns_spec() -> Seq<ColumnView> {
    seq![
        column("Binary"@, ColumnWidth::Percent(20), ColumnAlign::Left),
        column("Host"@, ColumnWidth::Percent(20), ColumnAlign::Left),
        column("State"@, ColumnWidth::Fixed(8), ColumnAlign::Left),
        column("Status"@, ColumnWidth::Fixed(10), ColumnAlign::Left),
        column("Disabled Reason"@, ColumnWidth::Percent(25), ColumnAlign::Left),
    ]
}

/// The columns of the compute service table.
pub fn compute_service_columns() -> (r: Vec<ColumnDef>)
    ensures
        columns_view(r@) == compute_service_columns_spec(),
{
    let mut r: Vec<ColumnDef> = Vec::new();
    push_column(&mut r, "Binary", ColumnWidth::Percent(20), ColumnAlign::Left);
    push_column(&mut r, "Host", ColumnWidth::Percent(20), ColumnAlign::Left);
    push_column(&mut r, "State", ColumnWidth::Fixed(8), ColumnAlign::Left);
    push_column(&mut r, "Status", ColumnWidth::Fixed(10), ColumnAlign::Left);
    push_column(&mut r, "Disabled Reason", ColumnWidth::Percent(25), ColumnAlign::Left);
    r
}

/// Every compute service row has one cell per column of the table it is made for.
pub proof fn lemma_compute_service_row_fits_columns(svc: ComputeService)
    ensures
        compute_service_row_spec(svc).cells.len() == compute_service_columns_spec().len(),
{
}

/// A compute service's row reads its binary, host, state and status, in
/// that order, and its disabled reason or `-`.
pub proof fn lemma_compute_service_row_cells(svc: ComputeService)
    ensures
        compute_service_row_spec(svc).cells.len() == 5,
        compute_service_row_spec(svc).cells.subrange(0, 4) == seq![svc.binary@, svc.host@, svc.state@, svc.status@],
        svc.disabled_reason matches Some(d) ==> compute_service_row_spec(svc).cells[4] == d@,
        svc.disabled_reason is None ==> compute_service_row_spec(svc).cells[4] == "-"@,
{
    assert(compute_service_row_spec(svc).cells.subrange(0, 4) =~= seq![svc.binary@, svc.host@, svc.state@, svc.status@]);
}

} // verus!
