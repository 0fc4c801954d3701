//! Floating IP rows and form.
use vstd::prelude::*;
use crate::models::neutron::FloatingIp;
use crate::text::{cat3, opt_or, opt_str_or, to_upper, uppercase_of};
use crate::ui::form::{dropdown_spec, field_specs, FieldDef};
use crate::ui::resource_list::{column, columns_view, push_column, ColumnAlign, ColumnDef, ColumnView, ColumnWidth, Row, RowStyleHint, RowView};

verus! {

/// Icon and style of an upper-cased floating IP status.
pub open spec fn fip_status_spec(upper: Seq<char>) -> (Seq<char>, RowStyleHint) {
    if upper == "ACTIVE"@ {
        ("●"@, RowStyleHint::Active)
    } else if upper == "ERROR"@ {
        ("✗"@, RowStyleHint::Error)
    } else if upper == "DOWN"@ {
        ("○"@, RowStyleHint::Disabled)
    } else {
        ("?"@, RowStyleHint::Normal)
    }
}

/// Icon and style for an already upper-cased status.
pub fn fip_status_for_upper(upper: &str) -> (r: (&'static str, RowStyleHint))
    ensures
        (r.0@, r.1) == fip_status_spec(upper@),
{
    if crate::text::str_eq(upper, "ACTIVE") {
        ("●", RowStyleHint::Active)
    } else if crate::text::str_eq(upper, "ERROR") {
        ("✗", RowStyleHint::Error)
    } else if crate::text::str_eq(upper, "DOWN") {
        ("○", RowStyleHint::Disabled)
    } else {
        ("?", RowStyleHint::Normal)
    }
}

/// Icon and style of a floating IP status, compared case-insensitively.
pub fn fip_status_display(status: &str) -> (r: (&'static str, RowStyleHint))
    ensures
        (r.0@, r.1) == fip_status_spec(uppercase_of(status@)),
{
    let upper = to_upper(status);
    fip_status_for_upper(upper.as_str())
}

/// The row of a floating IP: address, status with icon, fixed address
/// (or `-`), external network.
pub open spec fn fip_row_spec(fip: FloatingIp) -> RowView {
    let (icon, style) = fip_status_spec(uppercase_of(fip.status@));
    RowView {
        id: fip.id@,
        cells: seq![
            fip.floating_ip_address@,
            icon + " "@ + fip.status@,
            opt_or(fip.fixed_ip_address, "-"@),
            fip.floating_network_id@,
        ],
        style_hint: Some(style),
    }
}

/// The table row of a floating IP.
pub fn fip_to_row(fip: &FloatingIp) -> (r: Row)
    ensures
        r@ == fip_row_spec(*fip),
{
    let (icon, style) = fip_status_display(fip.status.as_str());
    let cells = vec![
        fip.floating_ip_address.clone(),
        cat3(icon, " ", fip.status.as_str()),
        opt_str_or(&fip.fixed_ip_address, "-"),
        fip.floating_network_id.clone(),
    ];
    let r = Row { id: fip.id.clone(), cells, style_hint: Some(style) };
    proof {
        assert(r@.cells =~= fip_row_spec(*fip).cells);
    }
    r
}

/// The allocation form: a required external-network dropdown whose options
/// are filled in later.
pub fn fip_create_defs() -> (r: Vec<FieldDef>)
    ensures
        field_specs(r@) == seq![dropdown_spec("External Network"@, Seq::empty(), true)],
{
    let options: Vec<String> = Vec::new();
    proof {
        assert(crate::text::strs_view(options@) =~= Seq::<Seq<char>>::empty());
    }
    let r = vec![FieldDef::dropdown("External Network", options, true)];
    proof {
        assert(field_specs(r@) =~= seq![dropdown_spec("External Network"@, Seq::empty(), true)]);
    }
    r
}

/// The floating IP table's columns.
pub open spec fn fip_columns_spec() -> Seq<ColumnView> {
    seq![
        column("IP Address"@, ColumnWidth::Percent(20), ColumnAlign::Left),
        column("Status"@, ColumnWidth::Fixed(10), ColumnAlign::Left),
        column("Fixed IP"@, ColumnWidth::Percent(20), ColumnAlign::Left),
        column("Network ID"@, ColumnWidth::Percent(30), ColumnAlign::Left),
    ]
}

/// The columns of the floating IP table.
pub fn fip_columns() -> (r: Vec<ColumnDef>)
    ensures
        columns_view(r@) == fip_columns_spec(),
{
    let mut r: Vec<ColumnDef> = Vec::new();
    push_column(&mut r, "IP Address", ColumnWidth::Percent(20), ColumnAlign::Left);
    push_column(&mut r, "Status", ColumnWidth::Fixed(10), ColumnAlign::Left);
    push_column(&mut r, "Fixed IP", ColumnWidth::Percent(20), ColumnAlign::Left);
    push_column(&mut r, "Network ID", ColumnWidth::Percent(30), ColumnAlign::Left);
    r
}

/// Every floating IP row has one cell per column of the table it is made for.
pub proof fn lemma_floating_ip_row_fits_columns(fip: FloatingIp)
    ensures
        fip_row_spec(fip).cells.len() == fip_columns_spec().len(),
{
}

/// A floating IP's row reads its address first, its fixed address or `-`
/// third and its external network last.
pub proof fn lemma_fip_row_cells(fip: FloatingIp)
    ensures
        fip_row_spec(fip).cells.len() == 4,
        fip_row_spec(fip).id == fip.id@,
        fip_row_spec(fip).cells[0] == fip.floating_ip_address@,
        fip.fixed_ip_address matches Some(a) ==> fip_row_spec(fip).cells[2] == a@,
        fip.fixed_ip_address is None ==> fip_row_spec(fip).cells[2] == "-"@,
        fip_row_spec(fip).cells[3] == fip.floating_network_id@,
{
}

} // verus!
