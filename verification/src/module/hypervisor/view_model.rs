//! Hypervisor rows.
use vstd::prelude::*;
use crate::models::nova::Hypervisor;
use crate::module::compute_service::view_model::{up_down_style, up_down_style_of};
use crate::text::{dec, u64_text};
use crate::ui::resource_list::{column, columns_view, push_column, ColumnAlign, ColumnDef, ColumnView, ColumnWidth, Row, RowView};

verus! {

/// `used/total` in decimal.
pub open spec fn ratio_text(used: nat, total: nat) -> Seq<char> {
    dec(used) + "/"@ + dec(total)
}

/// `used/total` in decimal.
pub fn ratio(used: u32, total: u32) -> (r: String)
    ensures
        r@ == ratio_text(used as nat, total as nat),
{
    let mut s = u64_text(used as u64);
    s.append("/");
    let t = u64_text(total as u64);
    s.append(t.as_str());
    s
}

/// The row of a hypervisor: host name, state, status, vCPU and memory use,
/// running VMs.
pub open spec fn hypervisor_row_spec(hv: Hypervisor) -> RowView {
    RowView {
        id: hv.id@,
        cells: seq![
            hv.hypervisor_hostname@,
            hv.state@,
            hv.status@,
            ratio_text(hv.vcpus_used as nat, hv.vcpus as nat),
            ratio_text(hv.memory_mb_used as nat, hv.memory_mb as nat),
            dec(hv.running_vms as nat),
        ],
        style_hint: Some(up_down_style(hv.state@)),
    }
}

/// The table row of a hypervisor.
pub fn hypervisor_to_row(hv: &Hypervisor) -> (r: Row)
    ensures
        r@ == hypervisor_row_spec(*hv),
{
    let style = up_down_style_of(hv.state.as_str());
    let r = Row {
        id: hv.id.clone(),
        cells: vec![
            hv.hypervisor_hostname.clone(),
            hv.state.clone(),
            hv.status.clone(),
            ratio(hv.vcpus_used, hv.vcpus),
            ratio(hv.memory_mb_used, hv.memory_mb),
            u64_text(hv.running_vms as u64),
        ],
        style_hint: Some(style),
    };
    proof {
        assert(r@.cells =~= hypervisor_row_spec(*hv).cells);
    }
    r
}

/// The hypervisor table's columns.
pub open spec fn hypervisor_columns_spec() -> Seq<ColumnView> {
    seq![
        column("Hostname"@, ColumnWidth::Percent(20), ColumnAlign::Left),
        column("State"@, ColumnWidth::Fixed(8), ColumnAlign::Left),
        column("Status"@, ColumnWidth::Fixed(10), ColumnAlign::Left),
        column("vCPUs"@, ColumnWidth::Fixed(12), ColumnAlign::Right),
        column("RAM (MB)"@, ColumnWidth::Fixed(16), ColumnAlign::Right),
        column("VMs"@, ColumnWidth::Fixed(6), ColumnAlign::Right),
    ]
}

/// The columns of the hypervisor table.
pub fn hypervisor_columns() -> (r: Vec<ColumnDef>)
    ensures
        columns_view(r@) == hypervisor_columns_spec(),
{
    let mut r: Vec<ColumnDef> = Vec::new();
    push_column(&mut r, "Hostname", ColumnWidth::Percent(20), ColumnAlign::Left);
    push_column(&mut r, "State", ColumnWidth::Fixed(8), ColumnAlign::Left);
    push_column(&mut r, "Status", ColumnWidth::Fixed(10), ColumnAlign::Left);
    push_column(&mut r, "vCPUs", ColumnWidth::Fixed(12), ColumnAlign::Right);
    push_column(&mut r, "RAM (MB)", ColumnWidth::Fixed(16), ColumnAlign::Right);
    push_column(&mut r, "VMs", ColumnWidth::Fixed(6), ColumnAlign::Right);
    r
}

/// Every hypervisor row has one cell per column of the table it is made for.
pub proof fn lemma_hypervisor_row_fits_columns(hv: Hypervisor)
    ensures
        hypervisor_row_spec(hv).cells.len() == hypervisor_columns_spec().len(),
{
}

/// A hypervisor's row reads its host name, state and status, then vCPUs
/// and memory each as used over total (`used/total`), and the number of
/// running instances.
pub proof fn lemma_hypervisor_row_cells(hv: Hypervisor)
    ensures
        hypervisor_row_spec(hv).cells == seq![
            hv.hypervisor_hostname@,
            hv.state@,
            hv.status@,
            dec(hv.vcpus_used as nat) + "/"@ + dec(hv.vcpus as nat),
            dec(hv.memory_mb_used as nat) + "/"@ + dec(hv.memory_mb as nat),
            dec(hv.running_vms as nat),
        ],
{
}

} // verus!
