//! Network agent rows.
use vstd::prelude::*;
use crate::models::neutron::NetworkAgent;
use crate::ui::resource_list::{column, columns_view, push_column, ColumnAlign, ColumnDef, ColumnView, ColumnWidth, Row, RowStyleHint, RowView};

verus! {

/// The row of a network agent: type, host, admin state, liveness icon and
/// binary; active when alive and enabled, an error when dead, disabled
/// otherwise.
pub open spec fn agent_row_spec(a: NetworkAgent) -> RowView {
    RowView {
        id: a.id@,
        cells: seq![
            a.agent_type@,
            a.host@,
            if a.admin_state_up { "Enabled"@ } else { "Disabled"@ },
            if a.alive { "✓"@ } else { "✗"@ },
            a.binary@,
        ],
        style_hint: Some(
            if a.alive && a.admin_state_up {
                RowStyleHint::Active
            } else if !a.alive {
                RowStyleHint::Error
            } else {
                RowStyleHint::Disabled
            },
        ),
    }
}

/// The table row of a network agent.
pub fn agent_to_row(agent: &NetworkAgent) -> (r: Row)
    ensures
        r@ == agent_row_spec(*agent),
{
    let admin_label = if agent.admin_state_up { "Enabled" } else { "Disabled" };
    let alive_icon = if agent.alive { "✓" } else { "✗" };
    let style = if agent.alive && agent.admin_state_up {
        RowStyleHint::Active
    } else if !agent.alive {
        RowStyleHint::Error
    } else {
        RowStyleHint::Disabled
    };
    let r = Row {
        id: agent.id.clone(),
        cells: vec![
            agent.agent_type.clone(),
            agent.host.clone(),
            String::from_str(admin_label),
            String::from_str(alive_icon),
            agent.binary.clone(),
        ],
        style_hint: Some(style),
    };
    proof {
        assert(r@.cells =~= agent_row_spec(*agent).cells);
    }
    r
}

/// The network agent table's columns.
pub open spec fn agent_columns_spec() -> Seq<ColumnView> {
    seq![
        column("Type"@, ColumnWidth::Percent(25), ColumnAlign::Left),
        column("Host"@, ColumnWidth::Percent(20), ColumnAlign::Left),
        column("Admin"@, ColumnWidth::Fixed(10), ColumnAlign::Center),
        column("Alive"@, ColumnWidth::Fixed(8), ColumnAlign::Center),
        column("Binary"@, ColumnWidth::Percent(20), ColumnAlign::Left),
    ]
}

/// The columns of the network agent table.
pub fn agent_columns() -> (r: Vec<ColumnDef>)
    ensures
        columns_view(r@) == agent_columns_spec(),
{
    let mut r: Vec<ColumnDef> = Vec::new();
    push_column(&mut r, "Type", ColumnWidth::Percent(25), ColumnAlign::Left);
    push_column(&mut r, "Host", ColumnWidth::Percent(20), ColumnAlign::Left);
    push_column(&mut r, "Admin", ColumnWidth::Fixed(10), ColumnAlign::Center);
    push_column(&mut r, "Alive", ColumnWidth::Fixed(8), ColumnAlign::Center);
    push_column(&mut r, "Binary", ColumnWidth::Percent(20), ColumnAlign::Left);
    r
}

/// Every network agent row has one cell per column of the table it is made for.
pub proof fn lemma_agent_row_fits_columns(a: NetworkAgent)
    ensures
        agent_row_spec(a).cells.len() == agent_columns_spec().len(),
{
}

/// An agent's row reads its type and host, `Enabled` or `Disabled` for its
/// admin state, `✓` exactly when it is alive, and its binary; a dead
/// agent's row shows as an error, a live disabled one as disabled.
pub proof fn lemma_agent_row_cells(a: NetworkAgent)
    ensures
        agent_row_spec(a).cells == seq![
            a.agent_type@,
            a.host@,
            if a.admin_state_up { "Enabled"@ } else { "Disabled"@ },
            if a.alive { "✓"@ } else { "✗"@ },
            a.binary@,
        ],
        !a.alive ==> agent_row_spec(a).style_hint == Some(RowStyleHint::Error),
        a.alive && a.admin_state_up ==> agent_row_spec(a).style_hint == Some(RowStyleHint::Active),
        a.alive && !a.admin_state_up ==> agent_row_spec(a).style_hint == Some(RowStyleHint::Disabled),
{
}

} // verus!
