//! User rows and form.
use vstd::prelude::*;
use crate::models::keystone::User;
use crate::module::flavor::view_model::{check_icon, check_icon_str};
use crate::module::project::view_model::enabled_style;
use crate::text::{opt_or, opt_str_or};
use crate::ui::form::{checkbox_spec, field_specs, text_spec, FieldDef};
use crate::ui::resource_list::{column, columns_view, push_column, ColumnAlign, ColumnDef, ColumnView, ColumnWidth, Row, RowStyleHint, RowView};

verus! {

/// The row of a user: name, email or `-`, enabled icon, domain or `-`.
pub open spec fn user_row_spec(u: User) -> RowView {
    RowView {
        id: u.id@,
        cells: seq![u.name@, opt_or(u.email, "-"@), check_icon(u.enabled), opt_or(u.domain_id, "-"@)],
        style_hint: Some(enabled_style(u.enabled)),
    }
}

/// The table row of a user.
pub fn user_to_row(user: &User) -> (r: Row)
    ensures
        r@ == user_row_spec(*user),
{
    let style = if user.enabled { RowStyleHint::Normal } else { RowStyleHint::Disabled };
    let r = Row {
        id: user.id.clone(),
        cells: vec![
            user.name.clone(),
            opt_str_or(&user.email, "-"),
            String::from_str(check_icon_str(user.enabled)),
            opt_str_or(&user.domain_id, "-"),
        ],
        style_hint: Some(style),
    };
    proof {
        assert(r@.cells =~= user_row_spec(*user).cells);
    }
    r
}

/// The user form: required username and password, optional email,
/// required domain, an enabled box.
pub fn user_create_defs() -> (r: Vec<FieldDef>)
    ensures
        field_specs(r@) == seq![
            text_spec("Username"@, true),
            text_spec("Password"@, true),
            text_spec("Email"@, false),
            text_spec("Domain ID"@, true),
            checkbox_spec("Enabled"@),
        ],
{
    let r = vec![
        FieldDef::text("Username", true),
        FieldDef::text("Password", true),
        FieldDef::text("Email", false),
        FieldDef::text("Domain ID", true),
        FieldDef::checkbox("Enabled"),
    ];
    proof {
        assert(field_specs(r@) =~= seq![
            text_spec("Username"@, true),
            text_spec("Password"@, true),
            text_spec("Email"@, false),
            text_spec("Domain ID"@, true),
            checkbox_spec("Enabled"@),
        ]);
    }
    r
}

/// The user table's columns.
pub open spec fn user_columns_spec() -> Seq<ColumnView> {
    seq![
        column("Name"@, ColumnWidth::Percent(20), ColumnAlign::Left),
        column("Email"@, ColumnWidth::Percent(25), ColumnAlign::Left),
        column("Enabled"@, ColumnWidth::Fixed(9), ColumnAlign::Center),
        column("Domain ID"@, ColumnWidth::Percent(20), ColumnAlign::Left),
    ]
}

/// The columns of the user table.
pub fn user_columns() -> (r: Vec<ColumnDef>)
    ensures
        columns_view(r@) == user_columns_spec(),
{
    let mut r: Vec<ColumnDef> = Vec::new();
    push_column(&mut r, "Name", ColumnWidth::Percent(20), ColumnAlign::Left);
    push_column(&mut r, "Email", ColumnWidth::Percent(25), ColumnAlign::Left);
    push_column(&mut r, "Enabled", ColumnWidth::Fixed(9), ColumnAlign::Center);
    push_column(&mut r, "Domain ID", ColumnWidth::Percent(20), ColumnAlign::Left);
    r
}

/// Every user row has one cell per column of the table it is made for.
pub proof fn lemma_user_row_fits_columns(u: User)
    ensures
        user_row_spec(u).cells.len() == user_columns_spec().len(),
{
}

/// A user's row reads its name, its email or `-`, `✓` exactly when the
/// user is enabled, and its domain or `-`; a disabled user's row is
/// dimmed.
pub proof fn lemma_user_row_cells(u: User)
    ensures
        user_row_spec(u).cells.len() == 4,
        user_row_spec(u).cells[0] == u.name@,
        u.email matches Some(e) ==> user_row_spec(u).cells[1] == e@,
        u.email is None ==> user_row_spec(u).cells[1] == "-"@,
        user_row_spec(u).cells[2] == (if u.enabled { "✓"@ } else { "✗"@ }),
        u.domain_id matches Some(d) ==> user_row_spec(u).cells[3] == d@,
        u.domain_id is None ==> user_row_spec(u).cells[3] == "-"@,
        user_row_spec(u).style_hint == Some(if u.enabled { RowStyleHint::Normal } else { RowStyleHint::Disabled }),
{
}

} // verus!
