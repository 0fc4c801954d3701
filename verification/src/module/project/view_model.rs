//! Project rows, detail screen and form.
use vstd::prelude::*;
use crate::models::keystone::Project;
use crate::module::flavor::view_model::{check_icon, check_icon_str};
use crate::text::{bool_str, bool_text, opt_or, opt_str_or, opt_view};
use crate::ui::detail_view::{fields_view, kv, opt_kv, push_kv, push_opt_kv, section, sections_view, DetailData, DetailDataView, DetailField, DetailSection, SectionView};
use crate::ui::form::{checkbox_spec, field_specs, text_spec, FieldDef, FormField};
use crate::ui::resource_list::{column, columns_view, push_column, ColumnAlign, ColumnDef, ColumnView, ColumnWidth, Row, RowStyleHint, RowView};

verus! {

/// `Normal` for an enabled record, `Disabled` otherwise.
pub open spec fn enabled_style(enabled: bool) -> RowStyleHint {
    if enabled { RowStyleHint::Normal } else { RowStyleHint::Disabled }
}

/// The row of a project: name, ID, enabled icon, description or `-`.
pub open spec fn project_row_spec(p: Project) -> RowView {
    RowView {
        id: p.id@,
        cells: seq![p.name@, p.id@, check_icon(p.enabled), opt_or(p.description, "-"@)],
        style_hint: Some(enabled_style(p.enabled)),
    }
}

/// The table row of a project.
pub fn project_to_row(proj: &Project) -> (r: Row)
    ensures
        r@ == project_row_spec(*proj),
{
    let style = if proj.enabled { RowStyleHint::Normal } else { RowStyleHint::Disabled };
    let r = Row {
        id: proj.id.clone(),
        cells: vec![
            proj.name.clone(),
            proj.id.clone(),
            String::from_str(check_icon_str(proj.enabled)),
            opt_str_or(&proj.description, "-"),
        ],
        style_hint: Some(style),
    };
    proof {
        assert(r@.cells =~= project_row_spec(*proj).cells);
    }
    r
}

/// The detail screen of a project: one section with ID, name, enabled
/// flag, and description and domain when present.
pub open spec fn project_detail_spec(p: Project) -> DetailDataView {
    DetailDataView {
        title: "Project: "@ + p.name@,
        sections: seq![
            SectionView {
                name: "Basic Info"@,
                fields: seq![
                    kv("ID"@, p.id@, None),
                    kv("Name"@, p.name@, None),
                    kv("Enabled"@, bool_text(p.enabled), None),
                ] + opt_kv("Description"@, opt_view(p.description)) + opt_kv(
                    "Domain ID"@,
                    opt_view(p.domain_id),
                ),
            },
        ],
    }
}

/// The detail screen of a project.
pub fn project_detail_data(proj: &Project) -> (r: DetailData)
    ensures
        r@ == project_detail_spec(*proj),
{
    let mut fields: Vec<DetailField> = Vec::new();
    push_kv(&mut fields, "ID", proj.id.clone(), None);
    push_kv(&mut fields, "Name", proj.name.clone(), None);
    push_kv(&mut fields, "Enabled", String::from_str(bool_str(proj.enabled)), None);
    push_opt_kv(&mut fields, "Description", &proj.description);
    push_opt_kv(&mut fields, "Domain ID", &proj.domain_id);
    proof {
        assert(fields_view(fields@) =~= project_detail_spec(*proj).sections[0].fields);
    }
    let mut title = String::from_str("Project: ");
    title.append(proj.name.as_str());
    let r = DetailData { title, sections: vec![section("Basic Info", fields)] };
    proof {
        assert(sections_view(r.sections@) =~= project_detail_spec(*proj).sections);
    }
    r
}

/// The project form: required name, optional description, required
/// domain, an enabled box.
pub fn project_create_form() -> (r: Vec<FormField>)
    ensures
        r@.len() == 4,
        r@[0].label@ == "Name"@ && r@[0].required && !r@[0].is_checkbox,
        r@[1].label@ == "Description"@ && !r@[1].required && !r@[1].is_checkbox,
        r@[2].label@ == "Domain ID"@ && r@[2].required && !r@[2].is_checkbox,
        r@[3].label@ == "Enabled"@ && !r@[3].required && r@[3].is_checkbox,
{
    vec![
        FormField::text("Name", true),
        FormField::text("Description", false),
        FormField::text("Domain ID", true),
        FormField::checkbox("Enabled"),
    ]
}

/// The create form's fields: name and domain ID (both required), a
/// description, and whether the project is enabled.
pub fn project_create_defs() -> (r: Vec<FieldDef>)
    ensures
        field_specs(r@) == seq![
            text_spec("Name"@, true),
            text_spec("Description"@, false),
            text_spec("Domain ID"@, true),
            checkbox_spec("Enabled"@),
        ],
{
    let r = vec![
        FieldDef::text("Name", true),
        FieldDef::text("Description", false),
        FieldDef::text("Domain ID", true),
        FieldDef::checkbox("Enabled"),
    ];
    proof {
        assert(field_specs(r@) =~= seq![
            text_spec("Name"@, true),
            text_spec("Description"@, false),
            text_spec("Domain ID"@, true),
            checkbox_spec("Enabled"@),
        ]);
    }
    r
}

/// The project table's columns.
pub open spec fn project_columns_spec() -> Seq<ColumnView> {
    seq![
        column("Name"@, ColumnWidth::Percent(25), ColumnAlign::Left),
        column("ID"@, ColumnWidth::Percent(30), ColumnAlign::Left),
        column("Enabled"@, ColumnWidth::Fixed(9), ColumnAlign::Center),
        column("Description"@, ColumnWidth::Percent(30), ColumnAlign::Left),
    ]
}

/// The columns of the project table.
pub fn project_columns() -> (r: Vec<ColumnDef>)
    ensures
        columns_view(r@) == project_columns_spec(),
{
    let mut r: Vec<ColumnDef> = Vec::new();
    push_column(&mut r, "Name", ColumnWidth::Percent(25), ColumnAlign::Left);
    push_column(&mut r, "ID", ColumnWidth::Percent(30), ColumnAlign::Left);
    push_column(&mut r, "Enabled", ColumnWidth::Fixed(9), ColumnAlign::Center);
    push_column(&mut r, "Description", ColumnWidth::Percent(30), ColumnAlign::Left);
    r
}

/// Every project row has one cell per column of the table it is made for.
pub proof fn lemma_project_row_fits_columns(p: Project)
    ensures
        project_row_spec(p).cells.len() == project_columns_spec().len(),
{
}

/// A project's row reads its name, its ID, `✓` exactly when it is
/// enabled, and its description or `-`; a disabled project's row is
/// dimmed.
pub proof fn lemma_project_row_cells(p: Project)
    ensures
        project_row_spec(p).cells.len() == 4,
        project_row_spec(p).cells[0] == p.name@,
        project_row_spec(p).cells[1] == p.id@,
        project_row_spec(p).cells[2] == (if p.enabled { "✓"@ } else { "✗"@ }),
        p.description matches Some(d) ==> project_row_spec(p).cells[3] == d@,
        p.description is None ==> project_row_spec(p).cells[3] == "-"@,
        project_row_spec(p).style_hint == Some(if p.enabled { RowStyleHint::Normal } else { RowStyleHint::Disabled }),
{
}

/// A project's detail screen reads its ID, its name and `Enabled` with
/// `true` exactly when it is enabled, then its description and its domain
/// when present.
pub proof fn lemma_project_detail_fields(p: Project)
    ensures
        ({
            let f = project_detail_spec(p).sections[0].fields;
            let k = 3 + (if p.description is Some { 1int } else { 0 });
            &&& f.len() == k + (if p.domain_id is Some { 1int } else { 0 })
            &&& f[0] == kv("ID"@, p.id@, None)
            &&& f[1] == kv("Name"@, p.name@, None)
            &&& f[2] == kv("Enabled"@, if p.enabled { "true"@ } else { "false"@ }, None)
            &&& p.description matches Some(d) ==> f[3] == kv("Description"@, d@, None)
            &&& p.domain_id matches Some(d) ==> f[k] == kv("Domain ID"@, d@, None)
        }),
{
    reveal_strlit("true");
    reveal_strlit("false");
    let base = seq![
        kv("ID"@, p.id@, None),
        kv("Name"@, p.name@, None),
        kv("Enabled"@, bool_text(p.enabled), None),
    ];
    let a = opt_kv("Description"@, opt_view(p.description));
    let b = opt_kv("Domain ID"@, opt_view(p.domain_id));
    let f = project_detail_spec(p).sections[0].fields;
    assert(f == base + a + b);
    assert((base + a)[0] == base[0] && (base + a)[1] == base[1] && (base + a)[2] == base[2]);
    assert(f[0] == base[0] && f[1] == base[1] && f[2] == base[2]);
    if p.description is Some {
        assert((base + a)[3] == a[0]);
        assert(f[3] == a[0]);
    }
    if p.domain_id is Some {
        assert(f[(base + a).len() as int] == b[0]);
    }
    assert(bool_text(p.enabled) =~= (if p.enabled { "true"@ } else { "false"@ }));
    assert(f.len() == 3 + a.len() + b.len());
    assert(a.len() == (if p.description is Some { 1int } else { 0 }));
    assert(b.len() == (if p.domain_id is Some { 1int } else { 0 }));
}

} // verus!
