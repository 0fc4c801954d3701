//! Data of a resource's detail screen.
use vstd::prelude::*;
use crate::text::strs_view;
use crate::ui::resource_list::RowStyleHint;

verus! {

/// One entry of a detail section.
#[derive(Debug, PartialEq)]
pub enum DetailField {
    KeyValue { key: String, value: String, style: Option<RowStyleHint> },
    NestedTable { label: String, columns: Vec<String>, rows: Vec<Vec<String>> },
}

/// What a detail entry shows.
pub enum FieldView {
    KeyValue { key: Seq<char>, value: Seq<char>, style: Option<RowStyleHint> },
    NestedTable { label: Seq<char>, columns: Seq<Seq<char>>, rows: Seq<Seq<Seq<char>>> },
}

/// Views of a table of strings.
pub open spec fn table_view(rows: Seq<Vec<String>>) -> Seq<Seq<Seq<char>>> {
    rows.map_values(|r: Vec<String>| strs_view(r@))
}

impl View for DetailField {
    type V = FieldView;

    open spec fn view(&self) -> FieldView {
        match self {
            DetailField::KeyValue { key, value, style } => FieldView::KeyValue {
                key: key@,
                value: value@,
                style: *style,
            },
            DetailField::NestedTable { label, columns, rows } => FieldView::NestedTable {
                label: label@,
                columns: strs_view(columns@),
                rows: table_view(rows@),
            },
        }
    }
}

/// A key/value entry, built for contracts.
pub open spec fn kv(key: Seq<char>, value: Seq<char>, style: Option<RowStyleHint>) -> FieldView {
    FieldView::KeyValue { key, value, style }
}

/// A titled group of detail entries.
#[derive(Debug, PartialEq)]
pub struct DetailSection {
    pub name: String,
    pub fields: Vec<DetailField>,
}

/// What a detail section shows.
pub struct SectionView {
    pub name: Seq<char>,
    pub fields: Seq<FieldView>,
}

/// Views of detail entries.
pub open spec fn fields_view(fields: Seq<DetailField>) -> Seq<FieldView> {
    fields.map_values(|f: DetailField| f@)
}

impl View for DetailSection {
    type V = SectionView;

    open spec fn view(&self) -> SectionView {
        SectionView { name: self.name@, fields: fields_view(self.fields@) }
    }
}

/// The whole detail screen: a title and its sections.
#[derive(Debug, PartialEq)]
pub struct DetailData {
    pub title: String,
    pub sections: Vec<DetailSection>,
}

/// What a detail screen shows.
pub struct DetailDataView {
    pub title: Seq<char>,
    pub sections: Seq<SectionView>,
}

/// Views of detail sections.
pub open spec fn sections_view(sections: Seq<DetailSection>) -> Seq<SectionView> {
    sections.map_values(|s: DetailSection| s@)
}

impl View for DetailData {
    type V = DetailDataView;

    open spec fn view(&self) -> DetailDataView {
        DetailDataView { title: self.title@, sections: sections_view(self.sections@) }
    }
}

/// A key/value entry.
pub fn key_value(key: &str, value: String, style: Option<RowStyleHint>) -> (f: DetailField)
    ensures
        f@ == kv(key@, value@, style),
{
    DetailField::KeyValue { key: String::from_str(key), value, style }
}

} // verus!

verus! {

/// A key/value entry for an optional value: one entry when present, none
/// otherwise.
pub open spec fn opt_kv(key: Seq<char>, value: Option<Seq<char>>) -> Seq<FieldView> {
    match value {
        Some(v) => seq![kv(key, v, None)],
        None => Seq::empty(),
    }
}

/// Append a key/value entry for `value` when it is present.
pub fn push_opt_kv(fields: &mut Vec<DetailField>, key: &str, value: &Option<String>)
    ensures
        fields_view(final(fields)@) == fields_view(old(fields)@) + opt_kv(key@, crate::text::opt_view(*value)),
{
    let ghost before = fields@;
    match value {
        Some(v) => {
            fields.push(key_value(key, v.clone(), None));
            proof {
                assert(fields_view(fields@) =~= fields_view(before) + opt_kv(key@, crate::text::opt_view(*value)));
            }
        },
        None => {
            proof {
                assert(fields_view(fields@) =~= fields_view(before) + opt_kv(key@, crate::text::opt_view(*value)));
            }
        },
    }
}

/// Append a key/value entry.
pub fn push_kv(fields: &mut Vec<DetailField>, key: &str, value: String, style: Option<RowStyleHint>)
    ensures
        fields_view(final(fields)@) == fields_view(old(fields)@).push(kv(key@, value@, style)),
{
    let ghost before = fields@;
    fields.push(key_value(key, value, style));
    proof {
        assert(fields_view(fields@) =~= fields_view(before).push(kv(key@, value@, style)));
    }
}

/// A section with the given name and entries.
pub fn section(name: &str, fields: Vec<DetailField>) -> (s: DetailSection)
    ensures
        s@ == (SectionView { name: name@, fields: fields_view(fields@) }),
{
    DetailSection { name: String::from_str(name), fields }
}

/// Append a section.
pub fn push_section(sections: &mut Vec<DetailSection>, s: DetailSection)
    ensures
        sections_view(final(sections)@) == sections_view(old(sections)@).push(s@),
{
    let ghost before = sections@;
    sections.push(s);
    proof {
        assert(sections_view(sections@) =~= sections_view(before).push(s@));
    }
}

} // verus!
