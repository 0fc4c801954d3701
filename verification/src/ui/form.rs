//! Form field definitions, submitted form values and dropdown options.
use vstd::prelude::*;
use crate::text::{parse_u16, parse_u32, parse_unsigned_spec, str_eq, strs_view};

verus! {

/// A rule a form field is checked against on submit.
#[derive(Debug, Clone, Copy, PartialEq, Eq, Structural)]
pub enum Validation {
    Required,
}

/// The kind of a form field.
#[derive(Debug, Clone, Copy, PartialEq, Eq, Structural)]
pub enum FieldKind {
    Text,
    Dropdown,
    Checkbox,
}

/// A form field definition.
#[derive(Debug, PartialEq)]
pub enum FieldDef {
    Text { name: String, validations: Vec<Validation> },
    Dropdown { name: String, options: Vec<SelectOption>, validations: Vec<Validation> },
    Checkbox { name: String },
}

/// What a field definition describes: its kind, its name, whether it is
/// required, and its dropdown options (empty for other kinds).
pub struct FieldSpec {
    pub kind: FieldKind,
    pub name: Seq<char>,
    pub required: bool,
    pub options: Seq<Seq<char>>,
}

/// The validations of a field that is required, or of one that is not.
pub open spec fn required_validations(required: bool) -> Seq<Validation> {
    if required { seq![Validation::Required] } else { Seq::empty() }
}

impl FieldDef {
    /// What this definition describes.
    pub open spec fn spec(&self) -> FieldSpec {
        match self {
            FieldDef::Text { name, validations } => FieldSpec {
                kind: FieldKind::Text,
                name: name@,
                required: validations@.contains(Validation::Required),
                options: Seq::empty(),
            },
            FieldDef::Dropdown { name, options, validations } => FieldSpec {
                kind: FieldKind::Dropdown,
                name: name@,
                required: validations@.contains(Validation::Required),
                options: option_values(options@),
            },
            FieldDef::Checkbox { name } => FieldSpec {
                kind: FieldKind::Checkbox,
                name: name@,
                required: false,
                options: Seq::empty(),
            },
        }
    }

    fn validations_for(required: bool) -> (v: Vec<Validation>)
        ensures
            v@ == required_validations(required),
            v@.contains(Validation::Required) == required,
    {
        let mut v = Vec::new();
        if required {
            v.push(Validation::Required);
            assert(v@[0] == Validation::Required);
        }
        v
    }

    /// A free-text field.
    pub fn text(name: &str, required: bool) -> (f: Self)
        ensures
            f.spec() == (FieldSpec {
                kind: FieldKind::Text,
                name: name@,
                required,
                options: Seq::empty(),
            }),
    {
        FieldDef::Text { name: String::from_str(name), validations: Self::validations_for(required) }
    }

    /// A dropdown field with the given options, each shown as its value.
    pub fn dropdown(name: &str, options: Vec<String>, required: bool) -> (f: Self)
        ensures
            f.spec() == (FieldSpec {
                kind: FieldKind::Dropdown,
                name: name@,
                required,
                options: strs_view(options@),
            }),
    {
        let mut opts: Vec<SelectOption> = Vec::new();
        let mut i: usize = 0;
        while i < options.len()
            invariant
                i <= options@.len(),
                option_values(opts@) == strs_view(options@.take(i as int)),
            decreases options@.len() - i,
        {
            let ghost before = opts@;
            opts.push(SelectOption::new(options[i].as_str(), options[i].as_str()));
            proof {
                assert(option_values(opts@) =~= option_values(before).push(options@[i as int]@));
                assert(strs_view(options@.take(i + 1)) =~= strs_view(options@.take(i as int)).push(options@[i as int]@));
            }
            i = i + 1;
        }
        proof {
            assert(options@.take(options@.len() as int) =~= options@);
        }
        FieldDef::Dropdown {
            name: String::from_str(name),
            options: opts,
            validations: Self::validations_for(required),
        }
    }

    /// A checkbox field.
    pub fn checkbox(name: &str) -> (f: Self)
        ensures
            f.spec() == (FieldSpec {
                kind: FieldKind::Checkbox,
                name: name@,
                required: false,
                options: Seq::empty(),
            }),
    {
        FieldDef::Checkbox { name: String::from_str(name) }
    }

    /// The field's name.
    pub fn name(&self) -> (r: &str)
        ensures
            r@ == self.spec().name,
    {
        match self {
            FieldDef::Text { name, .. } => name.as_str(),
            FieldDef::Dropdown { name, .. } => name.as_str(),
            FieldDef::Checkbox { name } => name.as_str(),
        }
    }

    /// The field's validations.
    pub fn validations(&self) -> (r: Vec<Validation>)
        ensures
            r@.contains(Validation::Required) == self.spec().required,
    {
        match self {
            FieldDef::Text { validations, .. } => validations.clone(),
            FieldDef::Dropdown { validations, .. } => validations.clone(),
            FieldDef::Checkbox { .. } => Vec::new(),
        }
    }
}

/// Descriptions of a list of field definitions.
pub open spec fn field_specs(defs: Seq<FieldDef>) -> Seq<FieldSpec> {
    defs.map_values(|d: FieldDef| d.spec())
}

/// A field description, built for contracts.
pub open spec fn text_spec(name: Seq<char>, required: bool) -> FieldSpec {
    FieldSpec { kind: FieldKind::Text, name, required, options: Seq::empty() }
}

/// A dropdown description, built for contracts.
pub open spec fn dropdown_spec(name: Seq<char>, options: Seq<Seq<char>>, required: bool) -> FieldSpec {
    FieldSpec { kind: FieldKind::Dropdown, name, required, options }
}

/// A checkbox description, built for contracts.
pub open spec fn checkbox_spec(name: Seq<char>) -> FieldSpec {
    FieldSpec { kind: FieldKind::Checkbox, name, required: false, options: Seq::empty() }
}

/// A simple form field (label, required flag, checkbox or text).
#[derive(Debug, PartialEq)]
pub struct FormField {
    pub label: String,
    pub required: bool,
    pub is_checkbox: bool,
}

impl FormField {
    /// A text field.
    pub fn text(label: &str, required: bool) -> (f: Self)
        ensures
            f.label@ == label@,
            f.required == required,
            !f.is_checkbox,
    {
        FormField { label: String::from_str(label), required, is_checkbox: false }
    }

    /// A checkbox (never required).
    pub fn checkbox(label: &str) -> (f: Self)
        ensures
            f.label@ == label@,
            !f.required,
            f.is_checkbox,
    {
        FormField { label: String::from_str(label), required: false, is_checkbox: true }
    }
}

/// A value submitted for a form field.
#[derive(Debug, PartialEq)]
pub enum FormValue {
    Text(String),
    Selected(String),
    Bool(bool),
}

/// What a form made of a key: submitted with its values, cancelled, or
/// nothing yet.
#[derive(Debug, PartialEq)]
pub enum FormAction {
    Submit(Vec<(String, FormValue)>),
    Cancel,
    Pending,
}

/// The options of a dropdown field (none for other fields).
pub open spec fn dropdown_opts(f: FieldDef) -> Seq<SelectOption> {
    match f {
        FieldDef::Dropdown { options, .. } => options@,
        _ => Seq::empty(),
    }
}

/// A dropdown option: the submitted value and the shown text.
#[derive(Debug, PartialEq)]
pub struct SelectOption {
    pub value: String,
    pub display: String,
}

impl Clone for SelectOption {
    fn clone(&self) -> (r: Self)
        ensures
            r == *self,
    {
        SelectOption { value: self.value.clone(), display: self.display.clone() }
    }
}

impl SelectOption {
    /// An option with the given value and display text.
    pub fn new(value: &str, display: &str) -> (r: Self)
        ensures
            r.value@ == value@,
            r.display@ == display@,
    {
        SelectOption { value: String::from_str(value), display: String::from_str(display) }
    }
}

/// The submitted values of a list of options.
pub open spec fn option_values(opts: Seq<SelectOption>) -> Seq<Seq<char>> {
    opts.map_values(|o: SelectOption| o.value@)
}

/// The value submitted for the field named `name`: the first entry with
/// that name.
pub open spec fn form_lookup(values: Seq<(String, FormValue)>, name: Seq<char>) -> Option<FormValue>
    decreases values.len(),
{
    if values.len() == 0 {
        None
    } else if values[0].0@ == name {
        Some(values[0].1)
    } else {
        form_lookup(values.drop_first(), name)
    }
}

/// The text of a submitted text value.
pub open spec fn as_text(v: Option<FormValue>) -> Option<Seq<char>> {
    match v {
        Some(FormValue::Text(s)) => Some(s@),
        _ => None,
    }
}

/// The choice of a submitted dropdown value.
pub open spec fn as_selected(v: Option<FormValue>) -> Option<Seq<char>> {
    match v {
        Some(FormValue::Selected(s)) => Some(s@),
        _ => None,
    }
}

/// The state of a submitted checkbox value.
pub open spec fn as_bool(v: Option<FormValue>) -> Option<bool> {
    match v {
        Some(FormValue::Bool(b)) => Some(b),
        _ => None,
    }
}

/// The number a submitted text value denotes, when it is one no larger
/// than `max`.
pub open spec fn as_number(v: Option<FormValue>, max: nat) -> Option<nat> {
    match v {
        Some(FormValue::Text(s)) => parse_unsigned_spec(s@, max),
        _ => None,
    }
}

/// The value submitted for a field.
pub fn find_value<'a>(values: &'a Vec<(String, FormValue)>, name: &str) -> (r: Option<&'a FormValue>)
    ensures
        match r {
            Some(v) => form_lookup(values@, name@) == Some(*v),
            None => form_lookup(values@, name@) is None,
        },
{
    let n = values.len();
    let mut j: usize = 0;
    proof {
        assert(values@.skip(0) =~= values@);
    }
    while j < n
        invariant
            n == values@.len(),
            j <= n,
            form_lookup(values@, name@) == form_lookup(values@.skip(j as int), name@),
        decreases n - j,
    {
        let ghost rest = values@.skip(j as int);
        proof {
            assert(rest[0] == values@[j as int]);
            assert(rest.drop_first() =~= values@.skip(j + 1));
        }
        if str_eq(values[j].0.as_str(), name) {
            return Some(&values[j].1);
        }
        j = j + 1;
    }
    None
}

/// The text submitted for a text field.
pub fn text_field(values: &Vec<(String, FormValue)>, name: &str) -> (r: Option<String>)
    ensures
        match r {
            Some(s) => as_text(form_lookup(values@, name@)) == Some(s@),
            None => as_text(form_lookup(values@, name@)) is None,
        },
{
    match find_value(values, name) {
        Some(FormValue::Text(s)) => Some(s.clone()),
        _ => None,
    }
}

/// The choice submitted for a dropdown field.
pub fn selected_field(values: &Vec<(String, FormValue)>, name: &str) -> (r: Option<String>)
    ensures
        match r {
            Some(s) => as_selected(form_lookup(values@, name@)) == Some(s@),
            None => as_selected(form_lookup(values@, name@)) is None,
        },
{
    match find_value(values, name) {
        Some(FormValue::Selected(s)) => Some(s.clone()),
        _ => None,
    }
}

/// The state submitted for a checkbox field.
pub fn bool_field(values: &Vec<(String, FormValue)>, name: &str) -> (r: Option<bool>)
    ensures
        r == as_bool(form_lookup(values@, name@)),
{
    match find_value(values, name) {
        Some(FormValue::Bool(b)) => Some(*b),
        _ => None,
    }
}

/// The `u32` a text field holds, when it holds one.
pub fn u32_field(values: &Vec<(String, FormValue)>, name: &str) -> (r: Option<u32>)
    ensures
        match r {
            Some(v) => as_number(form_lookup(values@, name@), u32::MAX as nat) == Some(v as nat),
            None => as_number(form_lookup(values@, name@), u32::MAX as nat) is None,
        },
{
    match find_value(values, name) {
        Some(FormValue::Text(s)) => parse_u32(s.as_str()),
        _ => None,
    }
}

/// The `u16` a text field holds, when it holds one.
pub fn u16_field(values: &Vec<(String, FormValue)>, name: &str) -> (r: Option<u16>)
    ensures
        match r {
            Some(v) => as_number(form_lookup(values@, name@), u16::MAX as nat) == Some(v as nat),
            None => as_number(form_lookup(values@, name@), u16::MAX as nat) is None,
        },
{
    match find_value(values, name) {
        Some(FormValue::Text(s)) => parse_u16(s.as_str()),
        _ => None,
    }
}

/// `g` is `f` with its options replaced by `options` when `f` is a
/// dropdown named `name`, and `f` itself otherwise.
pub open spec fn options_replaced(f: FieldDef, g: FieldDef, name: Seq<char>, options: Seq<SelectOption>) -> bool {
    match f {
        FieldDef::Dropdown { name: n, options: _, validations: v } => if n@ == name {
            g matches FieldDef::Dropdown { name: n2, options: o2, validations: v2 } && n2 == n && v2 == v && o2@
                == options
        } else {
            g == f
        },
        _ => g == f,
    }
}

/// An open form: its title and field definitions.
pub struct FormWidget {
    pub title: String,
    pub fields: Vec<FieldDef>,
}

impl FormWidget {
    /// A form with the given title and fields.
    pub fn new(title: &str, fields: Vec<FieldDef>) -> (r: Self)
        ensures
            r.title@ == title@,
            r.fields@ == fields@,
    {
        FormWidget { title: String::from_str(title), fields }
    }

    /// Number of fields.
    pub fn field_count(&self) -> (r: usize)
        ensures
            r == self.fields@.len(),
    {
        self.fields.len()
    }

    /// The field definitions, in order.
    pub fn fields(&self) -> (r: &[FieldDef])
        ensures
            r@ == self.fields@,
    {
        self.fields.as_slice()
    }

    /// Give every dropdown named `name` the options `options`; other
    /// fields are left as they are.
    pub fn set_field_options(&mut self, name: &str, options: Vec<SelectOption>)
        ensures
            final(self).title == old(self).title,
            final(self).fields@.len() == old(self).fields@.len(),
            forall|i: int| 0 <= i < old(self).fields@.len() ==> options_replaced(
                old(self).fields@[i],
                #[trigger] final(self).fields@[i],
                name@,
                options@,
            ),
    {
        let n = self.fields.len();
        let mut i: usize = 0;
        while i < n
            invariant
                n == old(self).fields@.len(),
                i <= n,
                self.title == old(self).title,
                self.fields@.len() == n,
                forall|j: int| 0 <= j < i ==> options_replaced(old(self).fields@[j], #[trigger] self.fields@[j], name@, options@),
                forall|j: int| i <= j < n ==> #[trigger] self.fields@[j] == old(self).fields@[j],
            decreases n - i,
        {
            let is_target = match &self.fields[i] {
                FieldDef::Dropdown { name: field_name, .. } => str_eq(field_name.as_str(), name),
                _ => false,
            };
            if is_target {
                let copy = options.clone();
                proof {
                    assert forall|k: int| 0 <= k < options@.len() implies copy@[k] == options@[k] by {
                        assert(cloned(options@[k], copy@[k]));
                    }
                    assert(copy@ =~= options@);
                }
                let old_field = self.fields.remove(i);
                let replaced = match old_field {
                    FieldDef::Dropdown { name: field_name, validations, .. } => FieldDef::Dropdown {
                        name: field_name,
                        options: copy,
                        validations,
                    },
                    other => other,
                };
                let ghost before = self.fields@;
                self.fields.insert(i, replaced);
                proof {
                    assert forall|j: int| 0 <= j < i + 1 implies options_replaced(old(self).fields@[j], #[trigger] self.fields@[j], name@, options@) by {
                        if j < i {
                            assert(self.fields@[j] == before[j]);
                        }
                    }
                }
            }
            i = i + 1;
        }
    }
}

/// Whether the open form `b` is `a` with its dropdown `name` given
/// `options` (no form stays no form).
pub open spec fn form_options_step(a: Option<FormWidget>, b: Option<FormWidget>, name: Seq<char>, options: Seq<SelectOption>) -> bool {
    match a {
        None => b is None,
        Some(f) => b matches Some(g) && g.title == f.title && g.fields@.len() == f.fields@.len() && forall|i: int|
            0 <= i < f.fields@.len() ==> options_replaced(f.fields@[i], #[trigger] g.fields@[i], name, options),
    }
}

/// Give the dropdown `name` of the open form, if any, the options `opts`.
pub(crate) fn set_open_form_options(form: &mut Option<FormWidget>, name: &str, opts: &Vec<SelectOption>)
    ensures
        form_options_step(*old(form), *final(form), name@, opts@),
{
    let copy = opts.clone();
    proof {
        assert forall|i: int| 0 <= i < opts@.len() implies copy@[i] == opts@[i] by {
            assert(cloned(opts@[i], copy@[i]));
        }
        assert(copy@ =~= opts@);
    }
    let mut slot: Option<FormWidget> = None;
    std::mem::swap(&mut slot, form);
    match slot {
        Some(mut f) => {
            f.set_field_options(name, copy);
            *form = Some(f);
        },
        None => {},
    }
}

/// Give the dropdown at `k` (the only field named `name`) the options
/// `opts`, unless there are none.
pub(crate) fn apply_options(form: &mut FormWidget, Ghost(k): Ghost<int>, name: &str, opts: &Vec<SelectOption>)
    requires
        0 <= k < old(form).fields@.len(),
        old(form).fields@[k].spec().kind == FieldKind::Dropdown,
        old(form).fields@[k].spec().name == name@,
        forall|j: int| 0 <= j < old(form).fields@.len() && j != k ==> (#[trigger] old(form).fields@[j]).spec().name != name@,
    ensures
        final(form).title == old(form).title,
        final(form).fields@.len() == old(form).fields@.len(),
        forall|j: int| 0 <= j < old(form).fields@.len() && j != k ==> #[trigger] final(form).fields@[j] == old(form).fields@[j],
        opts@.len() > 0 ==> {
            &&& final(form).fields@[k].spec() == (FieldSpec {
                options: option_values(opts@),
                ..old(form).fields@[k].spec()
            })
            &&& dropdown_opts(final(form).fields@[k]) == opts@
        },
        opts@.len() == 0 ==> final(form).fields@[k] == old(form).fields@[k],
{
    if opts.len() > 0 {
        let copy = opts.clone();
        proof {
            assert forall|i: int| 0 <= i < opts@.len() implies copy@[i] == opts@[i] by {
                assert(cloned(opts@[i], copy@[i]));
            }
            assert(copy@ =~= opts@);
        }
        form.set_field_options(name, copy);
        proof {
            assert(options_replaced(old(form).fields@[k], form.fields@[k], name@, opts@));
            assert forall|j: int| 0 <= j < old(form).fields@.len() && j != k implies #[trigger] form.fields@[j] == old(form).fields@[j] by {
                assert(options_replaced(old(form).fields@[j], form.fields@[j], name@, opts@));
            }
        }
    }
}

} // verus!
