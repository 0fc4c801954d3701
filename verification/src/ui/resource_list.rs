//! Table rows and the selection state of a resource table.
use vstd::prelude::*;
use crate::text::strs_view;
use crate::ui::key::Key;

verus! {

/// Colour class of a table row or value.
#[derive(Debug, Clone, Copy, PartialEq, Eq, Structural)]
pub enum RowStyleHint {
    Normal,
    Active,
    Warning,
    Error,
    Disabled,
}

/// One row of a resource table.
#[derive(Debug, PartialEq)]
pub struct Row {
    pub id: String,
    pub cells: Vec<String>,
    pub style_hint: Option<RowStyleHint>,
}

/// What a row shows.
pub struct RowView {
    pub id: Seq<char>,
    pub cells: Seq<Seq<char>>,
    pub style_hint: Option<RowStyleHint>,
}

impl View for Row {
    type V = RowView;

    open spec fn view(&self) -> RowView {
        RowView { id: self.id@, cells: strs_view(self.cells@), style_hint: self.style_hint }
    }
}

/// Views of a sequence of rows.
pub open spec fn rows_view(rows: Seq<Row>) -> Seq<RowView> {
    rows.map_values(|r: Row| r@)
}

/// How wide a column is: a fixed number of cells or a share of the table.
#[derive(Debug, Clone, Copy, PartialEq, Eq, Structural)]
pub enum ColumnWidth {
    Fixed(u16),
    Percent(u16),
}

/// Where a column's text sits.
#[derive(Debug, Clone, Copy, PartialEq, Eq, Structural)]
pub enum ColumnAlign {
    Left,
    Center,
    Right,
}

/// One column of a resource table: its heading, width and alignment.
#[derive(Debug)]
pub struct ColumnDef {
    pub name: String,
    pub width: ColumnWidth,
    pub alignment: ColumnAlign,
}

/// What a column is.
pub struct ColumnView {
    pub name: Seq<char>,
    pub width: ColumnWidth,
    pub alignment: ColumnAlign,
}

impl View for ColumnDef {
    type V = ColumnView;

    open spec fn view(&self) -> ColumnView {
        ColumnView { name: self.name@, width: self.width, alignment: self.alignment }
    }
}

/// Views of a sequence of columns.
pub open spec fn columns_view(cols: Seq<ColumnDef>) -> Seq<ColumnView> {
    cols.map_values(|c: ColumnDef| c@)
}

/// The column described by `name`, `width` and `alignment`.
pub open spec fn column(name: Seq<char>, width: ColumnWidth, alignment: ColumnAlign) -> ColumnView {
    ColumnView { name, width, alignment }
}

/// A column with heading `name`.
pub fn column_def(name: &str, width: ColumnWidth, alignment: ColumnAlign) -> (r: ColumnDef)
    ensures
        r@ == column(name@, width, alignment),
{
    ColumnDef { name: String::from_str(name), width, alignment }
}

/// Add a column with heading `name` at the end of `cols`.
pub fn push_column(cols: &mut Vec<ColumnDef>, name: &str, width: ColumnWidth, alignment: ColumnAlign)
    ensures
        columns_view(final(cols)@) == columns_view(old(cols)@).push(column(name@, width, alignment)),
{
    let c = column_def(name, width, alignment);
    cols.push(c);
    proof {
        assert(columns_view(cols@) =~= columns_view(old(cols)@).push(column(name@, width, alignment)));
    }
}

/// The rows of a resource table and the index of the selected one.
/// The selection stays inside the table whenever the table is not empty,
/// and is 0 when it is.
pub struct ResourceList {
    rows: Vec<Row>,
    selected: usize,
}

impl ResourceList {
    /// The selection lies on a row, or is 0 on an empty table.
    pub closed spec fn wf(&self) -> bool {
        if self.rows@.len() == 0 {
            self.selected == 0
        } else {
            self.selected < self.rows@.len()
        }
    }

    /// Views of the rows.
    pub closed spec fn rows_spec(&self) -> Seq<RowView> {
        rows_view(self.rows@)
    }

    /// Index of the selected row.
    pub closed spec fn selected_spec(&self) -> nat {
        self.selected as nat
    }

    /// Number of rows.
    pub closed spec fn len_spec(&self) -> nat {
        self.rows@.len()
    }

    /// An empty table.
    pub fn new() -> (r: Self)
        ensures
            r.rows_spec() == Seq::<RowView>::empty(),
            r.selected_spec() == 0,
            r.len_spec() == 0,
            r.inv(),
    {
        ResourceList { rows: Vec::new(), selected: 0 }
    }

    /// Well-formedness as seen from outside.
    pub closed spec fn inv(&self) -> bool {
        &&& self.wf()
        &&& self.rows_spec().len() == self.len_spec()
    }

    /// Replace the rows; the selection is kept where it still lies on a
    /// row, moved to the last row otherwise, and 0 on an empty table.
    pub fn set_rows(&mut self, rows: Vec<Row>)
        ensures
            final(self).rows_spec() == rows_view(rows@),
            final(self).len_spec() == rows@.len(),
            final(self).selected_spec() == kept_selection(old(self).selected_spec(), rows@.len()),
            final(self).inv(),
    {
        self.rows = rows;
        if self.rows.len() == 0 {
            self.selected = 0;
        } else if self.selected >= self.rows.len() {
            self.selected = self.rows.len() - 1;
        }
    }

    /// Index of the selected row.
    pub fn selected_index(&self) -> (r: usize)
        ensures
            r == self.selected_spec(),
    {
        self.selected
    }

    /// Number of rows.
    pub fn len(&self) -> (r: usize)
        ensures
            r == self.len_spec(),
    {
        self.rows.len()
    }

    /// The rows.
    pub fn rows(&self) -> (r: &Vec<Row>)
        ensures
            rows_view(r@) == self.rows_spec(),
            r@.len() == self.len_spec(),
    {
        &self.rows
    }

    /// Move the selection one row down, stopping at the last row.
    pub fn select_next(&mut self)
        requires
            old(self).inv(),
        ensures
            final(self).inv(),
            final(self).rows_spec() == old(self).rows_spec(),
            final(self).len_spec() == old(self).len_spec(),
            final(self).selected_spec() == if old(self).selected_spec() + 1 < old(self).len_spec() {
                old(self).selected_spec() + 1
            } else {
                old(self).selected_spec()
            },
    {
        if self.rows.len() > 0 && self.selected < self.rows.len() - 1 {
            self.selected = self.selected + 1;
        }
    }

    /// Move the selection one row up, stopping at the first row.
    pub fn select_prev(&mut self)
        requires
            old(self).inv(),
        ensures
            final(self).inv(),
            final(self).rows_spec() == old(self).rows_spec(),
            final(self).len_spec() == old(self).len_spec(),
            final(self).selected_spec() == if old(self).selected_spec() > 0 {
                (old(self).selected_spec() - 1) as nat
            } else {
                0
            },
    {
        if self.selected > 0 {
            self.selected = self.selected - 1;
        }
    }

    /// Select the first row.
    pub fn select_first(&mut self)
        requires
            old(self).inv(),
        ensures
            final(self).inv(),
            final(self).rows_spec() == old(self).rows_spec(),
            final(self).len_spec() == old(self).len_spec(),
            final(self).selected_spec() == 0,
    {
        self.selected = 0;
    }

    /// Select the last row (the first one on an empty table).
    pub fn select_last(&mut self)
        requires
            old(self).inv(),
        ensures
            final(self).inv(),
            final(self).rows_spec() == old(self).rows_spec(),
            final(self).len_spec() == old(self).len_spec(),
            final(self).selected_spec() == if old(self).len_spec() == 0 {
                0
            } else {
                (old(self).len_spec() - 1) as nat
            },
    {
        if self.rows.len() == 0 {
            self.selected = 0;
        } else {
            self.selected = self.rows.len() - 1;
        }
    }

    /// Move the selection for a navigation key (`j`/Down, `k`/Up, `g` for
    /// the first row, `G` for the last); whether the key was one.
    pub fn handle_nav_key(&mut self, key: Key) -> (handled: bool)
        requires
            old(self).inv(),
        ensures
            final(self).inv(),
            final(self).rows_spec() == old(self).rows_spec(),
            final(self).len_spec() == old(self).len_spec(),
            handled == nav_key(key),
            final(self).selected_spec() == nav_target(key, old(self).selected_spec(), old(self).len_spec()),
    {
        match key {
            Key::Char('j') | Key::Down => {
                self.select_next();
                true
            },
            Key::Char('k') | Key::Up => {
                self.select_prev();
                true
            },
            Key::Char('g') => {
                self.select_first();
                true
            },
            Key::Char('G') => {
                self.select_last();
                true
            },
            _ => false,
        }
    }
}

/// Where the selection lands when a table of `len` rows replaces the
/// rows: it stays when still on a row, moves to the last row otherwise,
/// and is 0 on an empty table.
pub open spec fn kept_selection(selected: nat, len: nat) -> nat {
    if len == 0 {
        0
    } else if selected < len {
        selected
    } else {
        (len - 1) as nat
    }
}

/// Whether a key moves the selection of a table.
pub open spec fn nav_key(key: Key) -> bool {
    key == Key::Char('j') || key == Key::Down || key == Key::Char('k') || key == Key::Up || key
        == Key::Char('g') || key == Key::Char('G')
}

/// Where a navigation key moves the selection of a table of `len` rows.
pub open spec fn nav_target(key: Key, selected: nat, len: nat) -> nat {
    if key == Key::Char('j') || key == Key::Down {
        if selected + 1 < len { selected + 1 } else { selected }
    } else if key == Key::Char('k') || key == Key::Up {
        if selected > 0 { (selected - 1) as nat } else { 0 }
    } else if key == Key::Char('g') {
        0
    } else if key == Key::Char('G') {
        if len == 0 { 0 } else { (len - 1) as nat }
    } else {
        selected
    }
}

} // verus!
