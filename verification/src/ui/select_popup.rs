//! A popup offering a choice among items.
use vstd::prelude::*;

verus! {

/// How an item is marked in the popup.
#[derive(Debug, PartialEq)]
pub enum ItemHint {
    Normal,
    Current,
    Warning(String),
}

/// An item of the popup: the id handed back when it is chosen, its text
/// and its mark.
#[derive(Debug, PartialEq)]
pub struct SelectItem {
    pub id: String,
    pub label: String,
    pub hint: ItemHint,
}

/// The mark of an item, as contracts see it.
pub enum HintView {
    Normal,
    Current,
    Warning(Seq<char>),
}

/// An item as contracts see it: id, text and mark.
pub struct ItemView {
    pub id: Seq<char>,
    pub label: Seq<char>,
    pub hint: HintView,
}

impl ItemHint {
    /// The mark as contracts see it.
    pub open spec fn view(&self) -> HintView {
        match self {
            ItemHint::Normal => HintView::Normal,
            ItemHint::Current => HintView::Current,
            ItemHint::Warning(t) => HintView::Warning(t@),
        }
    }
}

impl SelectItem {
    /// The item as contracts see it.
    pub open spec fn view(&self) -> ItemView {
        ItemView { id: self.id@, label: self.label@, hint: self.hint.view() }
    }
}

/// Views of a list of items.
pub open spec fn items_view(items: Seq<SelectItem>) -> Seq<ItemView> {
    items.map_values(|i: SelectItem| i.view())
}

/// What the popup made of a key: an item chosen (by its id), the popup
/// dismissed, or nothing yet.
#[derive(Debug, PartialEq)]
pub enum SelectResult {
    Selected(String),
    Cancelled,
    Pending,
}

/// A popup: its title and items.
#[derive(Debug, PartialEq)]
pub struct SelectPopup {
    pub title: String,
    pub items: Vec<SelectItem>,
}

impl SelectPopup {
    /// A popup with the given title and items.
    pub fn new(title: &str, items: Vec<SelectItem>) -> (r: Self)
        ensures
            r.title@ == title@,
            r.items@ == items@,
    {
        SelectPopup { title: String::from_str(title), items }
    }

    /// Number of items.
    pub fn item_count(&self) -> (r: usize)
        ensures
            r == self.items@.len(),
    {
        self.items.len()
    }
}

} // verus!
