//! The migration screen, which so far only offers a way back.
use vstd::prelude::*;
use crate::action::Action;
use crate::ui::key::Key;

verus! {

/// The migration screen.
pub struct MigrationModule;

impl MigrationModule {
    /// The screen.
    pub fn new() -> (r: Self) {
        MigrationModule
    }

    /// Esc goes back; every other key is ignored.
    pub fn handle_key(&mut self, key: Key) -> (r: Option<Action>)
        ensures
            r == if key == Key::Esc { Some(Action::Back) } else { None },
    {
        match key {
            Key::Esc => Some(Action::Back),
            _ => None,
        }
    }

    /// The key help shown in the status bar: none.
    pub fn help_hint(&self) -> (r: &'static str)
        ensures
            r@ == ""@,
    {
        ""
    }
}

} // verus!
