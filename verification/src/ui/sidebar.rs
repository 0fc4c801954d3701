//! Entries of the navigation sidebar.
use vstd::prelude::*;
use crate::models::common::Route;

verus! {

/// One sidebar entry: its label, the screen it opens, its shortcut key,
/// and whether only admins see it.
#[derive(Debug, Clone, PartialEq)]
pub struct SidebarItem {
    pub label: String,
    pub route: Route,
    pub shortcut: String,
    pub admin_only: bool,
}

} // verus!
