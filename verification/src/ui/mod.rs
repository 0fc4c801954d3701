//! Display data produced by the screens: table rows, detail sections,
//! form field definitions and confirmation dialogs.
pub mod confirm;
pub mod detail_view;
pub mod form;
pub mod key;
pub mod resource_list;
pub mod select_popup;
pub mod sidebar;
