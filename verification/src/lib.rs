//! Verified core of an OpenStack terminal console: navigation, the domain
//! models, the row/detail/form view models, the per-resource screen state
//! machines and the host evacuation workflow.
pub mod bytes;
pub mod text;
pub mod models;
pub mod ui;
pub mod port;
pub mod action;
pub mod event;
pub mod router;
pub mod module;
pub mod registry;
