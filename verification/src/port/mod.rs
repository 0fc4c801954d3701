//! Parameter and record types exchanged with the cloud services.
pub mod mock_context;
pub mod types;
