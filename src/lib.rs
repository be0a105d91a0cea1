//! Error taxonomy, response envelope and rejection dispatch of the catalog API,
//! together with its configuration fields.

pub mod envelope;
pub mod api_error;
pub mod dispatch;
pub mod config;
