//! Account endpoints of the OKX REST API: request construction and
//! the handling of decoded responses, with their contracts proved.
pub mod account;
pub mod decimal;
pub mod error;
pub mod json;
pub mod laws;
pub mod model;
pub mod percent;
pub mod query;
