//! Request construction, signing and response classification.

pub mod address;
pub mod client;
pub mod dispatch;
pub mod error;
pub mod json;
pub mod laws;
pub mod query;
pub mod request;
pub mod signature;
