//! Host identity: validating, decoding and reporting host names.

pub mod buffer;
pub mod dispatch;
pub mod error;
pub mod interfaces;
pub mod laws;
pub mod mutate;
pub mod options;
pub mod resolve;
pub mod text;
pub mod validate;
