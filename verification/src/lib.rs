//! Verified request-data extraction for a web framework: typed path, query,
//! form and JSON wrappers, payload limits, content-type checks and charset
//! decoding, all stated over plain request data.

pub mod error;
pub mod body;
pub mod decimal;
pub mod text;
pub mod media;
pub mod charset;
pub mod request;
pub mod config;
pub mod payload;
pub mod wrappers;
pub mod form;
pub mod json;
pub mod combine;
pub mod laws;
