//! Exports contact records from a GraphQL endpoint to CSV text.
//!
//! The pipeline is linear: load a configuration, discover the total record
//! count through a one-record page, fetch every record on a single page of
//! that size, flatten the entities into (name, number) pairs, and encode the
//! pairs as CSV. Network and file transport live outside the library; the
//! library owns the queries, the response decoding, the flattening, and the
//! CSV encoding.

pub mod config;
pub mod csv_out;
pub mod digits;
pub mod entities;
pub mod json;
pub mod pipeline;
pub mod query;

pub use crate::config::AppConfig;
pub use crate::config::ConfigError;
pub use crate::csv_out::CsvError;
pub use crate::csv_out::csv_encode;
pub use crate::entities::Contact;
pub use crate::entities::Data;
pub use crate::entities::Entity;
pub use crate::entities::PhoneNumbers;
pub use crate::entities::Root;
pub use crate::entities::flatten;
pub use crate::json::DecodeError;
pub use crate::pipeline::ExportError;
pub use crate::pipeline::csv_for_entities_response;
pub use crate::pipeline::decode_entities;
pub use crate::pipeline::fetch_body_for_count_response;
pub use crate::query::count_query;
pub use crate::query::fetch_query;
pub use crate::query::request_headers;
