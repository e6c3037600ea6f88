//! A client library for Snowflake's query API.
//!
//! The library holds the logic of the client: where credentials come from, which request a
//! statement makes, what the answers of the service mean, and how results in Arrow's IPC
//! format are decoded. Sending requests, and everything else that touches the network or the
//! file system, is left to the program around it.
//!
//! Every function states in its contract what it returns. The calls into other crates are
//! small functions whose contracts are trusted; each says so in its documentation.

pub mod api;
pub mod arrow;
pub mod auth;
pub mod connection;
pub mod error;
pub mod exec;
pub mod flatten;
pub mod ntz;
pub mod query;
pub mod responses;
pub mod session;
pub mod statement;
pub mod text;
pub mod timestamp;

pub use arrow_schema::ArrowError;

pub use crate::api::{SnowflakeApi, SnowflakeApiBuilder};
pub use crate::arrow::RecordBatch;
pub use crate::auth::{AuthArgs, AuthType, CertificateArgs, PasswordArgs};
pub use crate::error::SnowflakeApiError;
pub use crate::query::{FieldSchema, JsonResult, QueryResult, RawQueryResult};
