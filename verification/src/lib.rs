//! Verified core of a small web-service support library: database connection
//! settings resolved from defaults, a remote document and environment
//! overrides; a write-once database name; HTTP error mapping and JSON error
//! bodies; and lookups of embedded static files.

pub mod numbers;
pub mod database_connection;
pub mod json;
pub mod http_error;
pub mod actix_extension;
