//! Event datastore for security-event review: the query, aggregation and
//! workflow logic shared by a document-search backend and an embedded
//! relational backend.

pub mod datastore;
pub mod dhcp;
pub mod elastic;
pub mod json;
pub mod querystring;
pub mod server;
pub mod sqlite;
pub mod text;
pub mod timestamp;
pub mod workflow;
