//! Core of a multi-tenant reverse proxy: a swappable routing table that maps
//! tenant keys (the first path segment of a request) to backend deployment
//! descriptors, and the per-request dispatch pipeline that parses the request
//! path, resolves the tenant, rewrites the outbound request and post-processes
//! the backend's response.

pub mod dispatch;
pub mod errors;
pub mod headers;
pub mod holder;
pub mod models;
pub mod parse;
pub mod server;
pub mod strutil;
pub mod table;
