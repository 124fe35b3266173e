//! A read-through spreadsheet proxy core: rate limiting, a TTL response
//! cache, sheet reference resolution and the row transformer.

pub mod assoc;
pub mod cache;
pub mod limiter;
pub mod models;
pub mod resolver;
pub mod service;
pub mod text;
pub mod transform;
