//! Verified core of the RSS Intelligence worker: feed parsing, timestamp
//! canonicalisation, URL identity and fetch guards, queue routing and the
//! request-level decisions of the HTTP API.


pub mod text;
pub mod identity;
pub mod digits;
pub mod time;
pub mod urls;
pub mod types;
pub mod feed;
pub mod numbers;
pub mod fetch;
pub mod refresh;
pub mod queue;
pub mod scheduler;
pub mod api;
pub mod pool;
pub mod sources;
