//! Crawl-and-sync core for a creator's published audio sets.
//!
//! The library holds the decisions of a crawl: decoding the platform's JSON
//! responses, driving cursor pagination, and keeping the local store's rows
//! and schema version consistent. Network and disk access live with the
//! caller, which hands plain values in and takes plain values back.

pub mod crawl;
pub mod data;
pub mod db;
pub mod db_laws;
pub mod decode;
pub mod endpoints;
pub mod error;
pub mod instant;
pub mod json;
pub mod listing;
pub mod migrate;
pub mod pager;
pub mod session;
