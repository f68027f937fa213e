//! Store-and-fetch core of a small log ingestion service: validation of
//! incoming events, the shared-secret check on reads, the newest-first
//! bounded or unbounded read, and the reply envelope.

pub mod auth;
pub mod entry;
pub mod reader;
pub mod request;
pub mod response;
pub mod table;
pub mod writer;
