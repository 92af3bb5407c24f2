//! Thought capture: short categorised notes are appended to a table and later
//! drained, once each, into an analysis request and an e-mail digest.

pub mod client;
pub mod db_operations;
pub mod drainer;
pub mod email;
pub mod errors;
pub mod reader_config;
pub mod text;
pub mod thought;
pub mod writer_config;
