//! A small telemetry service core: an HTTP wire codec working on byte
//! buffers, and the message-passing protocol by which many request handlers
//! hand commands to the single worker that owns the record store.

pub mod error;
pub mod dataformat;
pub mod status;
pub mod decimal;
pub mod http_handling;
pub mod response;
pub mod query_string;
pub mod database;
pub mod message_passing;
pub mod worker;
pub mod body;
pub mod auth;
pub mod connector;
pub mod util;
pub mod data;
pub mod method_handling;
