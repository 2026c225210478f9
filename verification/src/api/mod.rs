//! The HTTP-facing shapes of requests and responses, and how errors are answered.

pub mod audit;
pub mod authz;
pub mod dto;
pub mod extractors;
pub mod respond;
