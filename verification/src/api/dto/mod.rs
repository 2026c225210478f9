//! Request and response bodies.

pub mod auth;
pub mod common;
pub mod files;
pub mod matches;
pub mod notifications;
pub mod pools;
pub mod predictions;
pub mod results;
pub mod teams;
pub mod tournaments;
