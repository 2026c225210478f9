//! Verified core of a football prediction-pool service ("bolão"): value
//! validation, scoring and ranking, prediction windows, notification fan-out
//! and the decisions of every use case, with the I/O left to the caller.

pub mod error;
pub mod text;
pub mod numbers;
pub mod domain;
pub mod scoring;
pub mod ranking;
pub mod ids;
pub mod time;
pub mod sorting;
pub mod results;
pub mod shared;
pub mod notifications;
pub mod jobs;
pub mod predictions;
pub mod pools;
pub mod matches;
pub mod teams;
pub mod tournaments;
pub mod auth;
pub mod files;
pub mod config;
pub mod api;
