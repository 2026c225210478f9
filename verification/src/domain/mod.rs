//! The domain vocabulary: statuses, roles, validated values and entities.

pub mod kinds;
pub mod policy;
pub mod values;
pub mod entities;
