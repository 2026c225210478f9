//! What several use cases share: the clock and reminder recipients.

use vstd::prelude::*;

use crate::domain::values::UtcDateTime;

verus! {

/// Source of the current time.
pub trait Clock {
    fn now(&self) -> UtcDateTime;
}

/// A member to remind about a match, in one of their pools.
#[derive(Debug, Clone)]
pub struct ReminderRecipient {
    pub user_id: String,
    pub pool_id: String,
}

} // verus!
