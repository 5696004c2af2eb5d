//! The events each operation produces. Emission transport is an external
//! collaborator: the operations return the event to emit, fully populated.

use vstd::prelude::*;
use crate::state::AccountId;

verus! {

/// A goal was created and its escrow funded.
#[derive(Clone, Copy, PartialEq, Eq, Structural, Debug)]
pub struct GoalCreated {
    pub goal: AccountId,
    pub staker: AccountId,
    pub target_user: AccountId,
    pub stake_amount: u64,
    pub usage_time_limit: u32,
    pub goal_duration: u32,
}

/// A daily report came in at or under the limit; the compliant-day count
/// was incremented.
#[derive(Clone, Copy, PartialEq, Eq, Structural, Debug)]
pub struct DailyGoalMet {
    pub goal: AccountId,
    pub date: i64,
    pub usage_minutes: u32,
    pub days_completed: u32,
}

/// A daily report came in over the limit; nothing was mutated.
#[derive(Clone, Copy, PartialEq, Eq, Structural, Debug)]
pub struct DailyGoalFailed {
    pub goal: AccountId,
    pub date: i64,
    pub usage_minutes: u32,
    pub limit: u32,
}

/// A goal was finalized as successful and the stake returned to the
/// beneficiary.
#[derive(Clone, Copy, PartialEq, Eq, Structural, Debug)]
pub struct GoalCompleted {
    pub goal: AccountId,
    pub staker: AccountId,
    pub target_user: AccountId,
    pub stake_returned: u64,
    pub days_completed: u32,
}

/// A goal was finalized as failed and the stake forfeited to the pool.
#[derive(Clone, Copy, PartialEq, Eq, Structural, Debug)]
pub struct GoalFailed {
    pub goal: AccountId,
    pub staker: AccountId,
    pub target_user: AccountId,
    pub stake_forfeited: u64,
    pub days_completed: u32,
}

/// A distribution intent for one recipient of the wellness pool.
#[derive(Clone, Copy, PartialEq, Eq, Structural, Debug)]
pub struct WellnessRewardDistributed {
    pub recipient: AccountId,
    pub amount: u64,
}

} // verus!
