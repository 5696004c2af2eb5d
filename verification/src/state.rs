//! The persisted record types of the system and their well-formedness.
//!
//! Identities are fixed-width 32-byte ledger keys, held as two 128-bit
//! halves so that equality is structural. Token holding accounts of the
//! external token program are reduced to what the core logic reads and
//! writes: their balance.

use vstd::prelude::*;

verus! {

/// A ledger identity: a fixed-width 32-byte key.
#[derive(Clone, Copy, PartialEq, Eq, Structural, Debug)]
pub struct AccountId {
    pub hi: u128,
    pub lo: u128,
}

/// A fungible-token holding account, reduced to its balance. The actual
/// value movement is performed by the external token program; the core
/// logic decides and accounts for every transfer.
#[derive(Clone, Copy, PartialEq, Eq, Structural, Debug)]
pub struct TokenAccount {
    pub amount: u64,
}

/// Lifecycle of a goal: `Active` at creation, then exactly one terminal
/// transition to `Completed` or `Failed`, never reversed.
#[derive(Clone, Copy, PartialEq, Eq, Structural, Debug)]
pub enum GoalStatus {
    Active,
    Completed,
    Failed,
}

/// The program singleton record: the administrative authority, the
/// communal wellness pool and its derivation bump, and running totals
/// updated by every stake and every finalization.
#[derive(Clone, Copy, PartialEq, Eq, Structural, Debug)]
pub struct ProgramState {
    pub authority: AccountId,
    pub wellness_pool: AccountId,
    pub wellness_pool_bump: u8,
    pub total_staked: u64,
    pub total_goals_completed: u32,
    pub total_goals_failed: u32,
}

/// One participant's record: cumulative totals, completion counters, and
/// the current and longest consecutive-success streaks.
#[derive(Clone, Copy, PartialEq, Eq, Structural, Debug)]
pub struct UserProfile {
    pub user: AccountId,
    pub total_staked: u64,
    pub goals_completed: u32,
    pub goals_failed: u32,
    pub current_streak: u32,
    pub longest_streak: u32,
    pub last_activity: i64,
}

/// One staking commitment: the staker, the beneficiary whose compliance is
/// tracked (defaults to the staker), the escrowed stake, the daily usage
/// limit in minutes, the duration in days, the fixed time window, the
/// lifecycle status, the count of compliant days, and the derivation bump
/// of the goal's dedicated escrow holding account.
#[derive(Clone, Copy, PartialEq, Eq, Structural, Debug)]
pub struct Goal {
    pub staker: AccountId,
    pub target_user: AccountId,
    pub stake_amount: u64,
    pub usage_time_limit: u32,
    pub goal_duration: u32,
    pub start_time: i64,
    pub end_time: i64,
    pub status: GoalStatus,
    pub days_completed: u32,
    pub escrow_bump: u8,
}

/// The creation-time parameter checks: a positive stake, a positive daily
/// limit, and a duration of one day up to one year.
pub open spec fn valid_goal_params(stake_amount: u64, usage_time_limit: u32, goal_duration: u32) -> bool {
    &&& stake_amount > 0
    &&& usage_time_limit > 0
    &&& 1 <= goal_duration <= 365
}

/// Days of compliance required for success: 80% of the duration in days,
/// rounded down.
pub open spec fn success_threshold(goal_duration: u32) -> int {
    (goal_duration as int) * 4 / 5
}

/// The finalization decision rule: the goal succeeds exactly when the
/// compliant-day count has reached the completion threshold.
pub open spec fn goal_succeeds(g: Goal) -> bool {
    g.days_completed as int >= success_threshold(g.goal_duration)
}

/// A well-formed goal record: parameters that passed creation-time
/// validation and a time window of exactly the duration in days.
pub open spec fn goal_wf(g: Goal) -> bool {
    &&& valid_goal_params(g.stake_amount, g.usage_time_limit, g.goal_duration)
    &&& g.end_time == g.start_time + (g.goal_duration as int) * 86400
}

/// Days of compliance required for success, computed executably.
pub fn compute_success_threshold(goal_duration: u32) -> (t: u32)
    requires
        goal_duration <= 365,
    ensures
        t as int == success_threshold(goal_duration),
{
    (goal_duration * 4) / 5
}

} // verus!
