//! The mutating operations of the system and the spec-level transitions
//! they implement.
//!
//! Each operation takes the records it touches, the balances of the token
//! holding accounts involved, and the chain-provided current timestamp,
//! and returns either the event to emit or the error kind that rejected
//! it. Every rejection leaves every record and balance unchanged.

use vstd::prelude::*;
use crate::errors::DetoxError;
use crate::events::{
    DailyGoalFailed, DailyGoalMet, GoalCompleted, GoalCreated, GoalFailed,
    WellnessRewardDistributed,
};
use crate::state::{
    goal_succeeds, AccountId, Goal, GoalStatus, ProgramState, TokenAccount, UserProfile,
};

verus! {

/// Outcome of a daily report: either the compliant-day count advanced, or
/// the day's usage was over the limit and nothing changed.
#[derive(Clone, Copy, PartialEq, Eq, Structural, Debug)]
pub enum ReportOutcome {
    DayMet(DailyGoalMet),
    DayFailed(DailyGoalFailed),
}

/// Outcome of a finalization: the stake went back to the beneficiary, or
/// was forfeited to the wellness pool.
#[derive(Clone, Copy, PartialEq, Eq, Structural, Debug)]
pub enum FinalizeOutcome {
    Completed(GoalCompleted),
    Failed(GoalFailed),
}

/// The program singleton as bootstrap leaves it: identities recorded,
/// every running total zero.
pub open spec fn initial_program_state(
    authority: AccountId,
    wellness_pool: AccountId,
    wellness_pool_bump: u8,
) -> ProgramState {
    ProgramState {
        authority,
        wellness_pool,
        wellness_pool_bump,
        total_staked: 0,
        total_goals_completed: 0,
        total_goals_failed: 0,
    }
}

/// A participant's record as first created: every counter zero, the
/// creation instant as last activity.
pub open spec fn fresh_user_profile(user: AccountId, now: i64) -> UserProfile {
    UserProfile {
        user,
        total_staked: 0,
        goals_completed: 0,
        goals_failed: 0,
        current_streak: 0,
        longest_streak: 0,
        last_activity: now,
    }
}

/// Which parameter check rejects a creation request, if any; checks run in
/// order: stake, daily limit, duration.
pub open spec fn stake_error(
    stake_amount: u64,
    usage_time_limit: u32,
    goal_duration: u32,
) -> Option<DetoxError> {
    if stake_amount == 0 {
        Some(DetoxError::InvalidStakeAmount)
    } else if usage_time_limit == 0 {
        Some(DetoxError::InvalidTimeLimit)
    } else if goal_duration == 0 || goal_duration > 365 {
        Some(DetoxError::InvalidDuration)
    } else {
        None
    }
}

/// The goal record a valid creation request produces: beneficiary defaults
/// to the staker, the window is exactly the duration in days, the status
/// is `Active` and no day is yet compliant.
pub open spec fn goal_at_creation(
    user: AccountId,
    target_user: Option<AccountId>,
    stake_amount: u64,
    usage_time_limit: u32,
    goal_duration: u32,
    now: i64,
    escrow_bump: u8,
) -> Goal {
    Goal {
        staker: user,
        target_user: beneficiary_of(user, target_user),
        stake_amount,
        usage_time_limit,
        goal_duration,
        start_time: now,
        end_time: (now + goal_duration * 86400) as i64,
        status: GoalStatus::Active,
        days_completed: 0,
        escrow_bump,
    }
}

/// Which check rejects a daily report, if any; checks run in order: the
/// goal must be active, the window must not have closed, and the reporter
/// must be the staker or the beneficiary.
pub open spec fn report_error(g: Goal, reporter: AccountId, now: i64) -> Option<DetoxError> {
    if !(g.status is Active) {
        Some(DetoxError::GoalNotActive)
    } else if now > g.end_time {
        Some(DetoxError::GoalExpired)
    } else if reporter != g.staker && reporter != g.target_user {
        Some(DetoxError::UnauthorizedReporter)
    } else {
        None
    }
}

/// A day is compliant exactly when its usage is at or under the limit.
pub open spec fn day_met(g: Goal, usage_minutes: u32) -> bool {
    usage_minutes <= g.usage_time_limit
}

/// The goal after an accepted report: a compliant day increments the
/// count, an over-limit day changes nothing.
pub open spec fn goal_after_report(g: Goal, usage_minutes: u32) -> Goal {
    if day_met(g, usage_minutes) {
        Goal { days_completed: (g.days_completed + 1) as u32, ..g }
    } else {
        g
    }
}

/// Which check rejects a finalization, if any; checks run in order: the
/// goal must be active and its window must have closed.
pub open spec fn finalize_error(g: Goal, now: i64) -> Option<DetoxError> {
    if !(g.status is Active) {
        Some(DetoxError::GoalNotActive)
    } else if now < g.end_time {
        Some(DetoxError::GoalNotExpired)
    } else {
        None
    }
}

/// The goal after finalization: the one terminal transition, decided by
/// the completion threshold; every other field is fixed.
pub open spec fn goal_after_finalize(g: Goal) -> Goal {
    Goal {
        status: if goal_succeeds(g) {
            GoalStatus::Completed
        } else {
            GoalStatus::Failed
        },
        ..g
    }
}

/// The beneficiary's profile after finalization: success advances the
/// completion counter and the streak (and the longest streak on a new
/// maximum); failure advances the failure counter and resets the streak,
/// leaving the longest streak at its prior maximum. Either way the last
/// activity is stamped.
pub open spec fn profile_after_finalize(u: UserProfile, g: Goal, now: i64) -> UserProfile {
    if goal_succeeds(g) {
        let streak = (u.current_streak + 1) as u32;
        UserProfile {
            goals_completed: (u.goals_completed + 1) as u32,
            current_streak: streak,
            longest_streak: if streak > u.longest_streak {
                streak
            } else {
                u.longest_streak
            },
            last_activity: now,
            ..u
        }
    } else {
        UserProfile {
            goals_failed: (u.goals_failed + 1) as u32,
            current_streak: 0,
            last_activity: now,
            ..u
        }
    }
}

/// The program singleton after finalization: exactly one of the two
/// outcome counters advances.
pub open spec fn program_after_finalize(p: ProgramState, g: Goal) -> ProgramState {
    if goal_succeeds(g) {
        ProgramState { total_goals_completed: (p.total_goals_completed + 1) as u32, ..p }
    } else {
        ProgramState { total_goals_failed: (p.total_goals_failed + 1) as u32, ..p }
    }
}

/// Bootstrap: record the administrative authority and the wellness pool's
/// identity and derivation bump, with every running total zero. Runs once;
/// the substrate's keyed addressing makes the record a singleton.
pub fn initialize_program(
    authority: AccountId,
    wellness_pool: AccountId,
    wellness_pool_bump: u8,
) -> (s: ProgramState)
    ensures
        s == initial_program_state(authority, wellness_pool, wellness_pool_bump),
{
    ProgramState {
        authority,
        wellness_pool,
        wellness_pool_bump,
        total_staked: 0,
        total_goals_completed: 0,
        total_goals_failed: 0,
    }
}

/// Create a participant's record on first use: every counter zero, the
/// chain-provided current timestamp as last activity.
pub fn create_user_profile(user: AccountId, now: i64) -> (p: UserProfile)
    ensures
        p == fresh_user_profile(user, now),
{
    UserProfile {
        user,
        total_staked: 0,
        goals_completed: 0,
        goals_failed: 0,
        current_streak: 0,
        longest_streak: 0,
        last_activity: now,
    }
}

/// The value-transfer collaborator, reduced to balances: move `amount`
/// from one holding account to another.
fn transfer_tokens(from: &mut TokenAccount, to: &mut TokenAccount, amount: u64)
    requires
        old(from).amount >= amount,
        old(to).amount + amount <= u64::MAX,
    ensures
        final(from).amount == old(from).amount - amount,
        final(to).amount == old(to).amount + amount,
{
    from.amount = from.amount - amount;
    to.amount = to.amount + amount;
}

/// The beneficiary of a creation request: the explicit target if one was
/// given, otherwise the staker.
pub open spec fn beneficiary_of(user: AccountId, target_user: Option<AccountId>) -> AccountId {
    match target_user {
        Some(t) => t,
        None => user,
    }
}

/// What a valid creation request further needs of the records and balances
/// it touches: a staker balance covering the stake, a freshly created
/// (empty) escrow account, aggregate totals with room for the stake, and
/// an end time that fits the timestamp width.
pub open spec fn stake_fits(
    u: UserProfile,
    p: ProgramState,
    user_token: TokenAccount,
    escrow_token: TokenAccount,
    stake_amount: u64,
    goal_duration: u32,
    now: i64,
) -> bool {
    &&& user_token.amount >= stake_amount
    &&& escrow_token.amount == 0
    &&& u.total_staked + stake_amount <= u64::MAX
    &&& p.total_staked + stake_amount <= u64::MAX
    &&& now + (goal_duration as int) * 86400 <= i64::MAX
}

/// Create a goal: validate the parameters, move the stake from the
/// staker's holding account into the goal's fresh escrow account, build
/// the goal record, and add the stake to the participant's and the
/// program's running totals. Parameter rejection happens before any value
/// moves and leaves every record and balance unchanged.
pub fn stake_for_goal(
    goal_address: AccountId,
    user: AccountId,
    user_profile: &mut UserProfile,
    program_state: &mut ProgramState,
    user_token: &mut TokenAccount,
    escrow_token: &mut TokenAccount,
    escrow_bump: u8,
    stake_amount: u64,
    usage_time_limit: u32,
    goal_duration: u32,
    target_user: Option<AccountId>,
    now: i64,
) -> (r: Result<(Goal, GoalCreated), DetoxError>)
    requires
        stake_error(stake_amount, usage_time_limit, goal_duration) is None ==> stake_fits(
            *old(user_profile),
            *old(program_state),
            *old(user_token),
            *old(escrow_token),
            stake_amount,
            goal_duration,
            now,
        ),
    ensures
        stake_error(stake_amount, usage_time_limit, goal_duration) matches Some(e) ==> r == Err::<
            (Goal, GoalCreated),
            DetoxError,
        >(e)
            && *final(user_profile) == *old(user_profile)
            && *final(program_state) == *old(program_state)
            && *final(user_token) == *old(user_token)
            && *final(escrow_token) == *old(escrow_token),
        stake_error(stake_amount, usage_time_limit, goal_duration) is None ==> r == Ok::<
            (Goal, GoalCreated),
            DetoxError,
        >(
            (
                goal_at_creation(
                    user,
                    target_user,
                    stake_amount,
                    usage_time_limit,
                    goal_duration,
                    now,
                    escrow_bump,
                ),
                (GoalCreated {
                    goal: goal_address,
                    staker: user,
                    target_user: beneficiary_of(user, target_user),
                    stake_amount,
                    usage_time_limit,
                    goal_duration,
                }),
            ),
        ),
        stake_error(stake_amount, usage_time_limit, goal_duration) is None
            ==> final(user_token).amount == old(user_token).amount - stake_amount
            && final(escrow_token).amount == stake_amount,
        final(user_token).amount + final(escrow_token).amount == old(user_token).amount
            + old(escrow_token).amount,
        stake_error(stake_amount, usage_time_limit, goal_duration) is None ==> *final(user_profile)
            == (UserProfile {
            total_staked: (old(user_profile).total_staked + stake_amount) as u64,
            ..*old(user_profile)
        }) && *final(program_state) == (ProgramState {
            total_staked: (old(program_state).total_staked + stake_amount) as u64,
            ..*old(program_state)
        }),
{
    if stake_amount == 0 {
        return Err(DetoxError::InvalidStakeAmount);
    }
    if usage_time_limit == 0 {
        return Err(DetoxError::InvalidTimeLimit);
    }
    if goal_duration == 0 || goal_duration > 365 {
        return Err(DetoxError::InvalidDuration);
    }
    // The stake moves into escrow first; had the transfer failed, the
    // substrate would abort the whole operation with no partial state.
    transfer_tokens(user_token, escrow_token, stake_amount);
    let beneficiary = match target_user {
        Some(t) => t,
        None => user,
    };
    let goal = Goal {
        staker: user,
        target_user: beneficiary,
        stake_amount,
        usage_time_limit,
        goal_duration,
        start_time: now,
        end_time: now + (goal_duration as i64) * 86400,
        status: GoalStatus::Active,
        days_completed: 0,
        escrow_bump,
    };
    user_profile.total_staked = user_profile.total_staked + stake_amount;
    program_state.total_staked = program_state.total_staked + stake_amount;
    let event = GoalCreated {
        goal: goal_address,
        staker: user,
        target_user: beneficiary,
        stake_amount,
        usage_time_limit,
        goal_duration,
    };
    Ok((goal, event))
}

/// Record one day's usage against an active goal: within its window and
/// from an authorized reporter, a compliant day increments the
/// compliant-day count, an over-limit day is rejected for the day but
/// mutates nothing. Every precondition failure leaves the goal unchanged.
///
/// Reports are not keyed by `date`: nothing stops the same calendar day
/// from being reported more than once, each compliant report incrementing
/// the count. Enforcing at most one report per day is left to callers.
pub fn report_daily_usage(
    goal: &mut Goal,
    goal_address: AccountId,
    reporter: AccountId,
    usage_minutes: u32,
    date: i64,
    now: i64,
) -> (r: Result<ReportOutcome, DetoxError>)
    requires
        report_error(*old(goal), reporter, now) is None && day_met(*old(goal), usage_minutes)
            ==> old(goal).days_completed < u32::MAX,
    ensures
        report_error(*old(goal), reporter, now) matches Some(e) ==> r == Err::<
            ReportOutcome,
            DetoxError,
        >(e) && *final(goal) == *old(goal),
        report_error(*old(goal), reporter, now) is None ==> *final(goal) == goal_after_report(
            *old(goal),
            usage_minutes,
        ),
        report_error(*old(goal), reporter, now) is None && day_met(*old(goal), usage_minutes)
            ==> r == Ok::<ReportOutcome, DetoxError>(
            ReportOutcome::DayMet(
                (DailyGoalMet {
                    goal: goal_address,
                    date,
                    usage_minutes,
                    days_completed: (old(goal).days_completed + 1) as u32,
                }),
            ),
        ),
        report_error(*old(goal), reporter, now) is None && !day_met(*old(goal), usage_minutes)
            ==> r == Ok::<ReportOutcome, DetoxError>(
            ReportOutcome::DayFailed(
                (DailyGoalFailed {
                    goal: goal_address,
                    date,
                    usage_minutes,
                    limit: old(goal).usage_time_limit,
                }),
            ),
        ),
{
    if !(goal.status == GoalStatus::Active) {
        return Err(DetoxError::GoalNotActive);
    }
    if now > goal.end_time {
        return Err(DetoxError::GoalExpired);
    }
    if !(reporter == goal.staker || reporter == goal.target_user) {
        return Err(DetoxError::UnauthorizedReporter);
    }
    if usage_minutes <= goal.usage_time_limit {
        goal.days_completed = goal.days_completed + 1;
        Ok(
            ReportOutcome::DayMet(
                DailyGoalMet {
                    goal: goal_address,
                    date,
                    usage_minutes,
                    days_completed: goal.days_completed,
                },
            ),
        )
    } else {
        Ok(
            ReportOutcome::DayFailed(
                DailyGoalFailed {
                    goal: goal_address,
                    date,
                    usage_minutes,
                    limit: goal.usage_time_limit,
                },
            ),
        )
    }
}

/// What a finalization that passes its checks further needs of the records
/// and balances it touches: the escrow invariant (the escrow holds exactly
/// the stake), room in the receiving balance, and room in the counters the
/// taken branch advances.
pub open spec fn finalize_fits(
    g: Goal,
    u: UserProfile,
    p: ProgramState,
    escrow: TokenAccount,
    beneficiary: TokenAccount,
    pool: TokenAccount,
) -> bool {
    &&& escrow.amount == g.stake_amount
    &&& if goal_succeeds(g) {
        &&& beneficiary.amount + g.stake_amount <= u64::MAX
        &&& u.goals_completed < u32::MAX
        &&& u.current_streak < u32::MAX
        &&& p.total_goals_completed < u32::MAX
    } else {
        &&& pool.amount + g.stake_amount <= u64::MAX
        &&& u.goals_failed < u32::MAX
        &&& p.total_goals_failed < u32::MAX
    }
}

/// Settle an expired active goal: decide success by the completion
/// threshold, make the one terminal status transition, advance the
/// aggregate counters and the streak accordingly, and drain the escrow in
/// full — to the beneficiary on success, to the wellness pool on failure.
/// Every precondition failure leaves every record and balance unchanged.
pub fn finalize_goal(
    goal: &mut Goal,
    goal_address: AccountId,
    user_profile: &mut UserProfile,
    program_state: &mut ProgramState,
    escrow_token: &mut TokenAccount,
    user_token: &mut TokenAccount,
    wellness_pool: &mut TokenAccount,
    now: i64,
) -> (r: Result<FinalizeOutcome, DetoxError>)
    requires
        finalize_error(*old(goal), now) is None ==> finalize_fits(
            *old(goal),
            *old(user_profile),
            *old(program_state),
            *old(escrow_token),
            *old(user_token),
            *old(wellness_pool),
        ),
    ensures
        finalize_error(*old(goal), now) matches Some(e) ==> r == Err::<
            FinalizeOutcome,
            DetoxError,
        >(e)
            && *final(goal) == *old(goal)
            && *final(user_profile) == *old(user_profile)
            && *final(program_state) == *old(program_state)
            && *final(escrow_token) == *old(escrow_token)
            && *final(user_token) == *old(user_token)
            && *final(wellness_pool) == *old(wellness_pool),
        finalize_error(*old(goal), now) is None ==> *final(goal) == goal_after_finalize(*old(goal))
            && *final(user_profile) == profile_after_finalize(*old(user_profile), *old(goal), now)
            && *final(program_state) == program_after_finalize(*old(program_state), *old(goal))
            && final(escrow_token).amount == 0,
        final(escrow_token).amount + final(user_token).amount + final(wellness_pool).amount
            == old(escrow_token).amount + old(user_token).amount + old(wellness_pool).amount,
        finalize_error(*old(goal), now) is None && goal_succeeds(*old(goal))
            ==> final(user_token).amount == old(user_token).amount + old(goal).stake_amount
            && *final(wellness_pool) == *old(wellness_pool)
            && r == Ok::<FinalizeOutcome, DetoxError>(
            FinalizeOutcome::Completed(
                (GoalCompleted {
                    goal: goal_address,
                    staker: old(goal).staker,
                    target_user: old(goal).target_user,
                    stake_returned: old(goal).stake_amount,
                    days_completed: old(goal).days_completed,
                }),
            ),
        ),
        finalize_error(*old(goal), now) is None && !goal_succeeds(*old(goal))
            ==> final(wellness_pool).amount == old(wellness_pool).amount + old(goal).stake_amount
            && *final(user_token) == *old(user_token)
            && r == Ok::<FinalizeOutcome, DetoxError>(
            FinalizeOutcome::Failed(
                (GoalFailed {
                    goal: goal_address,
                    staker: old(goal).staker,
                    target_user: old(goal).target_user,
                    stake_forfeited: old(goal).stake_amount,
                    days_completed: old(goal).days_completed,
                }),
            ),
        ),
{
    if !(goal.status == GoalStatus::Active) {
        return Err(DetoxError::GoalNotActive);
    }
    if now < goal.end_time {
        return Err(DetoxError::GoalNotExpired);
    }
    // 80% completion required; widening to u64 keeps the product exact for
    // any duration.
    let threshold: u64 = (goal.goal_duration as u64) * 4 / 5;
    let completed: bool = (goal.days_completed as u64) >= threshold;
    if completed {
        goal.status = GoalStatus::Completed;
        program_state.total_goals_completed = program_state.total_goals_completed + 1;
        user_profile.goals_completed = user_profile.goals_completed + 1;
        user_profile.current_streak = user_profile.current_streak + 1;
        if user_profile.current_streak > user_profile.longest_streak {
            user_profile.longest_streak = user_profile.current_streak;
        }
        transfer_tokens(escrow_token, user_token, goal.stake_amount);
        user_profile.last_activity = now;
        Ok(
            FinalizeOutcome::Completed(
                GoalCompleted {
                    goal: goal_address,
                    staker: goal.staker,
                    target_user: goal.target_user,
                    stake_returned: goal.stake_amount,
                    days_completed: goal.days_completed,
                },
            ),
        )
    } else {
        goal.status = GoalStatus::Failed;
        program_state.total_goals_failed = program_state.total_goals_failed + 1;
        user_profile.goals_failed = user_profile.goals_failed + 1;
        user_profile.current_streak = 0;
        transfer_tokens(escrow_token, wellness_pool, goal.stake_amount);
        user_profile.last_activity = now;
        Ok(
            FinalizeOutcome::Failed(
                GoalFailed {
                    goal: goal_address,
                    staker: goal.staker,
                    target_user: goal.target_user,
                    stake_forfeited: goal.stake_amount,
                    days_completed: goal.days_completed,
                },
            ),
        )
    }
}

/// Emit a distribution intent for each recipient of the wellness pool,
/// admin-only and with recipient and amount lists of equal length. No
/// value moves here: settlement is a separate phase.
pub fn distribute_wellness_rewards(
    program_state: &ProgramState,
    authority: AccountId,
    recipients: &Vec<AccountId>,
    amounts: &Vec<u64>,
) -> (r: Result<Vec<WellnessRewardDistributed>, DetoxError>)
    ensures
        !(authority == program_state.authority) ==> (r matches Err(e) && e
            == DetoxError::UnauthorizedAuthority),
        authority == program_state.authority && recipients@.len() != amounts@.len() ==> (r matches
            Err(e) && e == DetoxError::MismatchedArrays),
        authority == program_state.authority && recipients@.len() == amounts@.len() ==> (r matches
            Ok(evs) && evs@.len() == recipients@.len() && (forall|j: int|
            0 <= j < recipients@.len() ==> evs@[j] == (WellnessRewardDistributed {
                recipient: recipients@[j],
                amount: amounts@[j],
            }))),
{
    if !(authority == program_state.authority) {
        return Err(DetoxError::UnauthorizedAuthority);
    }
    if recipients.len() != amounts.len() {
        return Err(DetoxError::MismatchedArrays);
    }
    let mut events: Vec<WellnessRewardDistributed> = Vec::new();
    let mut i: usize = 0;
    while i < recipients.len()
        invariant
            recipients@.len() == amounts@.len(),
            i <= recipients@.len(),
            events@.len() == i as int,
            forall|j: int|
                0 <= j < i as int ==> events@[j] == (WellnessRewardDistributed {
                    recipient: recipients@[j],
                    amount: amounts@[j],
                }),
        decreases recipients@.len() - i as int,
    {
        let ev = WellnessRewardDistributed { recipient: recipients[i], amount: amounts[i] };
        events.push(ev);
        i = i + 1;
    }
    Ok(events)
}

} // verus!
