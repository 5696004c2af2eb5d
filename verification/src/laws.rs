//! The guarantees of the lifecycle, stated once and proved: what creation
//! fixes, what reports may and may not change, and why finalization is a
//! terminal, exactly-once settlement.

use vstd::prelude::*;
use crate::errors::DetoxError;
use crate::ops::{
    finalize_error, goal_after_finalize, goal_after_report, goal_at_creation, profile_after_finalize,
    report_error, stake_error,
};
use crate::state::{goal_succeeds, goal_wf, AccountId, Goal, UserProfile};

verus! {

/// A goal accepted at creation is well formed, and its window is exactly
/// its duration in days: `end_time - start_time == goal_duration * 86400`,
/// fixed at creation.
pub proof fn created_goal_window_is_exact(
    user: AccountId,
    target_user: Option<AccountId>,
    stake_amount: u64,
    usage_time_limit: u32,
    goal_duration: u32,
    now: i64,
    escrow_bump: u8,
)
    requires
        stake_error(stake_amount, usage_time_limit, goal_duration) is None,
        now + (goal_duration as int) * 86400 <= i64::MAX,
    ensures
        goal_wf(
            goal_at_creation(
                user,
                target_user,
                stake_amount,
                usage_time_limit,
                goal_duration,
                now,
                escrow_bump,
            ),
        ),
        goal_at_creation(
            user,
            target_user,
            stake_amount,
            usage_time_limit,
            goal_duration,
            now,
            escrow_bump,
        ).end_time - goal_at_creation(
            user,
            target_user,
            stake_amount,
            usage_time_limit,
            goal_duration,
            now,
            escrow_bump,
        ).start_time == (goal_duration as int) * 86400,
{
}

/// An over-limit report never mutates the goal: rejection of the day is
/// idempotent, withholding the increment without penalizing anything.
pub proof fn overuse_report_never_increments(g: Goal, usage_minutes: u32)
    requires
        usage_minutes > g.usage_time_limit,
    ensures
        goal_after_report(g, usage_minutes) == g,
{
}

/// A report changes at most the compliant-day count, and only upward: the
/// goal's parties, terms, window and status are fixed by creation.
pub proof fn report_changes_only_the_count(g: Goal, usage_minutes: u32)
    requires
        g.days_completed < u32::MAX,
    ensures
        goal_after_report(g, usage_minutes).days_completed >= g.days_completed,
        goal_after_report(g, usage_minutes) == (Goal {
            days_completed: goal_after_report(g, usage_minutes).days_completed,
            ..g
        }),
        goal_wf(g) ==> goal_wf(goal_after_report(g, usage_minutes)),
{
}

/// Finalization is terminal: a goal it has settled rejects a second
/// finalization, and any further report, with `GoalNotActive` — so no
/// second transfer can ever occur.
pub proof fn finalization_is_terminal(g: Goal, now: i64, later: i64, reporter: AccountId)
    requires
        finalize_error(g, now) is None,
    ensures
        finalize_error(goal_after_finalize(g), later) == Some(DetoxError::GoalNotActive),
        report_error(goal_after_finalize(g), reporter, later) == Some(DetoxError::GoalNotActive),
{
}

/// Finalization partitions the outcomes exactly: the settled goal is
/// `Completed` precisely when the threshold was reached and `Failed`
/// precisely otherwise, and is never left `Active`. Every other field is
/// fixed.
pub proof fn finalize_partitions_outcomes(g: Goal)
    ensures
        goal_after_finalize(g).status is Completed <==> goal_succeeds(g),
        goal_after_finalize(g).status is Failed <==> !goal_succeeds(g),
        !(goal_after_finalize(g).status is Active),
        goal_after_finalize(g) == (Goal { status: goal_after_finalize(g).status, ..g }),
        goal_wf(g) ==> goal_wf(goal_after_finalize(g)),
{
}

/// Consecutive successful finalizations accumulate the streak one by one:
/// three in a row add exactly three, and the longest streak keeps up with
/// the current one.
pub proof fn streak_counts_consecutive_completions(
    u: UserProfile,
    g1: Goal,
    t1: i64,
    g2: Goal,
    t2: i64,
    g3: Goal,
    t3: i64,
)
    requires
        goal_succeeds(g1),
        goal_succeeds(g2),
        goal_succeeds(g3),
        u.current_streak + 3 <= u32::MAX,
        u.goals_completed + 3 <= u32::MAX,
    ensures
        profile_after_finalize(
            profile_after_finalize(profile_after_finalize(u, g1, t1), g2, t2),
            g3,
            t3,
        ).current_streak == u.current_streak + 3,
        profile_after_finalize(
            profile_after_finalize(profile_after_finalize(u, g1, t1), g2, t2),
            g3,
            t3,
        ).longest_streak >= u.current_streak + 3,
{
}

/// A failed finalization resets the current streak to zero and leaves the
/// longest streak at its prior maximum.
pub proof fn failed_finalization_resets_streak(u: UserProfile, g: Goal, now: i64)
    requires
        !goal_succeeds(g),
    ensures
        profile_after_finalize(u, g, now).current_streak == 0,
        profile_after_finalize(u, g, now).longest_streak == u.longest_streak,
{
}

} // verus!
