//! End-to-end lifecycle scenarios: creation, daily reporting, and
//! finalization with their escrow accounting and streak bookkeeping.

use detox_mine::errors::DetoxError;
use detox_mine::ops::{
    create_user_profile, finalize_goal, initialize_program, report_daily_usage, stake_for_goal,
    FinalizeOutcome, ReportOutcome,
};
use detox_mine::state::{AccountId, Goal, GoalStatus, ProgramState, TokenAccount, UserProfile};

fn id(n: u128) -> AccountId {
    AccountId { hi: n, lo: n.wrapping_mul(31) }
}

struct World {
    program: ProgramState,
    profile: UserProfile,
    user_tok: TokenAccount,
    escrow: TokenAccount,
    pool: TokenAccount,
    goal: Goal,
    goal_addr: AccountId,
    user: AccountId,
}

/// Stake 1000 units, limit 60 minutes/day, duration 5 days, starting at
/// `start`; the staker holds 5000 units beforehand.
fn staked_world(start: i64) -> World {
    let admin = id(1);
    let pool_id = id(2);
    let user = id(3);
    let goal_addr = id(4);
    let mut program = initialize_program(admin, pool_id, 254);
    let mut profile = create_user_profile(user, start);
    let mut user_tok = TokenAccount { amount: 5000 };
    let mut escrow = TokenAccount { amount: 0 };
    let pool = TokenAccount { amount: 0 };
    let r = stake_for_goal(
        goal_addr,
        user,
        &mut profile,
        &mut program,
        &mut user_tok,
        &mut escrow,
        9,
        1000,
        60,
        5,
        None,
        start,
    );
    let (goal, _event) = r.expect("valid stake is accepted");
    World { program, profile, user_tok, escrow, pool, goal, goal_addr, user }
}

#[test]
fn stake_funds_escrow_and_fixes_window() {
    let start = 1_000_000;
    let w = staked_world(start);
    assert_eq!(w.escrow.amount, 1000);
    assert_eq!(w.user_tok.amount, 4000);
    assert_eq!(w.goal.start_time, start);
    assert_eq!(w.goal.end_time - w.goal.start_time, 5 * 86400);
    assert_eq!(w.goal.end_time, start + 432000);
    assert_eq!(w.goal.status, GoalStatus::Active);
    assert_eq!(w.goal.days_completed, 0);
    assert_eq!(w.goal.staker, w.user);
    assert_eq!(w.goal.target_user, w.user);
    assert_eq!(w.profile.total_staked, 1000);
    assert_eq!(w.program.total_staked, 1000);
}

#[test]
fn stake_creation_event_carries_all_parameters() {
    let user = id(3);
    let mut program = initialize_program(id(1), id(2), 254);
    let mut profile = create_user_profile(user, 0);
    let mut user_tok = TokenAccount { amount: 5000 };
    let mut escrow = TokenAccount { amount: 0 };
    let beneficiary = id(7);
    let r = stake_for_goal(
        id(4),
        user,
        &mut profile,
        &mut program,
        &mut user_tok,
        &mut escrow,
        9,
        1000,
        60,
        5,
        Some(beneficiary),
        0,
    );
    let (goal, event) = r.expect("valid stake is accepted");
    assert_eq!(goal.target_user, beneficiary);
    assert_eq!(event.goal, id(4));
    assert_eq!(event.staker, user);
    assert_eq!(event.target_user, beneficiary);
    assert_eq!(event.stake_amount, 1000);
    assert_eq!(event.usage_time_limit, 60);
    assert_eq!(event.goal_duration, 5);
}

#[test]
fn compliant_reports_accrue_and_overuse_does_not() {
    let start = 1_000_000;
    let mut w = staked_world(start);
    let r = report_daily_usage(&mut w.goal, w.goal_addr, w.user, 50, 1, start + 100);
    match r {
        Ok(ReportOutcome::DayMet(ev)) => {
            assert_eq!(ev.days_completed, 1);
            assert_eq!(ev.usage_minutes, 50);
        }
        other => panic!("expected a compliant day, got {:?}", other),
    }
    assert_eq!(w.goal.days_completed, 1);
    // over the limit: rejected for the day, nothing mutated
    let r = report_daily_usage(&mut w.goal, w.goal_addr, w.user, 61, 2, start + 200);
    match r {
        Ok(ReportOutcome::DayFailed(ev)) => {
            assert_eq!(ev.limit, 60);
            assert_eq!(ev.usage_minutes, 61);
        }
        other => panic!("expected an over-limit day, got {:?}", other),
    }
    assert_eq!(w.goal.days_completed, 1);
    // a report exactly at the limit still counts
    let r = report_daily_usage(&mut w.goal, w.goal_addr, w.user, 60, 3, start + 300);
    assert!(matches!(r, Ok(ReportOutcome::DayMet(_))));
    assert_eq!(w.goal.days_completed, 2);
}

#[test]
fn five_day_goal_with_four_compliant_days_completes() {
    let start = 1_000_000;
    let mut w = staked_world(start);
    for day in 0..4 {
        let r = report_daily_usage(&mut w.goal, w.goal_addr, w.user, 50, day, start + 100 + day);
        assert!(matches!(r, Ok(ReportOutcome::DayMet(_))));
    }
    assert_eq!(w.goal.days_completed, 4);
    let r = finalize_goal(
        &mut w.goal,
        w.goal_addr,
        &mut w.profile,
        &mut w.program,
        &mut w.escrow,
        &mut w.user_tok,
        &mut w.pool,
        start + 432000,
    );
    match r {
        Ok(FinalizeOutcome::Completed(ev)) => {
            assert_eq!(ev.stake_returned, 1000);
            assert_eq!(ev.days_completed, 4);
        }
        other => panic!("expected completion, got {:?}", other),
    }
    assert_eq!(w.goal.status, GoalStatus::Completed);
    assert_eq!(w.escrow.amount, 0);
    assert_eq!(w.user_tok.amount, 5000);
    assert_eq!(w.pool.amount, 0);
    assert_eq!(w.profile.goals_completed, 1);
    assert_eq!(w.profile.current_streak, 1);
    assert_eq!(w.program.total_goals_completed, 1);
    assert_eq!(w.profile.last_activity, start + 432000);
}

#[test]
fn five_day_goal_with_three_compliant_days_fails() {
    let start = 1_000_000;
    let mut w = staked_world(start);
    for day in 0..3 {
        let r = report_daily_usage(&mut w.goal, w.goal_addr, w.user, 50, day, start + 100 + day);
        assert!(matches!(r, Ok(ReportOutcome::DayMet(_))));
    }
    assert_eq!(w.goal.days_completed, 3);
    let r = finalize_goal(
        &mut w.goal,
        w.goal_addr,
        &mut w.profile,
        &mut w.program,
        &mut w.escrow,
        &mut w.user_tok,
        &mut w.pool,
        start + 432001,
    );
    match r {
        Ok(FinalizeOutcome::Failed(ev)) => {
            assert_eq!(ev.stake_forfeited, 1000);
            assert_eq!(ev.days_completed, 3);
        }
        other => panic!("expected failure, got {:?}", other),
    }
    assert_eq!(w.goal.status, GoalStatus::Failed);
    assert_eq!(w.escrow.amount, 0);
    assert_eq!(w.user_tok.amount, 4000);
    assert_eq!(w.pool.amount, 1000);
    assert_eq!(w.profile.goals_failed, 1);
    assert_eq!(w.profile.current_streak, 0);
    assert_eq!(w.program.total_goals_failed, 1);
}

#[test]
fn finalize_before_end_time_changes_nothing() {
    let start = 1_000_000;
    let mut w = staked_world(start);
    let goal_before = w.goal;
    let profile_before = w.profile;
    let program_before = w.program;
    let r = finalize_goal(
        &mut w.goal,
        w.goal_addr,
        &mut w.profile,
        &mut w.program,
        &mut w.escrow,
        &mut w.user_tok,
        &mut w.pool,
        start + 431999,
    );
    assert_eq!(r, Err(DetoxError::GoalNotExpired));
    assert_eq!(w.goal, goal_before);
    assert_eq!(w.profile, profile_before);
    assert_eq!(w.program, program_before);
    assert_eq!(w.escrow.amount, 1000);
    assert_eq!(w.user_tok.amount, 4000);
    assert_eq!(w.pool.amount, 0);
}

#[test]
fn second_finalize_is_rejected_without_second_transfer() {
    let start = 1_000_000;
    let mut w = staked_world(start);
    for day in 0..4 {
        report_daily_usage(&mut w.goal, w.goal_addr, w.user, 50, day, start + 100 + day)
            .expect("report accepted");
    }
    let r = finalize_goal(
        &mut w.goal,
        w.goal_addr,
        &mut w.profile,
        &mut w.program,
        &mut w.escrow,
        &mut w.user_tok,
        &mut w.pool,
        start + 432000,
    );
    assert!(matches!(r, Ok(FinalizeOutcome::Completed(_))));
    assert_eq!(w.user_tok.amount, 5000);
    let r = finalize_goal(
        &mut w.goal,
        w.goal_addr,
        &mut w.profile,
        &mut w.program,
        &mut w.escrow,
        &mut w.user_tok,
        &mut w.pool,
        start + 500000,
    );
    assert_eq!(r, Err(DetoxError::GoalNotActive));
    assert_eq!(w.user_tok.amount, 5000);
    assert_eq!(w.escrow.amount, 0);
    assert_eq!(w.pool.amount, 0);
    assert_eq!(w.program.total_goals_completed, 1);
    assert_eq!(w.profile.goals_completed, 1);
}

#[test]
fn beneficiary_receives_stake_when_staking_for_another() {
    let start = 2_000_000;
    let staker = id(3);
    let beneficiary = id(8);
    let goal_addr = id(4);
    let mut program = initialize_program(id(1), id(2), 254);
    let mut profile = create_user_profile(beneficiary, start);
    let mut staker_tok = TokenAccount { amount: 900 };
    let mut beneficiary_tok = TokenAccount { amount: 10 };
    let mut escrow = TokenAccount { amount: 0 };
    let mut pool = TokenAccount { amount: 0 };
    let (mut goal, _) = stake_for_goal(
        goal_addr,
        staker,
        &mut profile,
        &mut program,
        &mut staker_tok,
        &mut escrow,
        9,
        900,
        30,
        1,
        Some(beneficiary),
        start,
    )
    .expect("valid stake is accepted");
    // the beneficiary may report on their own goal
    let r = report_daily_usage(&mut goal, goal_addr, beneficiary, 10, 0, start + 10);
    assert!(matches!(r, Ok(ReportOutcome::DayMet(_))));
    let r = finalize_goal(
        &mut goal,
        goal_addr,
        &mut profile,
        &mut program,
        &mut escrow,
        &mut beneficiary_tok,
        &mut pool,
        start + 86400,
    );
    assert!(matches!(r, Ok(FinalizeOutcome::Completed(_))));
    assert_eq!(beneficiary_tok.amount, 910);
    assert_eq!(staker_tok.amount, 0);
    assert_eq!(escrow.amount, 0);
}

#[test]
fn streaks_accumulate_and_reset() {
    let user = id(3);
    let mut program = initialize_program(id(1), id(2), 254);
    let mut profile = create_user_profile(user, 0);
    let mut pool = TokenAccount { amount: 0 };
    let mut user_tok = TokenAccount { amount: 10_000 };
    // four consecutive completed one-day goals; a one-day goal has a
    // threshold of floor(1 * 0.8) = 0, so it completes even with no
    // compliant day reported
    assert_eq!(detox_mine::state::compute_success_threshold(1), 0);
    for round in 0..4 {
        let start = 1_000_000 + round * 1_000_000;
        let goal_addr = id(100 + round as u128);
        let mut escrow = TokenAccount { amount: 0 };
        let (mut goal, _) = stake_for_goal(
            goal_addr,
            user,
            &mut profile,
            &mut program,
            &mut user_tok,
            &mut escrow,
            9,
            100,
            60,
            1,
            None,
            start,
        )
        .expect("valid stake is accepted");
        if round < 3 {
            report_daily_usage(&mut goal, goal_addr, user, 5, 0, start + 10)
                .expect("report accepted");
        }
        let r = finalize_goal(
            &mut goal,
            goal_addr,
            &mut profile,
            &mut program,
            &mut escrow,
            &mut user_tok,
            &mut pool,
            start + 86400,
        );
        assert!(matches!(r, Ok(FinalizeOutcome::Completed(_))));
    }
    assert_eq!(profile.goals_completed, 4);
    assert_eq!(profile.current_streak, 4);
    assert_eq!(profile.longest_streak, 4);
    // now a goal that fails: duration 5, no reports
    let start = 9_000_000;
    let goal_addr = id(200);
    let mut escrow = TokenAccount { amount: 0 };
    let (mut goal, _) = stake_for_goal(
        goal_addr,
        user,
        &mut profile,
        &mut program,
        &mut user_tok,
        &mut escrow,
        9,
        100,
        60,
        5,
        None,
        start,
    )
    .expect("valid stake is accepted");
    let r = finalize_goal(
        &mut goal,
        goal_addr,
        &mut profile,
        &mut program,
        &mut escrow,
        &mut user_tok,
        &mut pool,
        start + 432000,
    );
    assert!(matches!(r, Ok(FinalizeOutcome::Failed(_))));
    assert_eq!(profile.current_streak, 0);
    assert_eq!(profile.longest_streak, 4);
    assert_eq!(profile.goals_failed, 1);
}

#[test]
fn three_consecutive_completions_make_a_streak_of_three() {
    let user = id(3);
    let mut program = initialize_program(id(1), id(2), 254);
    let mut profile = create_user_profile(user, 0);
    let mut pool = TokenAccount { amount: 0 };
    let mut user_tok = TokenAccount { amount: 10_000 };
    for round in 0..3 {
        let start = 1_000_000 + round * 1_000_000;
        let goal_addr = id(300 + round as u128);
        let mut escrow = TokenAccount { amount: 0 };
        let (mut goal, _) = stake_for_goal(
            goal_addr,
            user,
            &mut profile,
            &mut program,
            &mut user_tok,
            &mut escrow,
            9,
            100,
            60,
            5,
            None,
            start,
        )
        .expect("valid stake is accepted");
        for day in 0..4 {
            report_daily_usage(&mut goal, goal_addr, user, 5, day, start + 100 + day)
                .expect("report accepted");
        }
        let r = finalize_goal(
            &mut goal,
            goal_addr,
            &mut profile,
            &mut program,
            &mut escrow,
            &mut user_tok,
            &mut pool,
            start + 432000,
        );
        assert!(matches!(r, Ok(FinalizeOutcome::Completed(_))));
        assert_eq!(profile.current_streak, round as u32 + 1);
    }
    assert_eq!(profile.current_streak, 3);
    assert_eq!(profile.longest_streak, 3);
}
