use kneplant::policy::{cooldown_over, AutoPolicy, AutoPolicyState, MICROS_PER_SEC};

const SEC: u64 = 1_000_000;

fn hysteresis() -> AutoPolicy {
    AutoPolicy::Hysteresis { low: 750, high: 850, cooldown_secs: 300 }
}

#[test]
fn micros_per_second() {
    assert_eq!(MICROS_PER_SEC, 1_000_000);
}

#[test]
fn policy_starts_armed_and_rested() {
    let state = AutoPolicyState::new();
    assert_eq!(state, AutoPolicyState { can_auto_pump: true, last_auto_activation: None });
    let mut state = state;
    assert!(hysteresis().decide(&mut state, false, 0, 750));
}

#[test]
fn hysteresis_fires_once_then_waits_for_high() {
    let policy = hysteresis();
    let mut state = AutoPolicyState::new();
    assert!(!policy.decide(&mut state, false, 0, 900));
    assert!(state.can_auto_pump);
    assert!(policy.decide(&mut state, false, SEC, 740));
    assert_eq!(state, AutoPolicyState { can_auto_pump: false, last_auto_activation: Some(SEC) });
    assert!(!policy.decide(&mut state, false, 2 * SEC, 740));
    assert!(!state.can_auto_pump);
    assert!(!policy.decide(&mut state, false, 3 * SEC, 900));
    assert_eq!(state, AutoPolicyState { can_auto_pump: true, last_auto_activation: Some(SEC) });
}

#[test]
fn hysteresis_thresholds_are_inclusive() {
    let policy = hysteresis();
    let mut state = AutoPolicyState::new();
    assert!(!policy.decide(&mut state, false, 0, 751));
    assert!(policy.decide(&mut state, false, 0, 750));
    let mut state = AutoPolicyState { can_auto_pump: false, last_auto_activation: None };
    assert!(!policy.decide(&mut state, false, 0, 849));
    assert!(!state.can_auto_pump);
    assert!(!policy.decide(&mut state, false, 0, 850));
    assert!(state.can_auto_pump);
}

#[test]
fn hysteresis_stays_disarmed_however_low_and_however_long() {
    let policy = hysteresis();
    let mut state = AutoPolicyState::new();
    assert!(policy.decide(&mut state, false, SEC, 700));
    for (i, moisture) in [749u16, 500, 100, 0, 849, 1].into_iter().enumerate() {
        let now = SEC + (i as u64 + 1) * 1_000 * SEC;
        assert!(!policy.decide(&mut state, false, now, moisture));
        assert!(!state.can_auto_pump);
        assert_eq!(state.last_auto_activation, Some(SEC));
    }
}

#[test]
fn hysteresis_rests_for_the_cooldown() {
    let policy = hysteresis();
    let mut state = AutoPolicyState::new();
    assert!(policy.decide(&mut state, false, SEC, 740));
    assert!(!policy.decide(&mut state, false, 2 * SEC, 900));
    assert!(state.can_auto_pump);
    assert!(!policy.decide(&mut state, false, 3 * SEC, 740));
    assert!(!policy.decide(&mut state, false, 301 * SEC - 1, 740));
    assert!(state.can_auto_pump);
    assert_eq!(state.last_auto_activation, Some(SEC));
    assert!(policy.decide(&mut state, false, 301 * SEC, 740));
    assert_eq!(
        state,
        AutoPolicyState { can_auto_pump: false, last_auto_activation: Some(301 * SEC) }
    );
}

#[test]
fn hysteresis_does_not_fire_while_the_pump_runs() {
    let policy = hysteresis();
    let mut state = AutoPolicyState::new();
    assert!(!policy.decide(&mut state, true, 0, 100));
    assert_eq!(state, AutoPolicyState::new());
    let mut state = AutoPolicyState { can_auto_pump: false, last_auto_activation: Some(5) };
    assert!(!policy.decide(&mut state, true, 10, 900));
    assert!(state.can_auto_pump);
    assert_eq!(state.last_auto_activation, Some(5));
}

#[test]
fn restart_cooldown_moves_the_clock_and_keeps_the_arming() {
    let policy = hysteresis();
    let mut state = AutoPolicyState::new();
    state.restart_cooldown(10 * SEC);
    assert_eq!(state, AutoPolicyState { can_auto_pump: true, last_auto_activation: Some(10 * SEC) });
    assert!(!policy.decide(&mut state, false, 309 * SEC, 700));
    assert!(policy.decide(&mut state, false, 310 * SEC, 700));
    state.restart_cooldown(320 * SEC);
    assert_eq!(
        state,
        AutoPolicyState { can_auto_pump: false, last_auto_activation: Some(320 * SEC) }
    );
}

#[test]
fn threshold_policy_fires_on_every_low_sample() {
    let policy = AutoPolicy::Threshold { threshold: 670 };
    let mut state = AutoPolicyState::new();
    assert!(policy.decide(&mut state, false, 0, 670));
    assert!(policy.decide(&mut state, false, 1, 670));
    assert!(policy.decide(&mut state, false, 2, 0));
    assert!(!policy.decide(&mut state, false, 3, 671));
    assert!(!policy.decide(&mut state, true, 4, 100));
    assert_eq!(state, AutoPolicyState::new());
    let mut disarmed = AutoPolicyState { can_auto_pump: false, last_auto_activation: Some(2) };
    assert!(policy.decide(&mut disarmed, false, 3, 600));
    assert_eq!(disarmed, AutoPolicyState { can_auto_pump: false, last_auto_activation: Some(2) });
}

#[test]
fn cooldown_is_over_before_any_activation() {
    assert!(cooldown_over(None, 0, 300));
    assert!(cooldown_over(None, 0, u64::MAX));
}

#[test]
fn cooldown_counts_whole_seconds_since_the_restart() {
    assert!(!cooldown_over(Some(7), 7, 1));
    assert!(!cooldown_over(Some(7), 1_000_006, 1));
    assert!(cooldown_over(Some(7), 1_000_007, 1));
    assert!(cooldown_over(Some(0), 300 * SEC, 300));
    assert!(!cooldown_over(Some(0), 300 * SEC - 1, 300));
    assert!(cooldown_over(Some(123), 123, 0));
}

#[test]
fn cooldown_with_a_clock_that_reads_earlier() {
    assert!(!cooldown_over(Some(500 * SEC), 100 * SEC, 300));
    assert!(cooldown_over(Some(500 * SEC), 100 * SEC, 0));
}

#[test]
fn cooldown_at_the_limits_of_the_clock() {
    assert!(!cooldown_over(Some(0), u64::MAX, u64::MAX));
    assert!(cooldown_over(Some(0), u64::MAX, u64::MAX / 1_000_000));
    assert!(!cooldown_over(Some(0), u64::MAX, u64::MAX / 1_000_000 + 1));
    assert!(!cooldown_over(Some(u64::MAX), 0, 1));
}

#[test]
fn policy_is_valid_when_low_is_below_high() {
    assert!(hysteresis().is_valid());
    assert!(AutoPolicy::Hysteresis { low: 0, high: 1, cooldown_secs: 0 }.is_valid());
    assert!(!AutoPolicy::Hysteresis { low: 800, high: 800, cooldown_secs: 300 }.is_valid());
    assert!(!AutoPolicy::Hysteresis { low: 850, high: 750, cooldown_secs: 300 }.is_valid());
    assert!(AutoPolicy::Threshold { threshold: 0 }.is_valid());
    assert!(AutoPolicy::Threshold { threshold: u16::MAX }.is_valid());
}

#[test]
fn no_two_triggers_within_the_cooldown_on_a_long_run() {
    let policy = AutoPolicy::Hysteresis { low: 750, high: 850, cooldown_secs: 60 };
    let mut state = AutoPolicyState::new();
    let mut fired: Vec<u64> = Vec::new();
    for tick in 0..2_000u64 {
        let now = tick * SEC;
        let moisture: u16 = if tick % 7 < 3 { 900 } else { 700 };
        if policy.decide(&mut state, false, now, moisture) {
            fired.push(now);
        }
    }
    assert!(fired.len() > 10);
    for pair in fired.windows(2) {
        assert!(pair[1] - pair[0] >= 60 * SEC);
    }
}
