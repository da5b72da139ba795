use eliza_supervisor::readiness::{
    backoff_delay, wait_for_server, ReadinessWait, WaitAction, WaitReport, BACKOFF_CAP_SECS,
    PROBE_ADDRESS, READINESS_ATTEMPTS,
};

fn drive(max_attempts: u32, results: &[bool]) -> (bool, Vec<WaitAction>, ReadinessWait) {
    let mut wait = ReadinessWait::begin(max_attempts);
    let mut actions = Vec::new();
    loop {
        let action = wait.action();
        actions.push(action);
        match action {
            WaitAction::Check => {
                let check = wait.checks() as usize;
                wait.checked(check < results.len() && results[check]);
            }
            WaitAction::Sleep(_) => wait.slept(),
            WaitAction::Finished(ready) => return (ready, actions, wait),
        }
    }
}

#[test]
fn endpoint_and_attempts_are_the_expected_ones() {
    assert_eq!(PROBE_ADDRESS, "127.0.0.1:3000");
    assert_eq!(READINESS_ATTEMPTS, 10);
    assert_eq!(BACKOFF_CAP_SECS, 8);
}

#[test]
fn backoff_doubles_up_to_the_cap() {
    let delays: Vec<u64> = (0..8).map(backoff_delay).collect();
    assert_eq!(delays, vec![1, 2, 4, 8, 8, 8, 8, 8]);
    assert_eq!(backoff_delay(63), 8);
    assert_eq!(backoff_delay(64), 8);
    assert_eq!(backoff_delay(u32::MAX), 8);
}

#[test]
fn wait_that_never_succeeds_makes_every_check_and_sleeps_after_each() {
    let report = wait_for_server(10, &vec![false; 10]);
    assert_eq!(report, WaitReport { ready: false, checks: 10, slept_secs: 1 + 2 + 4 + 8 * 7 });
    assert_eq!(report.slept_secs, 63);
}

#[test]
fn wait_succeeds_at_the_first_check_without_sleeping() {
    let report = wait_for_server(10, &vec![true]);
    assert_eq!(report, WaitReport { ready: true, checks: 1, slept_secs: 0 });
}

#[test]
fn wait_succeeds_at_the_first_successful_check() {
    let report = wait_for_server(10, &vec![false, false, false, true, false, true]);
    assert_eq!(report, WaitReport { ready: true, checks: 4, slept_secs: 7 });
    let report = wait_for_server(10, &vec![false, true, true]);
    assert_eq!(report, WaitReport { ready: true, checks: 2, slept_secs: 1 });
}

#[test]
fn wait_succeeds_at_the_last_allowed_check() {
    let mut results = vec![false; 9];
    results.push(true);
    let report = wait_for_server(10, &results);
    assert_eq!(report, WaitReport { ready: true, checks: 10, slept_secs: 1 + 2 + 4 + 8 * 6 });
}

#[test]
fn wait_does_not_look_beyond_the_allowed_checks() {
    let report = wait_for_server(3, &vec![false, false, false, true]);
    assert_eq!(report, WaitReport { ready: false, checks: 3, slept_secs: 7 });
}

#[test]
fn wait_with_no_check_allowed_ends_at_once() {
    assert_eq!(wait_for_server(0, &vec![true]), WaitReport { ready: false, checks: 0, slept_secs: 0 });
    let (ready, actions, wait) = drive(0, &[true]);
    assert!(!ready);
    assert_eq!(actions, vec![WaitAction::Finished(false)]);
    assert_eq!(wait.checks(), 0);
}

#[test]
fn wait_takes_missing_results_for_failures() {
    assert_eq!(wait_for_server(2, &vec![]), WaitReport { ready: false, checks: 2, slept_secs: 3 });
    assert_eq!(wait_for_server(1, &vec![]), WaitReport { ready: false, checks: 1, slept_secs: 1 });
}

#[test]
fn wait_stays_within_its_bounds_for_every_limit() {
    let mut bound: u64 = 0;
    for n in 0..40u32 {
        let report = wait_for_server(n, &vec![false; n as usize]);
        assert!(!report.ready);
        assert_eq!(report.checks, n);
        assert_eq!(report.slept_secs, bound);
        for first in 0..n {
            let mut results = vec![false; n as usize];
            results[first as usize] = true;
            let report = wait_for_server(n, &results);
            assert!(report.ready);
            assert_eq!(report.checks, first + 1);
            assert!(report.checks <= n);
            assert!(report.slept_secs <= bound);
        }
        bound += std::cmp::min(1u64 << std::cmp::min(n, 63), 8);
    }
}

#[test]
fn stepwise_wait_alternates_checks_and_sleeps() {
    let (ready, actions, wait) = drive(4, &[false, false, false, false]);
    assert!(!ready);
    assert_eq!(
        actions,
        vec![
            WaitAction::Check,
            WaitAction::Sleep(1),
            WaitAction::Check,
            WaitAction::Sleep(2),
            WaitAction::Check,
            WaitAction::Sleep(4),
            WaitAction::Check,
            WaitAction::Sleep(8),
            WaitAction::Finished(false),
        ]
    );
    assert_eq!(wait.checks(), 4);
    assert_eq!(wait.slept_secs(), 15);
}

#[test]
fn stepwise_wait_stops_at_the_first_success() {
    let (ready, actions, wait) = drive(10, &[false, false, true]);
    assert!(ready);
    assert_eq!(
        actions,
        vec![
            WaitAction::Check,
            WaitAction::Sleep(1),
            WaitAction::Check,
            WaitAction::Sleep(2),
            WaitAction::Check,
            WaitAction::Finished(true),
        ]
    );
    assert_eq!(wait.checks(), 3);
    assert_eq!(wait.slept_secs(), 3);
}

#[test]
fn stepwise_wait_ignores_reports_that_are_not_due() {
    let mut wait = ReadinessWait::begin(2);
    wait.slept();
    assert_eq!(wait.action(), WaitAction::Check);
    assert_eq!(wait.slept_secs(), 0);
    wait.checked(false);
    wait.checked(true);
    assert_eq!(wait.action(), WaitAction::Sleep(1));
    assert_eq!(wait.checks(), 1);
    wait.slept();
    wait.checked(true);
    assert_eq!(wait.action(), WaitAction::Finished(true));
    wait.checked(false);
    wait.slept();
    assert_eq!(wait.action(), WaitAction::Finished(true));
    assert_eq!(wait.checks(), 2);
    assert_eq!(wait.slept_secs(), 1);
}

#[test]
fn stepwise_wait_and_the_whole_run_agree() {
    for n in 0..6u32 {
        for pattern in 0..64u32 {
            let results: Vec<bool> = (0..6).map(|i| pattern & (1 << i) != 0).collect();
            let (ready, _, wait) = drive(n, &results);
            assert_eq!(
                wait_for_server(n, &results),
                WaitReport { ready, checks: wait.checks(), slept_secs: wait.slept_secs() }
            );
        }
    }
}
