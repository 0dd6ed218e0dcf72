use ftp_paperless_bridge::observer::{
    await_completion, classify, judge_tick, Outcome, Policy, Progress, Tick,
};

fn tick(status: &str, elapsed_ms: u64) -> Tick {
    Tick { status: Some(status.to_string()), elapsed_ms }
}

#[test]
fn standard_policy_is_one_second_for_ten() {
    let policy = Policy::standard();
    assert_eq!(policy.poll_interval_ms, 1000);
    assert_eq!(policy.max_wait_ms, 10000);
}

#[test]
fn statuses_are_read_exactly() {
    assert_eq!(classify("STARTED"), Progress::Started);
    assert_eq!(classify("FAILURE"), Progress::Failed);
    assert_eq!(classify("REVOKED"), Progress::Failed);
    assert_eq!(classify("PENDING"), Progress::InProgress);
    assert_eq!(classify("SUCCESS"), Progress::InProgress);
    assert_eq!(classify("started"), Progress::InProgress);
    assert_eq!(classify(""), Progress::InProgress);
}

#[test]
fn pending_pending_started_succeeds_at_the_third_poll() {
    let policy = Policy::standard();
    let ticks = vec![tick("PENDING", 1000), tick("PENDING", 2000), tick("STARTED", 3000)];
    let seen = await_completion(&policy, &ticks);
    assert_eq!(seen.outcome, Some(Outcome::Success));
    assert_eq!(seen.polls, 3);
}

#[test]
fn nothing_is_decided_before_the_third_poll() {
    let policy = Policy::standard();
    let ticks = vec![tick("PENDING", 1000), tick("PENDING", 2000)];
    let seen = await_completion(&policy, &ticks);
    assert_eq!(seen.outcome, None);
    assert_eq!(seen.polls, 2);
}

#[test]
fn pending_past_the_wait_times_out() {
    let policy = Policy::standard();
    let mut ticks = Vec::new();
    let mut i: u64 = 1;
    while i <= 20 {
        ticks.push(tick("PENDING", i * 1000));
        i += 1;
    }
    let seen = await_completion(&policy, &ticks);
    assert_eq!(seen.outcome, Some(Outcome::Timeout));
    assert_eq!(seen.polls, 11);
}

#[test]
fn the_wait_itself_is_still_in_time() {
    let policy = Policy::standard();
    assert_eq!(judge_tick(&policy, &tick("PENDING", 10000)), None);
    assert_eq!(judge_tick(&policy, &tick("PENDING", 10001)), Some(Outcome::Timeout));
}

#[test]
fn failure_on_the_first_poll_fails_after_one_poll() {
    let policy = Policy::standard();
    let ticks = vec![tick("FAILURE", 1000), tick("STARTED", 2000)];
    let seen = await_completion(&policy, &ticks);
    assert_eq!(seen.outcome, Some(Outcome::Failure));
    assert_eq!(seen.polls, 1);
}

#[test]
fn revoked_fails() {
    let policy = Policy::standard();
    let ticks = vec![tick("PENDING", 1000), tick("REVOKED", 2000)];
    let seen = await_completion(&policy, &ticks);
    assert_eq!(seen.outcome, Some(Outcome::Failure));
    assert_eq!(seen.polls, 2);
}

#[test]
fn fetch_error_fails() {
    let policy = Policy::standard();
    let ticks = vec![tick("PENDING", 1000), Tick { status: None, elapsed_ms: 2000 }];
    let seen = await_completion(&policy, &ticks);
    assert_eq!(seen.outcome, Some(Outcome::Failure));
    assert_eq!(seen.polls, 2);
}

#[test]
fn status_is_read_before_the_clock() {
    let policy = Policy::standard();
    assert_eq!(judge_tick(&policy, &tick("STARTED", 60000)), Some(Outcome::Success));
    assert_eq!(judge_tick(&policy, &tick("FAILURE", 60000)), Some(Outcome::Failure));
}

#[test]
fn unknown_status_keeps_waiting_then_times_out() {
    let policy = Policy { poll_interval_ms: 500, max_wait_ms: 1200 };
    let ticks = vec![tick("RETRY", 500), tick("RECEIVED", 1000), tick("SUCCESS", 1500)];
    let seen = await_completion(&policy, &ticks);
    assert_eq!(seen.outcome, Some(Outcome::Timeout));
    assert_eq!(seen.polls, 3);
}

#[test]
fn empty_history_decides_nothing() {
    let seen = await_completion(&Policy::standard(), &Vec::new());
    assert_eq!(seen.outcome, None);
    assert_eq!(seen.polls, 0);
}
