use totp_cli::pacing::Pacer;

#[test]
fn poll_timeout_is_what_is_left_of_the_interval() {
    let pacer = Pacer::new(1_000);
    assert_eq!(pacer.last_tick, 1_000);
    assert_eq!(pacer.poll_timeout(1_000), 200);
    assert_eq!(pacer.poll_timeout(1_050), 150);
    assert_eq!(pacer.poll_timeout(1_199), 1);
    assert_eq!(pacer.poll_timeout(1_200), 0);
    assert_eq!(pacer.poll_timeout(5_000), 0);
    assert_eq!(pacer.poll_timeout(u64::MAX), 0);
}

#[test]
fn poll_timeout_takes_a_clock_that_went_back() {
    let pacer = Pacer::new(1_000);
    assert_eq!(pacer.poll_timeout(999), 200);
    assert_eq!(pacer.poll_timeout(0), 200);
    assert!(!pacer.tick_due(0));
}

#[test]
fn tick_is_due_after_a_full_interval() {
    let pacer = Pacer::new(1_000);
    assert!(!pacer.tick_due(1_000));
    assert!(!pacer.tick_due(1_199));
    assert!(pacer.tick_due(1_200));
    assert!(pacer.tick_due(9_999));
    let late = Pacer::new(u64::MAX);
    assert!(!late.tick_due(u64::MAX));
    assert_eq!(late.poll_timeout(u64::MAX), 200);
}

#[test]
fn mark_tick_starts_the_next_interval() {
    let mut pacer = Pacer::new(0);
    assert!(pacer.tick_due(230));
    pacer.mark_tick(230);
    assert_eq!(pacer.last_tick, 230);
    assert!(!pacer.tick_due(429));
    assert_eq!(pacer.poll_timeout(300), 130);
    assert!(pacer.tick_due(430));
}

#[test]
fn waiting_for_the_timeout_makes_the_tick_due() {
    let pacer = Pacer::new(700);
    for now in 700..1_000u64 {
        let timeout = pacer.poll_timeout(now);
        assert!(pacer.tick_due(now + timeout));
        if timeout > 0 {
            assert!(!pacer.tick_due(now + timeout - 1));
        }
        assert_eq!(timeout == 0, pacer.tick_due(now));
    }
}
