use yarden::{interval_millis, Pacer, TransportState};

#[test]
fn interval_exact_values() {
    // fps 25 at normal speed: 40 ms between frames
    assert_eq!(interval_millis(25, 100), 40);
    // fps 20 at double speed: 25 ms
    assert_eq!(interval_millis(20, 200), 25);
    // fps 20 at half speed: 100 ms
    assert_eq!(interval_millis(20, 50), 100);
    // fps 10 at normal speed: 100 ms
    assert_eq!(interval_millis(10, 100), 100);
}

#[test]
fn not_due_before_interval_due_after() {
    let mut p = Pacer::new(25, 0);
    let t = TransportState::new();
    assert!(!p.poll_due(0, &t));
    assert!(!p.poll_due(20, &t));
    assert!(!p.poll_due(39, &t));
    assert!(p.poll_due(40, &t));
    assert!(p.poll_due(45, &t));
}

#[test]
fn not_due_immediately_after_mark() {
    let mut p = Pacer::new(25, 0);
    let t = TransportState::new();
    p.mark_released(100);
    assert!(!p.poll_due(100, &t));
    assert!(!p.poll_due(139, &t));
    assert!(p.poll_due(140, &t));
}

#[test]
fn pause_freezes_and_resume_continues() {
    // fps 25: a 40 ms interval. Pause 20 ms in, resume at 5000 ms:
    // the release falls due at 5020, not 5040, and not at 5000.
    let mut p = Pacer::new(25, 0);
    let mut t = TransportState::new();
    assert!(!p.poll_due(10, &t));
    t.toggle_pause();
    assert!(!p.poll_due(20, &t));
    // while paused, no elapsed time makes a frame due
    assert!(!p.poll_due(1_000, &t));
    assert!(!p.poll_due(4_000, &t));
    t.toggle_pause();
    assert!(!p.poll_due(5_000, &t));
    assert!(!p.poll_due(5_019, &t));
    assert!(p.poll_due(5_020, &t));
}

#[test]
fn due_stays_false_while_paused_however_long() {
    let mut p = Pacer::new(25, 0);
    let mut t = TransportState::new();
    t.toggle_pause();
    assert!(!p.poll_due(40, &t));
    assert!(!p.poll_due(1_000_000, &t));
    assert!(!p.poll_due(u64::MAX, &t));
}

#[test]
fn speed_changes_effective_interval() {
    // fps 20: double speed releases every 25 ms, half speed every 100 ms
    let mut p = Pacer::new(20, 0);
    let mut t = TransportState::new();
    t.set_speed(100); // 100 -> 200 hundredths: double speed
    assert!(!p.poll_due(24, &t));
    assert!(p.poll_due(25, &t));
    p.mark_released(25);
    t.set_speed(-150); // 200 -> 50 hundredths: half speed
    assert!(!p.poll_due(124, &t));
    assert!(p.poll_due(125, &t));
}

#[test]
fn negative_speed_delta_clamps_at_zero() {
    let mut p = Pacer::new(20, 0);
    let mut t = TransportState::new();
    t.set_speed(-150); // 100 - 150 clamps to 0, never inverting playback
    assert_eq!(t.speed_percent, 0);
    // with the speed floored at zero nothing ever falls due
    assert!(!p.poll_due(1_000_000, &t));
    t.set_speed(25);
    assert_eq!(t.speed_percent, 25);
}

#[test]
fn average_rate_tracks_fps() {
    // fps 25, polled every millisecond for one second: exactly 25 releases
    let mut p = Pacer::new(25, 0);
    let t = TransportState::new();
    let mut releases: u32 = 0;
    for now in 0..=1000u64 {
        if p.poll_due(now, &t) {
            releases += 1;
            p.mark_released(now);
        }
    }
    assert_eq!(releases, 25);
}

#[test]
fn stall_does_not_compound() {
    // fps 25; a 200 ms scheduling stall costs only the releases of that
    // window: the schedule resumes from the release instants themselves
    let mut p = Pacer::new(25, 0);
    let t = TransportState::new();
    let mut releases: u32 = 0;
    let mut now: u64 = 0;
    while now <= 1000 {
        if p.poll_due(now, &t) {
            releases += 1;
            p.mark_released(now);
        }
        // inject a stall: no polls between 400 and 600
        now = if now == 400 { 600 } else { now + 1 };
    }
    // ideal is 25; the 200 ms gap forfeits at most 5
    assert!(releases >= 20);
    assert!(releases <= 25);
}
