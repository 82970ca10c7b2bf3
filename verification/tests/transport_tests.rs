use yarden::TransportState;

#[test]
fn starts_running_at_nominal_levels() {
    let t = TransportState::new();
    assert!(!t.paused);
    assert_eq!(t.speed_percent, 100);
    assert_eq!(t.volume_percent, 100);
    assert!(!t.muted);
}

#[test]
fn toggle_pause_flips_only_the_gate() {
    let mut t = TransportState::new();
    t.toggle_pause();
    assert!(t.paused);
    assert_eq!(t.speed_percent, 100);
    t.toggle_pause();
    assert!(!t.paused);
}

#[test]
fn volume_adjusts_and_clamps_at_zero() {
    let mut t = TransportState::new();
    t.set_volume(25);
    assert_eq!(t.volume_percent, 125);
    t.set_volume(-200);
    assert_eq!(t.volume_percent, 0);
    t.set_volume(25);
    assert_eq!(t.volume_percent, 25);
}

#[test]
fn mute_zeroes_effective_volume_without_losing_the_setting() {
    let mut t = TransportState::new();
    t.set_volume(-50);
    assert_eq!(t.effective_volume(), 50);
    t.toggle_mute();
    assert_eq!(t.effective_volume(), 0);
    assert_eq!(t.volume_percent, 50);
    t.toggle_mute();
    assert_eq!(t.effective_volume(), 50);
}
