use opendeck::bpm::Bpm;

#[test]
fn test_default_bpm_is_120() {
    let bpm = Bpm::default();
    assert_eq!(bpm.get(), 120);
}

#[test]
fn bpm_test_increment() {
    let mut bpm = Bpm::new(120);
    bpm.increment();
    assert_eq!(bpm.get(), 121);
}

#[test]
fn test_decrement() {
    let mut bpm = Bpm::new(120);
    bpm.decrement();
    assert_eq!(bpm.get(), 119);
}

#[test]
fn test_clamps_at_max() {
    let mut bpm = Bpm::new(300);
    bpm.increment();
    assert_eq!(bpm.get(), 300);
}

#[test]
fn test_clamps_at_min() {
    let mut bpm = Bpm::new(30);
    bpm.decrement();
    assert_eq!(bpm.get(), 30);
}

#[test]
fn test_new_clamps_out_of_range() {
    assert_eq!(Bpm::new(0).get(), 30);
    assert_eq!(Bpm::new(500).get(), 300);
}

#[test]
fn test_tick_interval_at_120_bpm() {
    // 60_000_000 / (120 * 24) = 20833
    let bpm = Bpm::new(120);
    assert_eq!(bpm.tick_interval_us(), 20833);
}

#[test]
fn test_tick_interval_at_60_bpm() {
    // 60_000_000 / (60 * 24) = 41666
    let bpm = Bpm::new(60);
    assert_eq!(bpm.tick_interval_us(), 41666);
}

#[test]
fn bpm_set_clamps_and_keeps_in_range() {
    let mut bpm = Bpm::new(200);
    bpm.set(10);
    assert_eq!(bpm.get(), 30);
    bpm.set(1000);
    assert_eq!(bpm.get(), 300);
    bpm.set(77);
    assert_eq!(bpm.get(), 77);
    assert_eq!(Bpm::new(300).tick_interval_us(), 8333);
    assert_eq!(Bpm::new(30).tick_interval_us(), 83333);
}
