use promg::clock::{default_start, now, yesterday};

#[test]
fn default_start_is_a_day_earlier() {
    assert_eq!(default_start(100_000), 13_600);
    assert_eq!(default_start(86_400), 0);
    assert_eq!(default_start(86_401), 1);
}

#[test]
fn default_start_clamps_at_the_epoch() {
    assert_eq!(default_start(0), 0);
    assert_eq!(default_start(100), 0);
}

#[test]
fn the_clock_has_started() {
    assert!(now() > 0);
    assert!(yesterday() < now() || now() < 86_400);
}
