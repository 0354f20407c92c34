use vpp_sim::sim::clock::Clock;

#[test]
fn test_new_clock() {
    let clock = Clock::new(5);
    assert_eq!(clock.current, 0);
    assert_eq!(clock.total, 5);
}

#[test]
fn test_tick() {
    let mut clock = Clock::new(2);
    assert_eq!(clock.tick(), Some(0));
    assert_eq!(clock.tick(), Some(1));
    assert_eq!(clock.tick(), None);
}

#[test]
fn test_run() {
    let mut clock = Clock::new(3);

    let steps = clock.run();

    assert_eq!(steps, vec![0, 1, 2]);
}

#[test]
fn test_empty_clock() {
    let mut clock = Clock::new(0);
    assert_eq!(clock.tick(), None);

    let steps = clock.run();
    assert!(steps.is_empty());
}
