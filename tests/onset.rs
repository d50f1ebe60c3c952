use graindr::onset::OnsetLatch;

fn run(latch: &mut OnsetLatch, above: &[bool]) -> Vec<bool> {
    above.iter().map(|a| latch.observe(*a)).collect()
}

#[test]
fn impulse_forces_one_restart_per_rise() {
    let mut latch = OnsetLatch::new();
    assert!(latch.engage(4));
    let above = [false, true, true, true, false, false, true, true, false];
    let triggers = run(&mut latch, &above);
    assert_eq!(triggers, vec![false, true, false, false, false, false, true, false, false]);
    assert_eq!(triggers.iter().filter(|t| **t).count(), 2);
}

#[test]
fn held_note_does_not_retrigger() {
    let mut latch = OnsetLatch::new();
    latch.engage(2);
    let triggers = run(&mut latch, &[true; 6]);
    assert_eq!(triggers, vec![true, false, false, false, false, false]);
}

#[test]
fn engage_follows_stretch_factor() {
    let mut latch = OnsetLatch::new();
    assert!(!latch.engage(1));
    assert!(!latch.follower_active);
    assert!(latch.engage(3));
    assert!(latch.follower_active);
    latch.observe(true);
    assert!(latch.note_on);
    // staying engaged keeps the held note
    assert!(!latch.engage(3));
    assert!(latch.note_on);
    // off and on again clears it
    assert!(!latch.engage(1));
    assert!(latch.engage(2));
    assert!(!latch.note_on);
}

#[test]
fn latch_reset_clears_note() {
    let mut latch = OnsetLatch::new();
    latch.engage(4);
    latch.observe(true);
    latch.reset(4);
    assert!(latch.follower_active);
    assert!(!latch.note_on);
    latch.reset(1);
    assert!(!latch.follower_active);
}
