use physics_instruments::guitar::groove::{GrooveAction, GroovePattern, GrooveSequencer};
use physics_instruments::guitar::noise::Xorshift64;
use physics_instruments::guitar::strummer::StrumDirection;

#[test]
fn test_groove_pattern_from_index() {
    assert_eq!(GroovePattern::from_index(0), GroovePattern::Off);
    assert_eq!(GroovePattern::from_index(1), GroovePattern::FolkStrum44);
    assert_eq!(GroovePattern::from_index(2), GroovePattern::BalladArp68);
    assert_eq!(GroovePattern::from_index(3), GroovePattern::Funk16th);
    assert_eq!(GroovePattern::from_index(4), GroovePattern::RockChug8th);
    assert_eq!(GroovePattern::from_index(5), GroovePattern::Off);
    assert_eq!(GroovePattern::from_index(-1), GroovePattern::Off);
}

#[test]
fn test_groove_bar_lengths_and_subdivisions() {
    assert_eq!(GroovePattern::FolkStrum44.steps_per_bar(), 16);
    assert_eq!(GroovePattern::BalladArp68.steps_per_bar(), 6);
    assert_eq!(GroovePattern::Funk16th.steps_per_bar(), 16);
    assert_eq!(GroovePattern::RockChug8th.steps_per_bar(), 8);
    assert_eq!(GroovePattern::Off.subdivisions_per_beat(), 4);
    assert_eq!(GroovePattern::BalladArp68.subdivisions_per_beat(), 3);
    assert_eq!(GroovePattern::RockChug8th.subdivisions_per_beat(), 2);
}

#[test]
fn test_groove_action_tables() {
    assert_eq!(
        GroovePattern::FolkStrum44.action_at(7),
        GrooveAction::Strum { direction: StrumDirection::Up, velocity_percent: 75, palm_mute_percent: None }
    );
    assert_eq!(GroovePattern::FolkStrum44.action_at(1), GrooveAction::Rest);
    assert_eq!(
        GroovePattern::Funk16th.action_at(7),
        GrooveAction::Strum { direction: StrumDirection::Down, velocity_percent: 50, palm_mute_percent: Some(90) }
    );
    assert_eq!(
        GroovePattern::BalladArp68.action_at(3),
        GrooveAction::PluckString { string_rel_index: 3, velocity_percent: 85 }
    );
    for step in 0..8 {
        match GroovePattern::RockChug8th.action_at(step) {
            GrooveAction::Strum { direction, palm_mute_percent, .. } => {
                assert_eq!(direction, StrumDirection::Down);
                assert_eq!(palm_mute_percent, Some(70));
            }
            other => panic!("rock chug step {} is {:?}", step, other),
        }
    }
    assert_eq!(
        GroovePattern::RockChug8th.action_at(4),
        GrooveAction::Strum { direction: StrumDirection::Down, velocity_percent: 92, palm_mute_percent: Some(70) }
    );
    assert_eq!(GroovePattern::Off.action_at(0), GrooveAction::Rest);
}

#[test]
fn test_sequencer_minimum_interval() {
    let seq = GrooveSequencer::new(50);
    assert_eq!(seq.samples_per_subdivision(), 100);
    assert_eq!(seq.next_step_samples(), 100);
    let seq = GrooveSequencer::new(5513);
    assert_eq!(seq.samples_per_subdivision(), 5513);
    assert_eq!(seq.pattern(), GroovePattern::Off);
}

#[test]
fn test_sequencer_off_never_steps() {
    let mut seq = GrooveSequencer::new(100);
    for _ in 0..1000 {
        assert!(!seq.tick());
    }
}

#[test]
fn test_sequencer_steps_every_interval() {
    let mut seq = GrooveSequencer::new(120);
    assert!(seq.set_pattern(GroovePattern::FolkStrum44));
    assert!(!seq.set_pattern(GroovePattern::FolkStrum44));
    seq.set_subdivision(120);
    for _ in 0..119 {
        assert!(!seq.tick());
    }
    assert!(seq.tick());
    let action = seq.fire(130);
    assert_eq!(
        action,
        GrooveAction::Strum { direction: StrumDirection::Down, velocity_percent: 95, palm_mute_percent: None }
    );
    assert_eq!(seq.step_index(), 1);
    assert_eq!(seq.next_step_samples(), 130);
    for _ in 0..129 {
        assert!(!seq.tick());
    }
    assert!(seq.tick());
    // interval below the floor is raised to 100 samples
    assert_eq!(seq.fire(-5), GrooveAction::Rest);
    assert_eq!(seq.next_step_samples(), 100);
}

#[test]
fn test_sequencer_bar_wraps() {
    let mut seq = GrooveSequencer::new(100);
    seq.set_pattern(GroovePattern::BalladArp68);
    let mut plucked = Vec::new();
    for _ in 0..7 {
        match seq.fire(100) {
            GrooveAction::PluckString { string_rel_index, .. } => plucked.push(string_rel_index),
            other => panic!("unexpected {:?}", other),
        }
    }
    assert_eq!(plucked, vec![0, 1, 2, 3, 2, 1, 0]);
    assert_eq!(seq.step_index(), 1);
    seq.reset();
    assert_eq!(seq.step_index(), 0);
}

#[test]
fn test_pattern_change_restarts_bar() {
    let mut seq = GrooveSequencer::new(100);
    seq.set_pattern(GroovePattern::Funk16th);
    seq.fire(100);
    seq.fire(100);
    assert_eq!(seq.step_index(), 2);
    assert!(seq.set_pattern(GroovePattern::RockChug8th));
    assert_eq!(seq.step_index(), 0);
}

#[test]
fn test_xorshift_sequences() {
    let mut seq = GrooveSequencer::new(100);
    assert_eq!(seq.next_random(), 15928067941707021170);
    assert_eq!(seq.next_random(), 4628789623893266436);
    let mut rng = Xorshift64::new(1);
    assert_eq!(rng.next_u64(), 1082269761);
    assert_eq!(rng.state(), 1082269761);
}

#[test]
fn test_set_pattern_keeps_timing_and_randomness() {
    let mut a = GrooveSequencer::new(300);
    let mut b = GrooveSequencer::new(300);
    assert!(a.set_pattern(GroovePattern::RockChug8th));
    // changing the pattern does not reseed the humanizing generator
    assert_eq!(a.next_random(), b.next_random());
    // nor shorten the step interval: 299 ticks pass before the next step
    let mut due = 0;
    for _ in 0..300 {
        if a.tick() {
            due += 1;
        }
    }
    assert_eq!(due, 1);
}
