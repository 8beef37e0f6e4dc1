use harmonizer::eq::EqState;
use harmonizer::ramp::{RampSequencer, RAMP_STEPS};

#[test]
fn band5_counts_down_to_zero_in_exactly_12_steps() {
    let mut sequencer = RampSequencer::new();
    let mut band5_levels: Vec<u8> = Vec::new();
    for _ in 0..RAMP_STEPS {
        for w in sequencer.tick() {
            if w.band == 5 {
                band5_levels.push(w.level);
            }
        }
    }
    assert_eq!(band5_levels, vec![11, 10, 9, 8, 7, 6, 5, 4, 3, 2, 1, 0]);
}

#[test]
fn slow_bands_count_down_to_zero_in_exactly_24_steps() {
    let mut sequencer = RampSequencer::new();
    let mut band4_levels: Vec<u8> = Vec::new();
    let mut band3_levels: Vec<u8> = Vec::new();
    let mut band4_steps: Vec<u32> = Vec::new();
    let mut step: u32 = 0;
    for _ in 0..RAMP_STEPS {
        step += 1;
        for w in sequencer.tick() {
            if w.band == 4 {
                band4_levels.push(w.level);
                band4_steps.push(step);
            }
            if w.band == 3 {
                band3_levels.push(w.level);
            }
        }
    }
    let expected: Vec<u8> = vec![11, 10, 9, 8, 7, 6, 5, 4, 3, 2, 1, 0];
    assert_eq!(band4_levels, expected);
    assert_eq!(band3_levels, expected);
    // writes land on every second step, the last one (level 0) on step 24
    let expected_steps: Vec<u32> = (1..=12).map(|k| 2 * k).collect();
    assert_eq!(band4_steps, expected_steps);
}

#[test]
fn no_band_is_written_after_it_reached_zero() {
    let mut sequencer = RampSequencer::new();
    for step in 1..=(RAMP_STEPS as u32) {
        let writes = sequencer.tick();
        if step > 12 {
            assert!(writes.iter().all(|w| w.band != 5));
        }
        if step > 24 {
            assert!(writes.is_empty());
        }
    }
    assert!(sequencer.is_done());
}

#[test]
fn ramp_applied_to_state_fades_all_three_bands_out() {
    let mut sequencer = RampSequencer::new();
    let mut eq = EqState::new();
    for _ in 0..RAMP_STEPS {
        for w in sequencer.tick() {
            eq.apply(w);
        }
    }
    assert_eq!(eq.level(5), 0);
    assert_eq!(eq.level(4), 0);
    assert_eq!(eq.level(3), 0);
    // the coloration bands are untouched by the fade-in
    assert_eq!(eq.level(1), 12);
    assert_eq!(eq.level(2), 12);
}
