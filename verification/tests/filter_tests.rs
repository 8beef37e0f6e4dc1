use harmonizer::eq::EqState;
use harmonizer::filter::{
    initial_roi, interrupt_roi, strength_for_distance, ControllerState, DistanceSample,
    RangeStatus,
};

fn valid_sample(distance_mm: u16) -> DistanceSample {
    DistanceSample { distance_mm, status: RangeStatus::Valid }
}

#[test]
fn strength_at_zero_distance_is_zero() {
    assert_eq!(strength_for_distance(0), 0);
}

#[test]
fn strength_just_inside_boundary_is_11() {
    assert_eq!(strength_for_distance(299), 11);
}

#[test]
fn strength_at_and_beyond_boundary_is_12() {
    assert_eq!(strength_for_distance(300), 12);
    assert_eq!(strength_for_distance(301), 12);
    assert_eq!(strength_for_distance(2000), 12);
}

#[test]
fn strength_steps_every_25_mm() {
    assert_eq!(strength_for_distance(24), 0);
    assert_eq!(strength_for_distance(25), 1);
    assert_eq!(strength_for_distance(125), 5);
    assert_eq!(strength_for_distance(275), 11);
}

#[test]
fn invalid_sample_changes_nothing() {
    let mut st = ControllerState::new();
    let r = st.handle_ranging_event(DistanceSample {
        distance_mm: 100,
        status: RangeStatus::Invalid,
    });
    assert!(r.is_none());
    assert!(st.region_flag);
    assert_eq!(st.crossover_floor, 12);
}

#[test]
fn first_event_takes_low_pass_branch() {
    let mut st = ControllerState::new();
    // distance 200 mm -> strength 8
    let resp = st.handle_ranging_event(valid_sample(200)).unwrap();
    let bands: Vec<u8> = resp.writes.iter().map(|w| w.band).collect();
    let levels: Vec<u8> = resp.writes.iter().map(|w| w.level).collect();
    assert_eq!(bands, vec![1, 2, 3]);
    // strength/3 = 2, strength/2 = 4, floor = min(12, 8) = 8
    assert_eq!(levels, vec![2, 4, 8]);
    assert!(!st.region_flag);
}

#[test]
fn second_event_takes_high_pass_branch_and_flag_stays_false() {
    let mut st = ControllerState::new();
    st.handle_ranging_event(valid_sample(200)).unwrap();
    assert!(!st.region_flag);
    // The flag is cleared by both branches, so every later event colors the
    // high-pass bands, whatever branch came before.
    let resp = st.handle_ranging_event(valid_sample(300)).unwrap();
    let bands: Vec<u8> = resp.writes.iter().map(|w| w.band).collect();
    assert_eq!(bands, vec![4, 5, 3]);
    assert!(!st.region_flag);
    let resp = st.handle_ranging_event(valid_sample(50)).unwrap();
    let bands: Vec<u8> = resp.writes.iter().map(|w| w.band).collect();
    assert_eq!(bands, vec![4, 5, 3]);
    assert!(!st.region_flag);
}

#[test]
fn crossover_floor_is_monotone_over_events() {
    let mut st = ControllerState::new();
    // distances chosen for strengths [8, 5, 9, 3]
    let distances = [200u16, 125, 225, 75];
    let expected_floors = [8u8, 5, 5, 3];
    for (d, floor) in distances.iter().zip(expected_floors.iter()) {
        let resp = st.handle_ranging_event(valid_sample(*d)).unwrap();
        let band3 = resp.writes.last().unwrap();
        assert_eq!(band3.band, 3);
        assert_eq!(band3.level, *floor);
        assert_eq!(st.crossover_floor, *floor);
    }
}

#[test]
fn every_emitted_write_is_storable() {
    let mut st = ControllerState::new();
    let mut eq = EqState::new();
    for d in [0u16, 30, 299, 300, 999] {
        let resp = st.handle_ranging_event(valid_sample(d)).unwrap();
        for w in resp.writes.iter() {
            eq.apply(*w);
            assert!(eq.level(w.band) == w.level);
        }
    }
}

#[test]
fn roi_windows_match_the_sensor_programming() {
    let init = initial_roi();
    assert_eq!((init.tl_x, init.tl_y, init.br_x, init.br_y), (8, 15, 15, 0));
    let next = interrupt_roi();
    assert_eq!((next.tl_x, next.tl_y, next.br_x, next.br_y), (0, 0, 7, 15));
    // Both branches reprogram the same window, so it never alternates back.
    let mut st = ControllerState::new();
    let a = st.handle_ranging_event(valid_sample(100)).unwrap();
    let b = st.handle_ranging_event(valid_sample(100)).unwrap();
    assert_eq!(a.roi, next);
    assert_eq!(b.roi, next);
}
