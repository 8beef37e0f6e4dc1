use harmonizer::scheduler::{PlaybackScheduler, VoiceCommand};
use harmonizer::window::{acquire_window, WINDOW_SIZE};

#[test]
fn window_takes_the_first_1024_samples() {
    let mut events: Vec<Option<i16>> = Vec::new();
    for i in 0..2000i32 {
        events.push(Some(i as i16));
    }
    let w = acquire_window(&events).unwrap();
    assert_eq!(w.len(), WINDOW_SIZE);
    assert_eq!(w[0], 0);
    assert_eq!(w[1], 1);
    assert_eq!(w[1023], 1023);
}

#[test]
fn non_sample_events_contribute_silence() {
    let mut events: Vec<Option<i16>> = vec![Some(7); WINDOW_SIZE];
    events[5] = None;
    events[100] = None;
    let w = acquire_window(&events).unwrap();
    assert_eq!(w[5], 0);
    assert_eq!(w[100], 0);
    assert_eq!(w[6], 7);
}

#[test]
fn short_stream_yields_no_window() {
    let events: Vec<Option<i16>> = vec![Some(1); WINDOW_SIZE - 1];
    assert!(acquire_window(&events).is_none());
    let empty: Vec<Option<i16>> = Vec::new();
    assert!(acquire_window(&empty).is_none());
}

fn starts() -> Vec<VoiceCommand> {
    vec![
        VoiceCommand::Start { voice: 0 },
        VoiceCommand::Start { voice: 1 },
        VoiceCommand::Start { voice: 2 },
    ]
}

fn stops() -> Vec<VoiceCommand> {
    vec![
        VoiceCommand::Stop { voice: 0 },
        VoiceCommand::Stop { voice: 1 },
        VoiceCommand::Stop { voice: 2 },
    ]
}

#[test]
fn session_starts_all_three_voices_together() {
    let mut sched = PlaybackScheduler::new();
    let commands = sched.begin();
    assert_eq!(commands, starts());
    assert!(sched.running);
    assert_eq!(sched.iterations, 0);
}

#[test]
fn elapsed_interval_restarts_all_voices() {
    let mut sched = PlaybackScheduler::new();
    sched.begin();
    let commands = sched.on_interval_elapsed(false);
    let mut expected = stops();
    expected.extend(starts());
    assert_eq!(commands, expected);
    assert!(sched.running);
    assert_eq!(sched.iterations, 1);
}

#[test]
fn cancellation_stops_the_voices_for_good() {
    let mut sched = PlaybackScheduler::new();
    sched.begin();
    sched.on_interval_elapsed(false);
    let commands = sched.on_interval_elapsed(true);
    assert_eq!(commands, stops());
    assert!(!sched.running);
    assert_eq!(sched.iterations, 2);
}
