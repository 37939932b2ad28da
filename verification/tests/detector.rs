//! The decision state machine: scenarios and ordinal round trips.

use n_rt_onl::detect::replay;
use n_rt_onl::detect::Detector;
use n_rt_onl::state::State;

const THRESHOLD_US: u64 = 1_500_000;

#[test]
fn ordinals_follow_the_wire_contract() {
    assert_eq!(State::Error.ordinal(), 0);
    assert_eq!(State::Ukn.ordinal(), 1);
    assert_eq!(State::Down.ordinal(), 2);
    assert_eq!(State::Up.ordinal(), 3);
}

#[test]
fn ordinal_round_trip() {
    for v in 0..4usize {
        assert_eq!(State::from_ordinal(v).ordinal(), v);
    }
}

#[test]
fn cold_healthy_start_emits_ukn_then_up_only() {
    // Scenario: idle data path, both timestamps frozen at the seed value.
    let samples: Vec<(u64, u64)> = (0..20).map(|_| (1_000_000, 1_000_000)).collect();
    let events = replay(&samples, THRESHOLD_US);
    assert_eq!(events, vec![State::Ukn, State::Up]);
}

#[test]
fn heartbeat_stays_up() {
    // Scenario: one RX every 500 ms keeps both timestamps advancing together.
    let samples: Vec<(u64, u64)> = (0..20u64).map(|k| (k * 500_000, k * 500_000)).collect();
    let events = replay(&samples, THRESHOLD_US);
    assert_eq!(events, vec![State::Ukn, State::Up]);
}

#[test]
fn outage_is_detected_when_skew_crosses_threshold() {
    // Scenario: healthy for 5 s, then RX ceases while TX keeps being
    // attempted every 200 ms.
    let mut samples: Vec<(u64, u64)> = Vec::new();
    for k in 0..10u64 {
        samples.push((k * 500_000, k * 500_000));
    }
    let rx_frozen = 5_000_000;
    for k in 1..20u64 {
        samples.push((rx_frozen + k * 200_000, rx_frozen));
    }
    let events = replay(&samples, THRESHOLD_US);
    assert_eq!(events, vec![State::Ukn, State::Up, State::Down]);
}

#[test]
fn recovery_emits_up_again() {
    // Scenario: after a stabilized outage, RX resumes and resets the skew.
    let mut samples: Vec<(u64, u64)> = Vec::new();
    for k in 1..20u64 {
        samples.push((5_000_000 + k * 200_000, 5_000_000));
    }
    samples.push((20_000_000, 20_000_000));
    let events = replay(&samples, THRESHOLD_US);
    assert_eq!(events, vec![State::Ukn, State::Up, State::Down, State::Up]);
}

#[test]
fn duplicate_states_are_coalesced() {
    let mut d = Detector::new(THRESHOLD_US);
    assert_eq!(d.on_sample(0, 0), Some(State::Up));
    assert_eq!(d.on_sample(100, 0), None);
    assert_eq!(d.on_sample(200, 100), None);
    assert_eq!(d.current, State::Up);
}

#[test]
fn first_sample_over_threshold_goes_straight_down() {
    let mut d = Detector::new(THRESHOLD_US);
    assert_eq!(d.on_sample(2_000_000, 0), Some(State::Down));
    assert_eq!(d.current, State::Down);
}

#[test]
fn skew_equal_to_threshold_counts_as_healthy_from_ukn_and_up() {
    let mut d = Detector::new(THRESHOLD_US);
    assert_eq!(d.on_sample(THRESHOLD_US, 0), Some(State::Up));
    assert_eq!(d.on_sample(THRESHOLD_US, 0), None);
    assert_eq!(d.current, State::Up);
}

#[test]
fn skew_equal_to_threshold_keeps_down_down() {
    let mut d = Detector::new(THRESHOLD_US);
    assert_eq!(d.on_sample(2_000_000, 0), Some(State::Down));
    assert_eq!(d.on_sample(THRESHOLD_US, 0), None);
    assert_eq!(d.current, State::Down);
}

#[test]
fn error_state_is_terminal() {
    let mut d = Detector::new(THRESHOLD_US);
    d.current = State::Error;
    assert_eq!(d.on_sample(0, 0), None);
    assert_eq!(d.current, State::Error);
}

#[test]
fn smaller_threshold_never_detects_later() {
    // The same trace replayed under two thresholds: the run with the
    // smaller threshold reaches Down no later than the other.
    let mut samples: Vec<(u64, u64)> = Vec::new();
    for k in 1..30u64 {
        samples.push((k * 300_000, 0));
    }
    let tight = replay(&samples, 1_000_000);
    let loose = replay(&samples, 2_000_000);
    let first_down = |events: &Vec<State>| events.iter().position(|s| *s == State::Down);
    let tight_down = first_down(&tight).expect("tight threshold must detect");
    let loose_down = first_down(&loose).expect("loose threshold must detect");
    assert!(tight_down <= loose_down);
}
