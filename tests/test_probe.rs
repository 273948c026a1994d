use web_radio::probe::parse_probe_duration;
use web_radio::schedule::{elapsed_since_epoch, StationState, STATION_EPOCH};
use web_radio::track::Track;

#[test]
fn probe_durations_round_to_milliseconds() {
    assert_eq!(parse_probe_duration("12.345000\n"), Some(12_345));
    assert_eq!(parse_probe_duration("12.3455"), Some(12_346));
    assert_eq!(parse_probe_duration("12.3454"), Some(12_345));
    assert_eq!(parse_probe_duration("0.0005"), Some(1));
    assert_eq!(parse_probe_duration("7"), Some(7_000));
    assert_eq!(parse_probe_duration("7.\r\n"), Some(7_000));
    assert_eq!(parse_probe_duration("213.9"), Some(213_900));
}

#[test]
fn probe_durations_reject_other_text() {
    assert_eq!(parse_probe_duration(""), None);
    assert_eq!(parse_probe_duration("N/A"), None);
    assert_eq!(parse_probe_duration(".5"), None);
    assert_eq!(parse_probe_duration("1.2.3"), None);
    assert_eq!(parse_probe_duration("99999999999999999999"), None);
}

fn timed(id: usize, ms: u64) -> Track {
    Track::new(format!("T{}", id), "A".to_string(), String::new(), ms, "mp3".to_string(), format!("t{}.mp3", id), vec![], vec![])
}

#[test]
fn schedule_at_start_is_switching() {
    let (state, offset) = StationState::determine_expected_state(vec![timed(1, 1000)], 5, 0);
    assert_eq!(state.name(), "SwitchTrack");
    assert_eq!(offset, 0);
}

#[test]
fn schedule_single_track_wraps() {
    let (state, offset) = StationState::determine_expected_state(vec![timed(1, 1000)], 5, 2500);
    match state {
        StationState::Track { track } => assert_eq!(track.title, "T1"),
        other => panic!("unexpected {:?}", other),
    }
    assert_eq!(offset, 500);
    let (_, offset) = StationState::determine_expected_state(vec![timed(1, 1000)], 5, 2000);
    assert_eq!(offset, 1000);
}

#[test]
fn schedule_walks_the_shuffled_sequence() {
    let tracks = vec![timed(1, 1000), timed(2, 3000)];
    // within each cycle both tracks play once: 4000 ms per cycle
    let (state, offset) = StationState::determine_expected_state(tracks.clone(), 8, 4000 + 1);
    assert_eq!(state.name(), "Track");
    assert_eq!(offset, 1);
    let (first, _) = StationState::determine_expected_state(tracks.clone(), 8, 1);
    let (again, _) = StationState::determine_expected_state(tracks, 8, 1);
    match (first, again) {
        (StationState::Track { track: a }, StationState::Track { track: b }) => assert_eq!(a.title, b.title),
        _ => panic!("a track plays"),
    }
}

#[test]
fn epoch_elapsed() {
    assert_eq!(elapsed_since_epoch(STATION_EPOCH + 10), 10);
    assert_eq!(elapsed_since_epoch(0), 0);
}
