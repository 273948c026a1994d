use web_radio::codec::{ffmpeg_args, ffmpeg_decoder_args, ffprobe_args, get_mime_type, get_null_frame, OutputCodec};
use web_radio::metadata::Metadata;
use web_radio::state::{decoder_action, is_published, pick_random_narration, DecoderAction, State, StateManager};
use web_radio::station_state::{DownState, PlayingState, StationMode, StationState, SwitchingState};
use web_radio::track::{AudioFileInfo, ManifestError, Narration, StationManifest, Track};

fn track(id: usize, before: Vec<Narration>, after: Vec<Narration>) -> Track {
    Track::new(
        format!("T{}", id),
        format!("Artist {}", id),
        "art.png".to_string(),
        1000,
        "mp3".to_string(),
        format!("t{}.mp3", id),
        before,
        after,
    )
}

fn narration(name: &str) -> Narration {
    Narration {
        source: format!("{}.mp3", name),
        transcript: name.to_string(),
        file_info: AudioFileInfo {
            location: format!("/n/{}.mp3", name),
            format: "mp3".to_string(),
            size_bytes: 10,
            audio_milliseconds: 1200,
        },
    }
}

/// The steps that reach the decoder, leaving out the transient `SwitchTrack`.
fn published(engine: &mut StateManager, count: usize) -> Vec<State> {
    let mut out = Vec::new();
    let mut current = State::SwitchTrack;
    while out.len() < count {
        current = engine.advance(current);
        if !matches!(current, State::SwitchTrack) {
            out.push(current.duplicate());
        }
    }
    out
}

fn label(s: &State) -> String {
    match s {
        State::SwitchTrack => "switch".to_string(),
        State::NarrationBefore { narration, track } => format!("before {} {}", narration.transcript, track.title),
        State::Track { track } => format!("track {}", track.title),
        State::NarrationAfter { narration, track } => format!("after {} {}", narration.transcript, track.title),
        State::IntentionalDelay { duration_units, .. } => format!("delay {}", duration_units),
    }
}

#[test]
fn two_tracks_without_narrations_alternate_in_pairs() {
    let mut engine = StateManager::new(vec![track(1, vec![], vec![]), track(2, vec![], vec![])], 1);
    let steps = published(&mut engine, 24);
    let tracks: Vec<String> = steps
        .iter()
        .filter_map(|s| match s {
            State::Track { track } => Some(track.title.clone()),
            _ => None,
        })
        .collect();
    assert_eq!(tracks.len(), 12);
    for pair in tracks.chunks(2) {
        assert_ne!(pair[0], pair[1]);
        let mut p = pair.to_vec();
        p.sort();
        assert_eq!(p, vec!["T1".to_string(), "T2".to_string()]);
    }
    for s in steps.iter() {
        if let State::IntentionalDelay { duration_units, .. } = s {
            assert_eq!(*duration_units, 2);
        }
    }
}

#[test]
fn narrations_surround_the_track() {
    let t = track(1, vec![narration("B")], vec![narration("A")]);
    let mut engine = StateManager::new(vec![t], 9);
    let steps: Vec<String> = published(&mut engine, 12).iter().map(label).collect();
    let expected = vec![
        "delay 4", "before B T1", "delay 2", "track T1", "delay 4", "after A T1",
        "delay 4", "before B T1", "delay 2", "track T1", "delay 4", "after A T1",
    ];
    assert_eq!(steps, expected);
}

#[test]
fn delay_leads_to_its_next_step() {
    let mut engine = StateManager::new(vec![track(1, vec![], vec![])], 3);
    let delay = engine.advance(State::SwitchTrack);
    assert_eq!(label(&delay), "delay 2");
    let next = engine.advance(delay);
    assert_eq!(label(&next), "track T1");
    let after = engine.advance(next);
    assert!(matches!(after, State::SwitchTrack));
}

#[test]
fn narration_pick_is_from_pool() {
    let pool = vec![narration("a"), narration("b"), narration("c")];
    let mut seen = Vec::new();
    for draws in 0..40u64 {
        let n = pick_random_narration(&pool, 77, draws).unwrap();
        assert!(["a", "b", "c"].contains(&n.transcript.as_str()));
        if !seen.contains(&n.transcript) {
            seen.push(n.transcript.clone());
        }
    }
    assert!(seen.len() > 1);
    assert!(pick_random_narration(&Vec::new(), 77, 0).is_none());
}

#[test]
fn step_descriptions() {
    assert_eq!(State::SwitchTrack.describe(), "SwitchTrack");
    let t = track(4, vec![], vec![]);
    let d = State::IntentionalDelay {
        duration_units: 4,
        next_state: Box::new(State::NarrationBefore { narration: narration("hello"), track: t.clone() }),
    };
    assert_eq!(d.describe(), "IntentionalDelay[4 units, NarrationBefore[\"hello\", 1200 ms]]");
    assert_eq!(State::Track { track: t }.describe(), "Track[T4]");
}

#[test]
fn decoder_actions() {
    let t = track(5, vec![], vec![]);
    match decoder_action(&State::Track { track: t.clone() }) {
        DecoderAction::Play { location, announce } => {
            assert_eq!(location, "t5.mp3");
            match announce {
                Some(Metadata::TrackChange { title, artist }) => {
                    assert_eq!(title, "T5");
                    assert_eq!(artist, "Artist 5");
                }
                None => panic!("a track is announced"),
            }
        }
        other => panic!("unexpected {:?}", other),
    }
    match decoder_action(&State::NarrationAfter { narration: narration("z"), track: t.clone() }) {
        DecoderAction::Play { location, announce } => {
            assert_eq!(location, "/n/z.mp3");
            assert!(announce.is_none());
        }
        other => panic!("unexpected {:?}", other),
    }
    let delay = State::IntentionalDelay { duration_units: 2, next_state: Box::new(State::Track { track: t }) };
    assert!(matches!(decoder_action(&delay), DecoderAction::Silence { units: 2 }));
    assert!(matches!(decoder_action(&State::SwitchTrack), DecoderAction::Idle));
}

#[test]
fn manifest_validation() {
    let mut m = StationManifest { title: "R".to_string(), description: "d".to_string(), seed: 1, tracks: vec![] };
    assert_eq!(m.validate(), Err(ManifestError::NoTracks));
    m.tracks.push(track(1, vec![], vec![]));
    m.tracks.push(track(2, vec![], vec![]));
    assert_eq!(m.validate(), Ok(()));
    m.tracks[1].file_info.audio_milliseconds = 0;
    assert_eq!(m.validate(), Err(ManifestError::ZeroDuration(1)));
}

#[test]
fn encoder_arguments() {
    let args = ffmpeg_args(&OutputCodec::Mp3_64kbps);
    let expected = "-f s16le -ar 44100 -ac 2 -i - -b:a 64k -f mp3 -flush_packets 1 -write_xing 0 -id3v2_version 0 -";
    assert_eq!(args.join(" "), expected);
    let args = ffmpeg_args(&OutputCodec::Mp3_128kbps);
    assert_eq!(args[9], "128k");
}

#[test]
fn decoder_arguments() {
    let loc = "/music/a.mp3".to_string();
    assert_eq!(
        ffmpeg_decoder_args(&loc, 0).join(" "),
        "-i /music/a.mp3 -f s16le -ac 2 -ar 44100 -"
    );
    assert_eq!(
        ffmpeg_decoder_args(&loc, 1500).join(" "),
        "-i /music/a.mp3 -ss 00:01.500000 -f s16le -ac 2 -ar 44100 -"
    );
    assert_eq!(
        ffprobe_args(&loc).join(" "),
        "-v error -show_entries format=duration -of default=noprint_wrappers=1:nokey=1 /music/a.mp3"
    );
}

#[test]
fn null_frame_and_mime() {
    let f = get_null_frame(&OutputCodec::Mp3_128kbps);
    assert_eq!(f.len(), 417);
    assert_eq!(&f[..4], &[0xFF, 0xFB, 0x90, 0x00]);
    assert!(f[4..].iter().all(|b| *b == 0));
    assert_eq!(get_null_frame(&OutputCodec::Mp3_64kbps), f);
    assert_eq!(get_mime_type(&OutputCodec::Mp3_64kbps), "mpeg");
}

#[test]
fn station_modes() {
    let down = DownState::new();
    assert_eq!(down.name(), "Down");
    assert_eq!(down.play(), StationMode::Playing);
    assert_eq!(down.next(true), StationMode::Down);
    let playing = PlayingState::new();
    assert_eq!(playing.stop(), StationMode::Down);
    assert_eq!(playing.next(true), StationMode::Playing);
    assert_eq!(playing.next(false), StationMode::Down);
    let switching = SwitchingState::new();
    assert_eq!(switching.name(), "Switching");
    assert_eq!(switching.next(false), StationMode::Playing);
    assert_eq!(switching.play(), StationMode::Switching);
    assert_eq!(StationMode::Playing.name(), "Playing");
}

#[test]
fn published_steps_skip_switch_track() {
    let mut engine = StateManager::new(vec![track(1, vec![], vec![])], 2);
    let mut current = State::SwitchTrack;
    let mut labels = Vec::new();
    for _ in 0..6 {
        current = engine.advance_published(current);
        assert!(is_published(&current));
        labels.push(label(&current));
    }
    assert_eq!(labels, vec!["delay 2", "track T1", "delay 2", "track T1", "delay 2", "track T1"]);
    assert!(!is_published(&State::SwitchTrack));
}

#[test]
fn same_seed_engines_agree() {
    let tracks = vec![
        track(1, vec![narration("a"), narration("b")], vec![narration("c")]),
        track(2, vec![], vec![narration("d"), narration("e")]),
        track(3, vec![narration("f")], vec![]),
    ];
    let mut a = StateManager::new(tracks.clone(), 42);
    let mut b = StateManager::new(tracks, 42);
    let left: Vec<String> = published(&mut a, 40).iter().map(|s| s.describe()).collect();
    let right: Vec<String> = published(&mut b, 40).iter().map(|s| s.describe()).collect();
    assert_eq!(left, right);
}
