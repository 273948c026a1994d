use web_radio::track::Track;
use web_radio::track_iterator::TrackIterator;

fn mock_track(id: usize) -> Track {
    Track::new(
        format!("Title {}", id),
        format!("Artist {}", id),
        "Album".to_string(),
        200,
        "wav".to_string(),
        format!("file{}.wav", id),
        vec![],
        vec![],
    )
}

#[test]
fn iterator_initialization_and_current() {
    let tracks = vec![mock_track(1), mock_track(2), mock_track(3)];
    let iter = TrackIterator::new(tracks.clone(), 1234);
    // the current track is always there
    assert!(!iter.get_current().title.is_empty());
    assert!(!iter.get_current().source.is_empty());
}

#[test]
fn iterator_has_more() {
    let tracks = vec![mock_track(1)];
    let iter = TrackIterator::new(tracks.clone(), 42);
    // a single track: nothing more in the cycle
    assert!(!iter.has_more());
}

#[test]
fn iterator_go_next_exhausts_queue() {
    let tracks = vec![mock_track(1), mock_track(2)];
    let mut iter = TrackIterator::new(tracks.clone(), 999);
    let first = iter.get_current().clone();
    assert!(iter.has_more());
    iter.go_next().expect("deve ter next");
    let second = iter.get_current().clone();
    assert_ne!(first.title, second.title);
    assert!(!iter.has_more());
}

fn titles_of_cycle(iter: &mut TrackIterator, n: usize) -> Vec<String> {
    let mut out = Vec::new();
    for _ in 0..n {
        out.push(iter.next().title);
    }
    out
}

#[test]
fn each_cycle_plays_every_track_once() {
    let tracks: Vec<Track> = (0..5).map(mock_track).collect();
    let mut iter = TrackIterator::new(tracks.clone(), 7);
    for _ in 0..4 {
        let mut cycle = titles_of_cycle(&mut iter, 5);
        cycle.sort();
        let mut expected: Vec<String> = tracks.iter().map(|t| t.title.clone()).collect();
        expected.sort();
        assert_eq!(cycle, expected);
    }
}

#[test]
fn same_seed_same_sequence() {
    let tracks: Vec<Track> = (0..6).map(mock_track).collect();
    let mut a = TrackIterator::new(tracks.clone(), 31337);
    let mut b = TrackIterator::new(tracks.clone(), 31337);
    for _ in 0..30 {
        assert_eq!(a.next().title, b.next().title);
    }
}

#[test]
fn single_track_always_returned() {
    let mut iter = TrackIterator::new(vec![mock_track(9)], 5);
    for _ in 0..5 {
        assert_eq!(iter.next().title, "Title 9");
    }
}

#[test]
fn next_starts_with_current_track() {
    let tracks: Vec<Track> = (0..4).map(mock_track).collect();
    let mut iter = TrackIterator::new(tracks, 11);
    let current = iter.get_current().title.clone();
    assert_eq!(iter.next().title, current);
}

#[test]
fn go_next_at_cycle_end_changes_nothing() {
    let tracks: Vec<Track> = (0..2).map(mock_track).collect();
    let mut iter = TrackIterator::new(tracks, 3);
    iter.go_next().unwrap();
    let here = iter.get_current().title.clone();
    assert!(iter.go_next().is_err());
    assert_eq!(iter.get_current().title, here);
}

#[test]
fn seeds_shuffle_the_order() {
    let tracks: Vec<Track> = (0..6).map(mock_track).collect();
    let in_list_order: Vec<String> = tracks.iter().map(|t| t.title.clone()).collect();
    let mut shuffled = 0;
    for seed in 0..20u64 {
        let mut iter = TrackIterator::new(tracks.clone(), seed);
        if titles_of_cycle(&mut iter, 6) != in_list_order {
            shuffled += 1;
        }
    }
    assert!(shuffled > 0);
}
