use web_radio::codec::{get_null_frame, OutputCodec};
use web_radio::listeners::{
    generate_id, throughput_bytes_per_second, total_bytes_sent, BandwidthStat, IdGenerator, ListenerAction, ListenerEvent, ListenerRegistry, ListenerSession,
};

#[test]
fn ids_are_fresh() {
    let mut ids = IdGenerator::new();
    assert_eq!(generate_id(&mut ids), Some(0));
    assert_eq!(generate_id(&mut ids), Some(1));
    assert_eq!(generate_id(&mut ids), Some(2));
}

#[test]
fn registry_attach_terminate() {
    let mut reg: ListenerRegistry<&str> = ListenerRegistry::new();
    assert!(reg.register(1, 100, "a").is_none());
    assert!(reg.register(2, 100, "b").is_none());
    assert_eq!(reg.register(1, 100, "again"), Some("again"));
    assert_eq!(reg.list_clients(), vec![1, 2]);
    assert_eq!(reg.remove(1), Some("a"));
    assert_eq!(reg.remove(1), None);
    assert_eq!(reg.list_clients(), vec![2]);
    assert!(!reg.contains(1));
    assert!(reg.contains(2));
}

#[test]
fn registry_bandwidth() {
    let mut reg: ListenerRegistry<()> = ListenerRegistry::new();
    reg.register(7, 1_000, ());
    reg.register(8, 5_000, ());
    assert!(reg.record_sent(7, 4_000));
    assert!(reg.record_sent(7, 1_000));
    assert!(!reg.record_sent(9, 1_000));
    let stats = reg.get_bandwidth_stats(3_000);
    assert_eq!(stats[0], BandwidthStat { id: 7, bytes_sent: 5_000, bits_per_second: 20_000 });
    assert_eq!(stats[1], BandwidthStat { id: 8, bytes_sent: 0, bits_per_second: 0 });
}

#[test]
fn three_listeners_receive_all_chunks() {
    let frame = get_null_frame(&OutputCodec::Mp3_64kbps);
    let mut sessions: Vec<ListenerSession> =
        (0..3).map(|id| ListenerSession::start(id, frame.len() as u64)).collect();
    for _ in 0..100 {
        for s in sessions.iter_mut() {
            assert_eq!(s.on_event(ListenerEvent::Chunk { len: 1024 }), ListenerAction::Forward);
        }
    }
    for s in sessions.iter() {
        assert_eq!(s.bytes_sent(), 417 + 100 * 1024);
        assert!(!s.is_finished());
    }
}

#[test]
fn lagging_listener_skips_and_resumes() {
    let mut a = ListenerSession::start(1, 417);
    let mut b = ListenerSession::start(2, 417);
    assert_eq!(b.on_event(ListenerEvent::Lagged { skipped: 5 }), ListenerAction::Skip);
    assert_eq!(b.on_event(ListenerEvent::Chunk { len: 10 }), ListenerAction::Forward);
    assert_eq!(a.on_event(ListenerEvent::Chunk { len: 10 }), ListenerAction::Forward);
    assert_eq!(b.bytes_sent(), 427);
    assert_eq!(a.bytes_sent(), 427);
}

#[test]
fn shutdown_and_close() {
    let mut a = ListenerSession::start(1, 0);
    assert_eq!(a.on_event(ListenerEvent::Shutdown), ListenerAction::Stop);
    assert!(a.is_finished());
    assert!(a.exited_normally());
    let mut b = ListenerSession::start(2, 0);
    assert_eq!(b.on_event(ListenerEvent::Closed), ListenerAction::Fail);
    assert!(!b.exited_normally());
    assert_eq!(b.id(), 2);
}

#[test]
fn reporter_totals_and_rate() {
    let stats = vec![
        BandwidthStat { id: 1, bytes_sent: 1_000, bits_per_second: 0 },
        BandwidthStat { id: 2, bytes_sent: 3_000, bits_per_second: 0 },
    ];
    assert_eq!(total_bytes_sent(&stats), 4_000);
    assert_eq!(total_bytes_sent(&Vec::new()), 0);
    assert_eq!(throughput_bytes_per_second(1_000, 5_000, 2_000), 2_000);
    assert_eq!(throughput_bytes_per_second(5_000, 1_000, 2_000), 0);
    assert_eq!(throughput_bytes_per_second(0, 5_000, 0), 0);
}
