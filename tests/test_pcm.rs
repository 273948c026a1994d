use web_radio::pcm::{calculate_buffer_length, AudioPacket, BYTES_PER_SECOND};
use web_radio::ring::{PcmRing, SETPOINT_HIGH, SETPOINT_LOW};
use web_radio::clock::{ClockAction, PlaybackClock};

#[test]
fn buffer_length_of_one_second() {
    assert_eq!(calculate_buffer_length(176_400), 1_000_000);
}

#[test]
fn buffer_length_of_half_second() {
    assert_eq!(calculate_buffer_length(88_200), 500_000);
}

#[test]
fn bytes_per_second_matches_format() {
    assert_eq!(BYTES_PER_SECOND, 2 * 2 * 44100);
}

#[test]
fn silence_has_duration_and_zero_bytes() {
    let p = AudioPacket::from_silence(500);
    assert_eq!(p.audio_length_micros, 500_000);
    assert_eq!(p.buffer.len(), 88_200);
    assert!(p.buffer.iter().all(|b| *b == 0));
    assert_eq!(p.byte_len(), 88_200);
}

#[test]
fn silence_rounds_to_nearest_frame() {
    // 5 ms is 220.5 frames: rounded up to 221 frames of 4 bytes
    let p = AudioPacket::from_silence(5);
    assert_eq!(p.buffer.len(), 221 * 4);
    let q = AudioPacket::from_silence(0);
    assert_eq!(q.buffer.len(), 0);
    assert_eq!(q.audio_length_micros, 0);
}

#[test]
fn pcm_packet_keeps_bytes() {
    let p = AudioPacket::from_pcm(vec![1, 2, 3, 4]);
    assert_eq!(&p.buffer[..], &[1, 2, 3, 4]);
    assert_eq!(p.audio_length_micros, 4 * 1_000_000 / 176_400);
}

fn unit() -> AudioPacket {
    AudioPacket::from_silence(500)
}

#[test]
fn ring_backpressure_at_high_watermark() {
    let mut ring = PcmRing::new();
    for _ in 0..SETPOINT_HIGH {
        assert!(ring.try_enqueue(unit()).is_ok());
    }
    assert_eq!(ring.len(), 20);
    assert!(ring.is_filled());
    let refused = ring.try_enqueue(unit());
    let packet = match refused {
        Err(b) => b.packet,
        Ok(()) => panic!("ring took a packet past its high watermark"),
    };
    assert_eq!(ring.len(), 20);
    assert!(!ring.may_resume());
    let packet = match ring.enqueue_after_backpressure(packet) {
        Err(b) => b.packet,
        Ok(()) => panic!("producer resumed above the low watermark"),
    };
    let drained = ring.drain_all();
    assert_eq!(drained.len(), 20);
    assert_eq!(ring.len(), 0);
    assert!(ring.len() <= SETPOINT_LOW);
    assert!(ring.may_resume());
    assert!(ring.enqueue_after_backpressure(packet).is_ok());
    assert_eq!(ring.len(), 1);
}

#[test]
fn ring_never_exceeds_high_plus_one() {
    let mut ring = PcmRing::with_watermarks(4, 2);
    for round in 0..50 {
        let _ = ring.try_enqueue(unit());
        assert!(ring.len() <= 5);
        if round % 7 == 0 {
            ring.drain_all();
        }
    }
}

#[test]
fn ring_drains_in_order() {
    let mut ring = PcmRing::new();
    ring.try_enqueue(AudioPacket::from_silence(10)).ok().unwrap();
    ring.try_enqueue(AudioPacket::from_silence(20)).ok().unwrap();
    let out = ring.drain_all();
    assert_eq!(out[0].audio_length_micros, 10_000);
    assert_eq!(out[1].audio_length_micros, 20_000);
}

#[test]
fn clock_sleeps_until_audio_is_due() {
    let mut clock = PlaybackClock::new();
    assert!(clock.is_refilling());
    clock.on_filled(1_000);
    let batch = vec![AudioPacket::from_silence(500), AudioPacket::from_silence(500)];
    assert_eq!(clock.on_batch(&batch, 1_200), ClockAction::Sleep { micros: 1_000_000 - 200 });
    assert_eq!(clock.playback_time_micros(), 1_000_000);
}

#[test]
fn clock_reports_time_underrun() {
    let mut clock = PlaybackClock::new();
    clock.on_filled(0);
    let batch = vec![AudioPacket::from_silence(500)];
    assert_eq!(clock.on_batch(&batch, 2_000_000), ClockAction::TimeUnderrun);
}

#[test]
fn clock_playback_time_never_decreases() {
    let mut clock = PlaybackClock::new();
    clock.on_filled(0);
    let mut last = clock.playback_time_micros();
    for ms in [0u64, 500, 10, 0, 1000] {
        let batch = vec![AudioPacket::from_silence(ms)];
        clock.on_batch(&batch, 0);
        assert!(clock.playback_time_micros() >= last);
        last = clock.playback_time_micros();
    }
    assert_eq!(last, 1_510_000);
}

#[test]
fn clock_underrun_refills() {
    let mut clock = PlaybackClock::new();
    clock.on_filled(0);
    assert_eq!(clock.on_underrun(), ClockAction::Refill);
    assert!(clock.is_refilling());
}

#[test]
fn packet_clone_shares_bytes() {
    let p = AudioPacket::from_silence(20);
    let q = p.clone();
    assert_eq!(q.audio_length_micros, p.audio_length_micros);
    assert_eq!(q.buffer, p.buffer);
}
