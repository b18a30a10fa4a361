use media_player::ieee::Double;
use media_player::media_streams::MediaStreams;
use media_player::playback::{Action, Event, NO_SEEK};
use std::sync::atomic::{AtomicBool, AtomicU32, AtomicU64, Ordering};
use std::sync::Arc;

#[test]
fn streams_keep_the_path_and_the_cells() {
    let volume = Arc::new(AtomicU32::new(0.5f32.to_bits()));
    let paused = Arc::new(AtomicBool::new(false));
    let seek = Arc::new(AtomicU64::new(12.5f64.to_bits()));
    let streams = MediaStreams::new(
        "/music/song.ogg",
        Arc::clone(&volume),
        Arc::clone(&paused),
        Arc::clone(&seek),
    );
    assert_eq!(streams.file_path(), "/music/song.ogg");

    assert_eq!(streams.consult(Action::ReadPaused), Some(Event::Paused(false)));
    paused.store(true, Ordering::SeqCst);
    assert_eq!(streams.consult(Action::ReadPaused), Some(Event::Paused(true)));

    match streams.consult(Action::ReadVolume) {
        Some(Event::Volume(found)) => assert_eq!(found.bits, 0.5f32.to_bits()),
        other => panic!("{:?}", other),
    }
    match streams.consult(Action::ReadSeek) {
        Some(Event::Seek(found)) => assert_eq!(found.bits, 12.5f64.to_bits()),
        other => panic!("{:?}", other),
    }
    let value = Double { bits: NO_SEEK };
    assert_eq!(streams.consult(Action::StoreSeek { value }), Some(Event::Done));
    assert!(f64::from_bits(seek.load(Ordering::Relaxed)).is_nan());
    assert_eq!(seek.load(Ordering::Relaxed), NO_SEEK);
    assert_eq!(NO_SEEK, f64::NAN.to_bits());
}

#[test]
fn streams_leave_other_actions_alone() {
    let streams = MediaStreams::new(
        String::from("a"),
        Arc::new(AtomicU32::new(0)),
        Arc::new(AtomicBool::new(false)),
        Arc::new(AtomicU64::new(0)),
    );
    assert_eq!(streams.consult(Action::ReadPacket), None);
    assert_eq!(streams.consult(Action::SleepUntilEnd), None);
    assert_eq!(streams.play_with_video_tx(7).action(), Action::InitDecoder);
}
