use media_player::ieee::{Double, Single};
use media_player::playback::{Action, Delivery, Event, MasterClock, Outcome, Playback};

fn seconds(x: f64) -> Double {
    Double { bits: x.to_bits() }
}

fn volume(x: f32) -> Single {
    Single { bits: x.to_bits() }
}

/// What is asked for at the end of a seek.
fn empty_seek_cell() -> Action {
    Action::StoreSeek { value: seconds(f64::NAN) }
}

/// Takes an event after checking what was asked for.
fn answer(playback: &mut Playback, asked: Action, event: Event, now: u128) {
    assert_eq!(playback.action(), asked);
    playback.advance(event, now);
}

/// A file of 90 seconds, opened at the time 100, about to read the seek cell.
fn opened(video: Option<usize>, audio: Option<usize>) -> Playback {
    let mut p = Playback::new(0);
    answer(&mut p, Action::InitDecoder, Event::Done, 10);
    answer(&mut p, Action::OpenInput, Event::Opened { duration: seconds(90.0) }, 20);
    answer(&mut p, Action::OpenVideo, Event::Stream(video), 30);
    answer(&mut p, Action::OpenAudio, Event::Stream(audio), 100);
    answer(&mut p, Action::ReadPaused, Event::Paused(false), 100);
    p
}

/// The same, about to read a packet.
fn reading(video: Option<usize>, audio: Option<usize>) -> Playback {
    let mut p = opened(video, audio);
    answer(&mut p, Action::ReadSeek, Event::Seek(seconds(f64::NAN)), 100);
    assert_eq!(p.action(), Action::ReadPacket);
    p
}

#[test]
fn each_step_of_opening_can_fail() {
    let mut p = Playback::new(0);
    let opening = [
        Event::Done,
        Event::Opened { duration: seconds(1.0) },
        Event::Stream(None),
        Event::Stream(Some(0)),
    ];
    for event in opening {
        let mut failing = p;
        failing.advance(Event::Failed, 5);
        assert_eq!(failing.action(), Action::Finish { outcome: Outcome::Failed });
        p.advance(event, 5);
    }
    p.advance(Event::Failed, 6);
    assert_eq!(p.action(), Action::ReadPaused);
}

#[test]
fn seek_resets_the_decoders_and_the_clock() {
    let mut p = opened(Some(0), Some(1));
    p.clock = Some(MasterClock { origin: seconds(1.0), start: 50 });
    answer(&mut p, Action::ReadSeek, Event::Seek(seconds(30.0)), 110);
    answer(&mut p, Action::SeekInput { target: seconds(30.0) }, Event::Done, 120);
    answer(&mut p, Action::ResetVideo, Event::Done, 130);
    answer(&mut p, Action::ResetAudio, Event::Done, 140);
    answer(&mut p, empty_seek_cell(), Event::Done, 150);
    assert_eq!(p.clock, None);
    assert_eq!(p.action(), Action::ReadPacket);

    let mut silent = opened(None, None);
    silent.advance(Event::Seek(seconds(0.0)), 110);
    answer(&mut silent, Action::SeekInput { target: seconds(0.0) }, Event::Done, 120);
    assert_eq!(silent.action(), empty_seek_cell());
}

#[test]
fn empty_seek_cell_keeps_the_clock() {
    let mut p = opened(Some(0), None);
    p.clock = Some(MasterClock { origin: seconds(1.0), start: 50 });
    p.advance(Event::Seek(seconds(f64::NAN)), 110);
    assert_eq!(p.action(), Action::ReadPacket);
    assert_eq!(p.clock, Some(MasterClock { origin: seconds(1.0), start: 50 }));
}

#[test]
fn pause_is_not_counted() {
    let mut p = reading(Some(0), Some(1));
    p.clock = Some(MasterClock { origin: seconds(1.0), start: 40 });
    answer(&mut p, Action::ReadPacket, Event::Packet(Some(7)), 200);
    answer(&mut p, Action::ReadPaused, Event::Paused(true), 210);
    answer(&mut p, Action::PauseAudio, Event::Done, 220);
    answer(&mut p, Action::Sleep { nanos: 10_000_000 }, Event::Done, 1000);
    answer(&mut p, Action::ReadPaused, Event::Paused(true), 1000);
    answer(&mut p, Action::Sleep { nanos: 10_000_000 }, Event::Done, 2000);
    answer(&mut p, Action::ReadPaused, Event::Paused(false), 2100);
    answer(&mut p, Action::ResumeAudio, Event::Done, 2200);
    // It read 160 when the pause began, and it reads 160 again.
    assert_eq!(p.clock, Some(MasterClock { origin: seconds(1.0), start: 2040 }));
    assert_eq!(p.action(), Action::ReadSeek);
}

#[test]
fn pause_without_sound_touches_no_device() {
    let mut p = reading(Some(0), None);
    p.advance(Event::Packet(Some(7)), 200);
    answer(&mut p, Action::ReadPaused, Event::Paused(true), 210);
    answer(&mut p, Action::Sleep { nanos: 10_000_000 }, Event::Done, 1000);
    answer(&mut p, Action::ReadPaused, Event::Paused(false), 1010);
    assert_eq!(p.action(), Action::ReadSeek);
    assert_eq!(p.clock, None);
}

#[test]
fn pictures_wait_for_their_time() {
    let mut p = reading(Some(0), Some(1));
    answer(&mut p, Action::ReadPacket, Event::Packet(Some(0)), 200);
    answer(&mut p, Action::DecodeVideo, Event::Done, 210);
    answer(&mut p, Action::ReceiveVideo, Event::Frame { pts: Some(seconds(2.0)) }, 220);
    answer(&mut p, Action::ReadPaused, Event::Paused(false), 230);
    // The first picture starts the clock.
    let aim = Action::MeasureTarget { pts: seconds(2.0), origin: seconds(2.0) };
    answer(&mut p, aim, Event::Target(0), 240);
    answer(&mut p, Action::ScaleVideo, Event::Done, 250);
    let send = Action::SendVideo { pts: seconds(2.0), duration: seconds(90.0) };
    answer(&mut p, send, Event::Sent(Delivery::Accepted), 260);
    // The next one is due 1000 after the start at 230.
    answer(&mut p, Action::ReceiveVideo, Event::Frame { pts: Some(seconds(2.5)) }, 270);
    answer(&mut p, Action::ReadPaused, Event::Paused(false), 280);
    let aim = Action::MeasureTarget { pts: seconds(2.5), origin: seconds(2.0) };
    answer(&mut p, aim, Event::Target(1000), 330);
    answer(&mut p, Action::Sleep { nanos: 900 }, Event::Done, 1230);
    answer(&mut p, Action::ScaleVideo, Event::Done, 1240);
    let send = Action::SendVideo { pts: seconds(2.5), duration: seconds(90.0) };
    // A full screen loses the frame.
    answer(&mut p, send, Event::Sent(Delivery::Full), 1250);
    answer(&mut p, Action::ReceiveVideo, Event::NoFrame, 1260);
    assert_eq!(p.action(), Action::ReadPaused);
}

#[test]
fn missing_time_stamp_is_the_beginning() {
    let mut p = reading(Some(0), None);
    p.advance(Event::Packet(Some(0)), 200);
    p.advance(Event::Done, 200);
    p.advance(Event::Frame { pts: None }, 200);
    p.advance(Event::Paused(false), 200);
    assert_eq!(p.action(), Action::MeasureTarget { pts: seconds(0.0), origin: seconds(0.0) });
}

#[test]
fn nobody_watching_stops_playing() {
    let mut p = reading(Some(0), None);
    for event in [
        Event::Packet(Some(0)),
        Event::Done,
        Event::Frame { pts: Some(seconds(1.0)) },
        Event::Paused(false),
        Event::Target(0),
        Event::Done,
    ] {
        p.advance(event, 300);
    }
    let send = Action::SendVideo { pts: seconds(1.0), duration: seconds(90.0) };
    answer(&mut p, send, Event::Sent(Delivery::Disconnected), 310);
    assert_eq!(p.action(), Action::Finish { outcome: Outcome::Stopped });
    p.advance(Event::Done, 320);
    assert_eq!(p.action(), Action::Finish { outcome: Outcome::Stopped });
}

#[test]
fn picture_that_cannot_be_scaled_fails() {
    let mut p = reading(Some(0), None);
    for event in [
        Event::Packet(Some(0)),
        Event::Done,
        Event::Frame { pts: Some(seconds(1.0)) },
        Event::Paused(false),
        Event::Target(0),
    ] {
        p.advance(event, 300);
    }
    answer(&mut p, Action::ScaleVideo, Event::Failed, 310);
    assert_eq!(p.action(), Action::Finish { outcome: Outcome::Failed });
}

#[test]
fn sound_alone_moves_the_time_on() {
    let mut p = reading(None, Some(1));
    answer(&mut p, Action::ReadPacket, Event::Packet(Some(1)), 200);
    answer(&mut p, Action::DecodeAudio, Event::Done, 210);
    answer(&mut p, Action::ReceiveAudio, Event::Frame { pts: Some(seconds(4.0)) }, 220);
    answer(&mut p, Action::ReadPaused, Event::Paused(false), 230);
    let mark = Action::SendTime { pts: seconds(4.0), duration: seconds(90.0) };
    answer(&mut p, mark, Event::Sent(Delivery::Full), 240);
    answer(&mut p, Action::ReadVolume, Event::Volume(volume(0.5)), 250);
    answer(&mut p, Action::QueueAudio { volume: volume(0.5) }, Event::Done, 260);
    let lead = Action::MeasureLead {
        pts: seconds(4.0),
        origin: seconds(4.0),
        elapsed: 30,
        slack: seconds(1.0),
    };
    let ahead = Event::Lead { target: seconds(3.0), limit: seconds(1.5), delay: seconds(1.5) };
    answer(&mut p, lead, ahead, 270);
    answer(&mut p, Action::SleepSeconds { span: seconds(0.05) }, Event::Done, 280);
    answer(&mut p, Action::ReceiveAudio, Event::NoFrame, 290);
    assert_eq!(p.action(), Action::ReadPaused);
}

#[test]
fn sound_that_is_not_ahead_is_not_held_back() {
    let mut p = reading(None, Some(1));
    for event in [
        Event::Packet(Some(1)),
        Event::Done,
        Event::Frame { pts: None },
        Event::Paused(false),
        Event::Sent(Delivery::Accepted),
        Event::Volume(volume(1.0)),
        Event::Done,
    ] {
        p.advance(event, 300);
    }
    let mut level = p;
    level.advance(
        Event::Lead { target: seconds(1.0), limit: seconds(1.0), delay: seconds(0.0) },
        310,
    );
    assert_eq!(level.action(), Action::ReceiveAudio);
    // A short lead is slept off in full.
    p.advance(
        Event::Lead { target: seconds(1.02), limit: seconds(1.0), delay: seconds(0.02) },
        310,
    );
    assert_eq!(p.action(), Action::SleepSeconds { span: seconds(0.02) });
}

#[test]
fn time_marks_beside_pictures_are_apart() {
    let mut p = reading(Some(0), Some(1));
    let frame = [
        Event::Frame { pts: Some(seconds(1.0)) },
        Event::Paused(false),
    ];
    p.advance(Event::Packet(Some(1)), 100);
    p.advance(Event::Done, 100);
    for event in frame {
        p.advance(event, 100_000_100);
    }
    // Not more than a tenth of a second since the file was opened at 100.
    assert_eq!(p.action(), Action::ReadVolume);
    for event in [
        Event::Volume(volume(1.0)),
        Event::Done,
        Event::Lead { target: seconds(0.0), limit: seconds(1.0), delay: seconds(-1.0) },
    ] {
        p.advance(event, 100_000_100);
    }
    for event in frame {
        p.advance(event, 100_000_101);
    }
    let mark = Action::SendTime { pts: seconds(1.0), duration: seconds(90.0) };
    answer(&mut p, mark, Event::Sent(Delivery::Accepted), 100_000_200);
    assert_eq!(p.time_sent, 100_000_200);
    assert_eq!(p.action(), Action::ReadVolume);
}

#[test]
fn disconnected_time_mark_stops_playing() {
    let mut p = reading(None, Some(1));
    for event in [
        Event::Packet(Some(1)),
        Event::Done,
        Event::Frame { pts: None },
        Event::Paused(false),
        Event::Sent(Delivery::Disconnected),
    ] {
        p.advance(event, 300);
    }
    assert_eq!(p.action(), Action::Finish { outcome: Outcome::Stopped });
}

#[test]
fn packets_of_other_streams_are_skipped() {
    let mut p = reading(Some(0), Some(1));
    p.advance(Event::Packet(Some(5)), 200);
    assert_eq!(p.action(), Action::ReadPaused);
    assert_eq!(p.clock, None);
}

#[test]
fn pictures_end_before_sound_and_the_rest_is_played() {
    let mut p = reading(Some(0), Some(1));
    answer(&mut p, Action::ReadPacket, Event::Packet(None), 200);
    answer(&mut p, Action::EndVideo, Event::Done, 210);
    answer(&mut p, Action::ReceiveVideo, Event::NoFrame, 220);
    answer(&mut p, Action::EndAudio, Event::Done, 230);
    answer(&mut p, Action::ReceiveAudio, Event::NoFrame, 240);
    answer(&mut p, Action::ReadVolume, Event::Volume(volume(0.25)), 250);
    answer(&mut p, Action::ReadDelay, Event::Delay(Some(64)), 260);
    answer(&mut p, Action::FlushResampler { samples: 64 }, Event::Flushed(64), 270);
    answer(&mut p, Action::QueueFlushed { volume: volume(0.25) }, Event::Done, 280);
    let again = p;
    answer(&mut p, Action::ReadDelay, Event::Delay(Some(0)), 290);
    answer(&mut p, Action::SleepUntilEnd, Event::Done, 300);
    assert_eq!(p.action(), Action::Finish { outcome: Outcome::Ended });

    let mut none = again;
    none.advance(Event::Delay(None), 290);
    assert_eq!(none.action(), Action::SleepUntilEnd);

    let mut dry = again;
    dry.advance(Event::Delay(Some(3)), 290);
    dry.advance(Event::Flushed(0), 300);
    assert_eq!(dry.action(), Action::SleepUntilEnd);

    let mut failed = again;
    failed.advance(Event::Delay(Some(3)), 290);
    failed.advance(Event::Failed, 300);
    assert_eq!(failed.action(), Action::Finish { outcome: Outcome::Failed });
}

#[test]
fn file_without_streams_ends_when_it_is_read() {
    let mut p = reading(None, None);
    p.advance(Event::Packet(None), 200);
    assert_eq!(p.action(), Action::Finish { outcome: Outcome::Ended });

    let mut mute = reading(Some(0), None);
    mute.advance(Event::Packet(None), 200);
    answer(&mut mute, Action::EndVideo, Event::Done, 210);
    answer(&mut mute, Action::ReceiveVideo, Event::NoFrame, 220);
    assert_eq!(mute.action(), Action::Finish { outcome: Outcome::Ended });
}

#[test]
fn event_that_was_not_asked_for_changes_nothing() {
    let p = reading(Some(0), Some(1));
    for event in [
        Event::Done,
        Event::Failed,
        Event::Paused(true),
        Event::NoFrame,
        Event::Target(5),
        Event::Sent(Delivery::Disconnected),
        Event::Flushed(1),
    ] {
        let mut q = p;
        q.advance(event, 500);
        assert_eq!(q, Playback { now: 500, ..p });
    }
}
