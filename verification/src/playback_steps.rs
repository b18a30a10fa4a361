//! What playing a file asks for, from one thing that happens to the next.
use crate::ieee::{Double, Single};
use crate::playback::{
    Action, Delivery, Event, MasterClock, Outcome, Playback, Point, Rest, Stage,
};
use vstd::prelude::*;

verus! {

impl Playback {
    /// The piece of sound that is on its way to the device: what remains after it, and its time.
    pub open spec fn sound_in_hand(self) -> Option<(Rest, Double)> {
        match self.stage {
            Stage::Gate { point: Point::Audio { rest, pts } }
            | Stage::Silence { point: Point::Audio { rest, pts }, .. }
            | Stage::Hold { point: Point::Audio { rest, pts }, .. }
            | Stage::Recheck { point: Point::Audio { rest, pts }, .. }
            | Stage::Unsilence { point: Point::Audio { rest, pts }, .. }
            | Stage::SendTime { rest, pts }
            | Stage::Volume { rest, pts }
            | Stage::QueueAudio { rest, pts, .. }
            | Stage::Lead { rest, pts, .. } => Some((rest, pts)),
            _ => None,
        }
    }
}

/// Opening goes in order: the decoder library, the file, its pictures, its sound; then the pause
/// switch is looked at. What was found is kept, no clock runs, and the time display counts as moved
/// on when opening was done.
pub proof fn law_opening_goes_in_order(
    start: u128,
    duration: Double,
    video: Option<usize>,
    audio: Option<usize>,
    t1: u128,
    t2: u128,
    t3: u128,
    t4: u128,
)
    ensures
        ({
            let fresh = Playback::fresh(start);
            let ready = fresh.next(Event::Done, t1);
            let open = ready.next(Event::Opened { duration }, t2);
            let shown = open.next(Event::Stream(video), t3);
            let heard = shown.next(Event::Stream(audio), t4);
            &&& fresh.pending() == Action::InitDecoder
            &&& ready.pending() == Action::OpenInput
            &&& open.pending() == Action::OpenVideo
            &&& shown.pending() == Action::OpenAudio
            &&& heard.pending() == Action::ReadPaused
            &&& heard.stage == (Stage::Gate { point: Point::Packet })
            &&& heard.video == video
            &&& heard.audio == audio
            &&& heard.duration == duration
            &&& heard.clock is None
            &&& heard.time_sent == t4
            &&& heard.now == t4
        }),
{
}

/// The pause switch holds playing up wherever it is looked at, whatever streams the file has: sound
/// is silenced first where there is any, and otherwise the wait begins at once. Nothing else
/// changes. Only a switch that is off lets playing past.
pub proof fn law_switch_holds_playing_up(p: Playback, point: Point, event: Event, now: u128)
    requires
        p.stage == (Stage::Gate { point }),
    ensures
        p.pending() == Action::ReadPaused,
        ({
            let q = p.next(Event::Paused(true), now);
            &&& q.held() == Some((point, p.now))
            &&& p.audio is Some ==> q.stage == (Stage::Silence { point, since: p.now })
                && q.pending() == Action::PauseAudio
            &&& p.audio is None ==> q.stage == (Stage::Hold { point, since: p.now }) && q.pending()
                == (Action::Sleep { nanos: 10_000_000 })
            &&& q == (Playback { stage: q.stage, now, ..p })
        }),
        event != Event::Paused(false) ==> p.next(event, now).stage == p.stage || p.next(
            event,
            now,
        ).held() == Some((point, p.now)),
        p.next(Event::Paused(false), now).stage != p.stage,
        p.next(Event::Paused(false), now).held() is None,
{
}

/// While it is held up, playing looks at the switch after every sleep of ten milliseconds and, as
/// long as the switch is on, is after it where it was before.
pub proof fn law_held_playing_looks_again(p: Playback, slept: u128, looked: u128)
    requires
        p.stage is Hold,
    ensures
        p.pending() == (Action::Sleep { nanos: 10_000_000 }),
        p.next(Event::Done, slept).pending() == Action::ReadPaused,
        p.next(Event::Done, slept).next(Event::Paused(true), looked) == (Playback {
            now: looked,
            ..p
        }),
{
}

/// A pause leaves no trace but in the clock: sound is silenced and let go again where there is any,
/// and then playing stands where it would stand had the switch been off, with a clock that was set
/// on by the whole length of the pause.
pub proof fn law_pause_leaves_no_trace(
    p: Playback,
    point: Point,
    stopped: u128,
    silent: u128,
    slept: u128,
    looked: u128,
    resumed: u128,
)
    requires
        p.well_formed(),
        p.stage == (Stage::Gate { point }),
        p.now <= stopped <= silent <= slept <= looked <= resumed,
    ensures
        ({
            let a = p.next(Event::Paused(true), stopped);
            let b = if p.audio is Some {
                a.next(Event::Done, silent)
            } else {
                a
            };
            let c = b.next(Event::Done, slept);
            let d = c.next(Event::Paused(false), looked);
            let end = if p.audio is Some {
                resumed
            } else {
                looked
            };
            let e = if p.audio is Some {
                d.next(Event::Done, resumed)
            } else {
                d
            };
            let clock = match p.clock {
                Some(clock) => Some(
                    MasterClock {
                        origin: clock.origin,
                        start: (clock.start + (end - p.now)) as u128,
                    },
                ),
                None => None,
            };
            &&& b.pending() == (Action::Sleep { nanos: 10_000_000 })
            &&& c.pending() == Action::ReadPaused
            &&& p.audio is Some ==> d.pending() == Action::ResumeAudio
            &&& e == (Playback { clock, ..p }).next(Event::Paused(false), end)
        }),
{
}

/// Past the switch, before a packet: the seek cell is read, and nothing else has changed.
pub proof fn law_packets_pass_the_switch(p: Playback, now: u128)
    requires
        p.stage == (Stage::Gate { point: Point::Packet }),
    ensures
        p.next(Event::Paused(false), now).pending() == Action::ReadSeek,
        p.next(Event::Paused(false), now) == (Playback { now, stage: Stage::SeekCheck, ..p }),
{
}

/// Past the switch, before a picture: its time is measured from the origin of the clock, which
/// starts now with this picture where it did not run.
pub proof fn law_pictures_pass_the_switch(p: Playback, rest: Rest, pts: Double, now: u128)
    requires
        p.stage == (Stage::Gate { point: Point::Video { rest, pts } }),
    ensures
        ({
            let q = p.next(Event::Paused(false), now);
            &&& q.clock is Some
            &&& p.clock is Some ==> q.clock == p.clock
            &&& p.clock is None ==> q.clock->0.origin == pts && q.clock->0.start == now
            &&& q.pending() == (Action::MeasureTarget { pts, origin: q.clock->0.origin })
            &&& q.stage == (Stage::AimVideo { rest, pts, clock: q.clock->0 })
            &&& q == (Playback { now, stage: q.stage, clock: q.clock, ..p })
        }),
{
}

/// Past the switch, before a piece of sound: the time display is moved on to its time where there
/// are no pictures, or where more than a tenth of a second has passed since that was last done.
/// Otherwise the volume is read at once. The clock starts now with this sound where it did not run.
pub proof fn law_sound_passes_the_switch(p: Playback, rest: Rest, pts: Double, now: u128)
    requires
        p.stage == (Stage::Gate { point: Point::Audio { rest, pts } }),
    ensures
        ({
            let q = p.next(Event::Paused(false), now);
            &&& q.clock is Some
            &&& p.clock is Some ==> q.clock == p.clock
            &&& p.clock is None ==> q.clock->0.origin == pts && q.clock->0.start == now
            &&& p.video is None || now > p.time_sent + 100_000_000 ==> q.stage == (
            Stage::SendTime { rest, pts }) && q.pending() == (Action::SendTime {
                pts,
                duration: p.duration,
            })
            &&& p.video is Some && now <= p.time_sent + 100_000_000 ==> q.stage == (Stage::Volume {
                rest,
                pts,
            }) && q.pending() == Action::ReadVolume
            &&& q == (Playback { now, stage: q.stage, clock: q.clock, ..p })
        }),
{
}

/// A request to seek is carried out step by step, however long each step takes: the input is moved,
/// each decoder that is there forgets what it holds, the seek cell is emptied with what is not a
/// number, and the next packet is read. The clock is stopped; nothing else has changed.
pub proof fn law_seek_goes_in_order(
    p: Playback,
    target: Double,
    t1: u128,
    t2: u128,
    t3: u128,
    t4: u128,
    t5: u128,
)
    requires
        p.stage is SeekCheck,
        target.bits % 0x8000_0000_0000_0000 <= 0x7ff0_0000_0000_0000,
    ensures
        p.pending() == Action::ReadSeek,
        ({
            let moved = p.next(Event::Seek(target), t1);
            let video = moved.next(Event::Done, t2);
            let audio = if p.video is Some {
                video.next(Event::Done, t3)
            } else {
                video
            };
            let cleared = if p.audio is Some {
                audio.next(Event::Done, t4)
            } else {
                audio
            };
            let done = cleared.next(Event::Done, t5);
            &&& moved.pending() == (Action::SeekInput { target })
            &&& p.video is Some ==> video.pending() == Action::ResetVideo
            &&& p.audio is Some ==> audio.pending() == Action::ResetAudio
            &&& (cleared.pending() matches Action::StoreSeek { value } && value.bits
                % 0x8000_0000_0000_0000 > 0x7ff0_0000_0000_0000)
            &&& done.pending() == Action::ReadPacket
            &&& done == (Playback { now: t5, clock: None, stage: Stage::Read, ..p })
        }),
{
}

/// A seek cell that holds what is not a number asks for nothing: the next packet is read.
pub proof fn law_no_number_is_no_seek(p: Playback, target: Double, now: u128)
    requires
        p.stage is SeekCheck,
        target.bits % 0x8000_0000_0000_0000 > 0x7ff0_0000_0000_0000,
    ensures
        p.next(Event::Seek(target), now).pending() == Action::ReadPacket,
        p.next(Event::Seek(target), now) == (Playback { now, stage: Stage::Read, ..p }),
{
}

/// A packet is decoded by the decoder of its stream, which is then asked for its frames; a packet
/// of no known stream leads back to the switch.
pub proof fn law_packets_are_decoded(p: Playback, stream: usize, read: u128, fed: u128)
    requires
        p.stage is Read,
    ensures
        p.pending() == Action::ReadPacket,
        ({
            let q = p.next(Event::Packet(Some(stream)), read);
            let r = q.next(Event::Done, fed);
            &&& p.video == Some(stream) ==> q.pending() == Action::DecodeVideo && r.pending()
                == Action::ReceiveVideo && r == (Playback {
                now: fed,
                stage: Stage::DrainVideo { rest: Rest::Packet(stream) },
                ..p
            })
            &&& p.video != Some(stream) && p.audio == Some(stream) ==> q.pending()
                == Action::DecodeAudio && r.pending() == Action::ReceiveAudio && r == (Playback {
                now: fed,
                stage: Stage::DrainAudio { rest: Rest::Packet(stream) },
                ..p
            })
            &&& p.video != Some(stream) && p.audio != Some(stream) ==> q == (Playback {
                now: read,
                stage: Stage::Gate { point: Point::Packet },
                ..p
            })
        }),
{
}

/// Once a decoder has given out the frames of a packet, a sound decoder of the same stream has its
/// turn after the picture decoder; then playing is back at the switch before the next packet.
pub proof fn law_empty_decoder_ends_the_packet(p: Playback, stream: usize, now: u128, fed: u128)
    ensures
        p.stage == (Stage::DrainVideo { rest: Rest::Packet(stream) }) && p.audio != Some(stream)
            ==> p.next(Event::NoFrame, now) == (Playback {
            now,
            stage: Stage::Gate { point: Point::Packet },
            ..p
        }),
        p.stage == (Stage::DrainVideo { rest: Rest::Packet(stream) }) && p.audio == Some(stream)
            ==> p.next(Event::NoFrame, now).pending() == Action::DecodeAudio && p.next(
            Event::NoFrame,
            now,
        ).next(Event::Done, fed) == (Playback {
            now: fed,
            stage: Stage::DrainAudio { rest: Rest::Packet(stream) },
            ..p
        }),
        p.stage == (Stage::DrainAudio { rest: Rest::Packet(stream) }) ==> p.next(
            Event::NoFrame,
            now,
        ) == (Playback { now, stage: Stage::Gate { point: Point::Packet }, ..p }),
{
}

/// A picture is shown at its time: the wait ends exactly when the clock reaches the moment at which
/// the picture is due, and there is none where that moment has come. A picture that is not waited
/// for is scaled at once.
pub proof fn law_wait_ends_when_the_picture_is_due(
    p: Playback,
    target: u128,
    now: u128,
    awake: u128,
)
    requires
        p.well_formed(),
        p.stage is AimVideo,
        now >= p.now,
    ensures
        p.clock is Some,
        ({
            let clock = p.clock->0;
            let q = p.next(Event::Target(target), now);
            &&& now < clock.start + target ==> (q.pending() matches Action::Sleep { nanos } && now
                + nanos == clock.start + target)
            &&& now < clock.start + target ==> q.next(Event::Done, awake).pending()
                == Action::ScaleVideo
            &&& now >= clock.start + target ==> q.pending() == Action::ScaleVideo
            &&& q.clock == p.clock
        }),
{
}

/// A decoded picture goes to the screen step by step, however long each step takes: past the
/// switch, its time is measured, it is waited for where it is early, scaled, and offered with its
/// own time and the length of the file. Then the decoder is asked for the next frame of the same
/// packet. A picture without a time counts as one of the beginning.
pub proof fn law_picture_goes_to_the_screen(
    p: Playback,
    pts: Option<Double>,
    target: u128,
    delivery: Delivery,
    t0: u128,
    t1: u128,
    t2: u128,
    t3: u128,
    t4: u128,
    t5: u128,
)
    requires
        p.well_formed(),
        p.stage is DrainVideo,
        p.now <= t0 <= t1 <= t2 <= t3 <= t4 <= t5,
        delivery != Delivery::Disconnected,
    ensures
        p.pending() == Action::ReceiveVideo,
        ({
            let due = match pts {
                Some(pts) => pts,
                None => Double { bits: 0 },
            };
            let clock = match p.clock {
                Some(clock) => clock,
                None => MasterClock { origin: due, start: t1 },
            };
            let early = t2 < clock.start + target;
            let got = p.next(Event::Frame { pts }, t0);
            let passed = got.next(Event::Paused(false), t1);
            let aimed = passed.next(Event::Target(target), t2);
            let waited = if early {
                aimed.next(Event::Done, t3)
            } else {
                aimed
            };
            let scaled = waited.next(Event::Done, t4);
            let sent = scaled.next(Event::Sent(delivery), t5);
            &&& got.pending() == Action::ReadPaused
            &&& passed.pending() == (Action::MeasureTarget { pts: due, origin: clock.origin })
            &&& early ==> aimed.pending() == (Action::Sleep {
                nanos: (clock.start + target - t2) as u128,
            })
            &&& waited.pending() == Action::ScaleVideo
            &&& scaled.pending() == (Action::SendVideo { pts: due, duration: p.duration })
            &&& sent.pending() == Action::ReceiveVideo
            &&& sent == (Playback { now: t5, clock: Some(clock), ..p })
        }),
{
}

/// A decoded piece of sound goes to the device step by step, however long each step takes: past the
/// switch, the time display is moved on where that is due, the volume is read, and the sound is
/// queued at that volume. Then its lead over the clock is measured: the lead of this very sound,
/// from the origin of the clock, against the time that has passed since the clock started and one
/// second. A piece without a time counts as one of the beginning.
pub proof fn law_sound_goes_to_the_device(
    p: Playback,
    pts: Option<Double>,
    volume: Single,
    delivery: Delivery,
    t0: u128,
    t1: u128,
    t2: u128,
    t3: u128,
    t4: u128,
)
    requires
        p.well_formed(),
        p.stage is DrainAudio,
        p.now <= t0 <= t1 <= t2 <= t3 <= t4,
        delivery != Delivery::Disconnected,
    ensures
        p.pending() == Action::ReceiveAudio,
        ({
            let due = match pts {
                Some(pts) => pts,
                None => Double { bits: 0 },
            };
            let clock = match p.clock {
                Some(clock) => clock,
                None => MasterClock { origin: due, start: t1 },
            };
            let mark = p.video is None || t1 > p.time_sent + 100_000_000;
            let got = p.next(Event::Frame { pts }, t0);
            let passed = got.next(Event::Paused(false), t1);
            let marked = if mark {
                passed.next(Event::Sent(delivery), t2)
            } else {
                passed
            };
            let read = marked.next(Event::Volume(volume), t3);
            let queued = read.next(Event::Done, t4);
            &&& got.pending() == Action::ReadPaused
            &&& mark ==> passed.pending() == (Action::SendTime { pts: due, duration: p.duration })
            &&& marked.pending() == Action::ReadVolume
            &&& read.pending() == (Action::QueueAudio { volume })
            &&& queued.pending() == (Action::MeasureLead {
                pts: due,
                origin: clock.origin,
                elapsed: (t4 - clock.start) as u128,
                slack: Double { bits: 0x3ff0_0000_0000_0000 },
            })
            &&& queued == (Playback {
                now: t4,
                clock: Some(clock),
                time_sent: if mark {
                    t2
                } else {
                    p.time_sent
                },
                stage: queued.stage,
                ..p
            })
            &&& queued.sound_in_hand() == Some((p.stage->DrainAudio_rest, due))
        }),
{
}

/// The sound that was decoded is the one that is queued and measured: on its way its time does not
/// change, and it is let go only when its lead is known, when nobody takes frames any more, or when
/// it cannot be queued.
pub proof fn law_sound_in_hand_is_kept(p: Playback, event: Event, now: u128)
    requires
        p.well_formed(),
        p.sound_in_hand() is Some,
    ensures
        ({
            let q = p.next(event, now);
            ||| q.sound_in_hand() == p.sound_in_hand()
            ||| p.pending() is MeasureLead && event is Lead
            ||| p.pending() is SendTime && event == Event::Sent(Delivery::Disconnected)
            ||| p.pending() is QueueAudio && event == Event::Failed
        }),
        p.stage is SendTime ==> p.pending() == (Action::SendTime {
            pts: (p.sound_in_hand()->0).1,
            duration: p.duration,
        }),
        p.stage is Lead ==> p.clock is Some && p.pending() == (Action::MeasureLead {
            pts: (p.sound_in_hand()->0).1,
            origin: p.clock->0.origin,
            elapsed: (p.now - p.clock->0.start) as u128,
            slack: Double { bits: 0x3ff0_0000_0000_0000 },
        }),
{
}

/// Sound that leads by more than it may is held back: by what it leads, but by no more than a
/// twentieth of a second at a time. Sound that does not is not held back. Either way the decoder is
/// then asked for the next piece of the same packet.
pub proof fn law_leading_sound_is_held_back(
    p: Playback,
    target: Double,
    limit: Double,
    delay: Double,
    now: u128,
    awake: u128,
)
    requires
        p.stage is Lead,
        p.sound_in_hand() is Some,
    ensures
        ({
            let most = Double { bits: 0x3fa9_9999_9999_999a };
            let leads = !target.nan() && !limit.nan() && target.value() > limit.value();
            let q = p.next(Event::Lead { target, limit, delay }, now);
            let r = if leads {
                q.next(Event::Done, awake)
            } else {
                q
            };
            &&& leads && !delay.nan() && delay.value() <= most.value() ==> q.pending() == (
            Action::SleepSeconds { span: delay })
            &&& leads && (delay.nan() || delay.value() > most.value()) ==> q.pending() == (
            Action::SleepSeconds { span: most })
            &&& r.pending() == Action::ReceiveAudio
            &&& r == (Playback {
                now: if leads {
                    awake
                } else {
                    now
                },
                stage: Stage::DrainAudio { rest: (p.sound_in_hand()->0).0 },
                ..p
            })
        }),
{
}

/// At the end of the file the picture decoder, if there is one, gives out what it still holds, then
/// the sound decoder does; without sound playing has ended.
pub proof fn law_end_of_the_file(p: Playback, t1: u128, t2: u128, t3: u128, t4: u128)
    requires
        p.stage is Read,
    ensures
        ({
            let video = p.next(Event::Packet(None), t1);
            let shown = video.next(Event::Done, t2);
            let audio = if p.video is Some {
                shown.next(Event::NoFrame, t3)
            } else {
                video
            };
            let heard = audio.next(Event::Done, t4);
            &&& p.video is Some ==> video.pending() == Action::EndVideo
            &&& p.video is Some ==> shown.pending() == Action::ReceiveVideo
            &&& p.video is Some ==> shown == (Playback {
                now: t2,
                stage: Stage::DrainVideo { rest: Rest::End },
                ..p
            })
            &&& p.audio is Some ==> audio.pending() == Action::EndAudio
            &&& p.audio is Some ==> heard.pending() == Action::ReceiveAudio
            &&& p.audio is Some ==> heard == (Playback {
                now: t4,
                stage: Stage::DrainAudio { rest: Rest::End },
                ..p
            })
            &&& p.audio is None ==> audio.pending() == (Action::Finish { outcome: Outcome::Ended })
        }),
{
}

/// Once the sound decoder is empty at the end of the file, the volume is read and what the
/// resampler holds is given out at that volume, as long as it holds anything and gives anything
/// out; then the device plays what it has, and playing has ended.
pub proof fn law_rest_of_the_sound_is_played(
    p: Playback,
    volume: Single,
    delay: Option<i64>,
    given: usize,
    t1: u128,
    t2: u128,
    t3: u128,
    t4: u128,
    t5: u128,
)
    requires
        p.stage == (Stage::DrainAudio { rest: Rest::End }),
    ensures
        ({
            let empty = p.next(Event::NoFrame, t1);
            let read = empty.next(Event::Volume(volume), t2);
            let asked = read.next(Event::Delay(delay), t3);
            let flushed = asked.next(Event::Flushed(given), t4);
            let queued = flushed.next(Event::Done, t5);
            let holds = delay matches Some(samples) && samples > 0;
            &&& empty.pending() == Action::ReadVolume
            &&& read.pending() == Action::ReadDelay
            &&& !holds ==> asked.pending() == Action::SleepUntilEnd
            &&& !holds ==> asked.next(Event::Done, t4).pending() == (Action::Finish {
                outcome: Outcome::Ended,
            })
            &&& holds ==> asked.pending() == (Action::FlushResampler { samples: delay->0 })
            &&& holds && given == 0 ==> flushed.pending() == Action::SleepUntilEnd
            &&& holds && given == 0 ==> queued.pending() == (Action::Finish {
                outcome: Outcome::Ended,
            })
            &&& holds && given > 0 ==> flushed.pending() == (Action::QueueFlushed { volume })
            &&& holds && given > 0 ==> queued == (Playback { now: t5, ..read })
        }),
{
}

/// Whatever cannot be opened, decoded, scaled, queued, ended or flushed ends playing at once; what
/// cannot fail takes no notice.
pub proof fn law_what_fails_ends_playing(p: Playback, now: u128)
    ensures
        if ({
            ||| p.pending() == Action::InitDecoder
            ||| p.pending() == Action::OpenInput
            ||| p.pending() == Action::OpenVideo
            ||| p.pending() == Action::OpenAudio
            ||| p.pending() == Action::DecodeVideo
            ||| p.pending() == Action::ScaleVideo
            ||| p.pending() == Action::DecodeAudio
            ||| p.pending() is QueueAudio
            ||| p.pending() == Action::EndVideo
            ||| p.pending() == Action::EndAudio
            ||| p.pending() is FlushResampler
            ||| p.pending() is QueueFlushed
        }) {
            p.next(Event::Failed, now).pending() == (Action::Finish { outcome: Outcome::Failed })
        } else {
            p.next(Event::Failed, now) == (Playback { now, ..p })
        },
{
}

/// A frame that nobody takes any more, with a picture or without, ends playing at once.
pub proof fn law_what_nobody_takes_ends_playing(p: Playback, now: u128)
    requires
        p.pending() is SendVideo || p.pending() is SendTime,
    ensures
        p.next(Event::Sent(Delivery::Disconnected), now).pending() == (Action::Finish {
            outcome: Outcome::Stopped,
        }),
{
}

/// Each step changes only its own: the time is that of the event; the streams and the length change
/// only when they are found; the mark of the time display only when opening is done or a time was
/// sent; and the clock only past the switch or in a seek.
pub proof fn law_steps_change_only_their_own(p: Playback, event: Event, now: u128)
    ensures
        ({
            let q = p.next(event, now);
            &&& q.now == now
            &&& q.duration != p.duration ==> p.pending() == Action::OpenInput && event == (
            Event::Opened { duration: q.duration })
            &&& q.video != p.video ==> p.pending() == Action::OpenVideo && event == Event::Stream(
                q.video,
            )
            &&& q.audio != p.audio ==> p.pending() == Action::OpenAudio && event == Event::Stream(
                q.audio,
            )
            &&& q.time_sent != p.time_sent ==> q.time_sent == now && (p.pending()
                == Action::OpenAudio && event is Stream || p.pending() is SendTime && event is Sent)
            &&& q.clock != p.clock ==> {
                ||| p.pending() == Action::ReadPaused && event == Event::Paused(false)
                ||| p.pending() == Action::ResumeAudio && event == Event::Done
                ||| q.clock is None && q.pending() is StoreSeek && event == Event::Done
            }
        }),
{
}

} // verus!
