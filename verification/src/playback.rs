//! The course of playing one file.
//!
//! [`Playback`] decides what happens next; the caller does it. [`Playback::action`] names the
//! one thing to be done, and [`Playback::advance`] takes what came of it, together with the time
//! at which it was done. Times are nanoseconds of a clock that never goes back.
use crate::ieee::{Double, Single};
use vstd::prelude::*;

verus! {

/// The pause between two looks at the pause switch.
pub const HOLD_NANOS: u128 = 10_000_000;

/// The time display is moved on by the sound track once this much time has passed.
pub const TIME_MARK_NANOS: u128 = 100_000_000;

/// How far decoded sound may run ahead of the clock: the bit pattern of one second.
pub const SOUND_SLACK: u64 = 0x3ff0_0000_0000_0000;

/// The longest single sleep that holds decoded sound back: the bit pattern of a
/// twentieth of a second.
pub const SOUND_SLEEP: u64 = 0x3fa9_9999_9999_999a;

/// The bit pattern of the moment zero, which stands for a missing time stamp.
pub const ZERO_SECONDS: u64 = 0;

/// What the seek cell holds when no seek is asked for: a bit pattern that is not a number.
pub const NO_SEEK: u64 = 0x7ff8_0000_0000_0000;

/// Ties presentation times to the clock: the moment `origin` of the recording was due at `start`.
#[derive(Clone, Copy, PartialEq, Eq, Structural, Debug)]
pub struct MasterClock {
    pub origin: Double,
    pub start: u128,
}

/// What remains to be done once a decoder has no more frames.
#[derive(Clone, Copy, PartialEq, Eq, Structural, Debug)]
pub enum Rest {
    /// The packet that came from this stream.
    Packet(usize),
    /// The end of the file.
    End,
}

/// A point at which playing stops while the pause switch is on.
#[derive(Clone, Copy, PartialEq, Eq, Structural, Debug)]
pub enum Point {
    /// Before the next packet is read.
    Packet,
    /// Before a decoded picture is shown.
    Video { rest: Rest, pts: Double },
    /// Before a decoded piece of sound is queued.
    Audio { rest: Rest, pts: Double },
}

/// How playing came to its end.
#[derive(Clone, Copy, PartialEq, Eq, Structural, Debug)]
pub enum Outcome {
    /// The file was played to its end.
    Ended,
    /// Nobody takes the frames any more.
    Stopped,
    /// Something that was asked for could not be done.
    Failed,
}

/// What playing waits for.
#[derive(Clone, Copy, PartialEq, Eq, Structural, Debug)]
pub enum Stage {
    Init,
    Open,
    OpenVideo,
    OpenAudio,
    Gate { point: Point },
    Silence { point: Point, since: u128 },
    Hold { point: Point, since: u128 },
    Recheck { point: Point, since: u128 },
    Unsilence { point: Point, since: u128 },
    SeekCheck,
    SeekTo { target: Double },
    SeekVideo,
    SeekAudio,
    SeekDone,
    Read,
    FeedVideo { stream: usize },
    DrainVideo { rest: Rest },
    AimVideo { rest: Rest, pts: Double, clock: MasterClock },
    SleepVideo { rest: Rest, pts: Double, nanos: u128 },
    Scale { rest: Rest, pts: Double },
    SendVideo { rest: Rest, pts: Double },
    FeedAudio { stream: usize },
    DrainAudio { rest: Rest },
    SendTime { rest: Rest, pts: Double },
    Volume { rest: Rest, pts: Double },
    QueueAudio { rest: Rest, pts: Double, volume: Single },
    Lead { rest: Rest, pts: Double, clock: MasterClock },
    SleepAudio { rest: Rest, span: Double },
    EndVideo,
    EndAudio,
    TailVolume,
    TailDelay { volume: Single },
    TailFlush { volume: Single, samples: i64 },
    TailQueue { volume: Single },
    RunOut,
    Finished { outcome: Outcome },
}

/// What became of a frame that was offered to the screen.
#[derive(Clone, Copy, PartialEq, Eq, Structural, Debug)]
pub enum Delivery {
    Accepted,
    /// The screen is behind; the frame is lost.
    Full,
    /// Nobody takes frames any more.
    Disconnected,
}

/// What came of the last action.
#[derive(Clone, Copy, PartialEq, Eq, Structural, Debug)]
pub enum Event {
    Done,
    Failed,
    /// The file is open; its length in seconds.
    Opened { duration: Double },
    /// The stream that was opened, or none where the file has none of that kind.
    Stream(Option<usize>),
    /// The state of the pause switch.
    Paused(bool),
    /// What the seek cell holds.
    Seek(Double),
    /// The stream of the packet that was read, or none at the end of the file.
    Packet(Option<usize>),
    /// A decoded frame, with its time in seconds where it has one.
    Frame { pts: Option<Double> },
    NoFrame,
    /// How long after the start of the clock the picture is due.
    Target(u128),
    Sent(Delivery),
    Volume(Single),
    /// How far the sound lies after the origin; how far it may lie, which is the time that has
    /// passed and the slack; and the first less the time that has passed and less the slack. All
    /// in seconds.
    Lead { target: Double, limit: Double, delay: Double },
    /// How many samples the resampler still holds, if it can tell.
    Delay(Option<i64>),
    /// How many samples the resampler gave out.
    Flushed(usize),
}

/// What is to be done next.
#[derive(Clone, Copy, PartialEq, Eq, Structural, Debug)]
pub enum Action {
    InitDecoder,
    OpenInput,
    OpenVideo,
    OpenAudio,
    ReadPaused,
    PauseAudio,
    ResumeAudio,
    Sleep { nanos: u128 },
    ReadSeek,
    /// Move the input to this second; whether that works makes no difference.
    SeekInput { target: Double },
    /// Forget what the picture decoder holds.
    ResetVideo,
    /// Forget what the sound decoder and the sound device hold, and let the device run.
    ResetAudio,
    /// Put this into the seek cell.
    StoreSeek { value: Double },
    ReadPacket,
    DecodeVideo,
    ReceiveVideo,
    /// Find how long after `origin` the moment `pts` lies, not below zero.
    MeasureTarget { pts: Double, origin: Double },
    ScaleVideo,
    SendVideo { pts: Double, duration: Double },
    DecodeAudio,
    ReceiveAudio,
    /// Offer a frame without a picture.
    SendTime { pts: Double, duration: Double },
    ReadVolume,
    QueueAudio { volume: Single },
    /// Find how far `pts` lies after `origin`, and how far it may lie: `elapsed` nanoseconds and
    /// `slack` seconds.
    MeasureLead { pts: Double, origin: Double, elapsed: u128, slack: Double },
    SleepSeconds { span: Double },
    EndVideo,
    EndAudio,
    ReadDelay,
    FlushResampler { samples: i64 },
    QueueFlushed { volume: Single },
    SleepUntilEnd,
    Finish { outcome: Outcome },
}

/// The state of playing one file.
#[derive(Clone, Copy, PartialEq, Eq, Structural, Debug)]
pub struct Playback {
    pub stage: Stage,
    /// The stream of the pictures, once known to be there.
    pub video: Option<usize>,
    /// The stream of the sound, once known to be there.
    pub audio: Option<usize>,
    pub duration: Double,
    pub clock: Option<MasterClock>,
    /// When the sound track last moved the time display on.
    pub time_sent: u128,
    /// When the last event was taken.
    pub now: u128,
}

/// Whether `event` can come of `action`.
pub open spec fn answers(event: Event, action: Action) -> bool {
    match action {
        Action::InitDecoder | Action::DecodeVideo | Action::ScaleVideo | Action::DecodeAudio
        | Action::QueueAudio { .. } | Action::EndVideo | Action::EndAudio
        | Action::QueueFlushed { .. } => event is Done || event is Failed,
        Action::OpenInput => event is Opened || event is Failed,
        Action::OpenVideo | Action::OpenAudio => event is Stream || event is Failed,
        Action::ReadPaused => event is Paused,
        Action::PauseAudio | Action::ResumeAudio | Action::Sleep { .. }
        | Action::SeekInput { .. } | Action::ResetVideo | Action::ResetAudio
        | Action::StoreSeek { .. } | Action::SleepSeconds { .. } | Action::SleepUntilEnd =>
        event is Done,
        Action::ReadSeek => event is Seek,
        Action::ReadPacket => event is Packet,
        Action::ReceiveVideo | Action::ReceiveAudio => event is Frame || event is NoFrame,
        Action::MeasureTarget { .. } => event is Target,
        Action::SendVideo { .. } | Action::SendTime { .. } => event is Sent,
        Action::ReadVolume => event is Volume,
        Action::MeasureLead { .. } => event is Lead,
        Action::ReadDelay => event is Delay,
        Action::FlushResampler { .. } => event is Flushed || event is Failed,
        Action::Finish { .. } => false,
    }
}

impl MasterClock {
    /// The clock after `span` nanoseconds that do not count.
    pub open spec fn later(self, span: int) -> MasterClock {
        MasterClock { origin: self.origin, start: (self.start + span) as u128 }
    }
}

impl Point {
    /// The frame that a decoder gave out, at the point before it is used.
    pub open spec fn video(rest: Rest, pts: Option<Double>) -> Point {
        Point::Video { rest, pts: pts.unwrap_or(Double { bits: ZERO_SECONDS }) }
    }

    /// The same for sound.
    pub open spec fn audio(rest: Rest, pts: Option<Double>) -> Point {
        Point::Audio { rest, pts: pts.unwrap_or(Double { bits: ZERO_SECONDS }) }
    }
}

impl Playback {
    /// Before anything has been done.
    pub open spec fn fresh(now: u128) -> Playback {
        Playback {
            stage: Stage::Init,
            video: None,
            audio: None,
            duration: Double { bits: ZERO_SECONDS },
            clock: None,
            time_sent: now,
            now,
        }
    }

    /// Whether what is used past `point` is there.
    pub open spec fn can_pass(self, point: Point) -> bool {
        match point {
            Point::Packet => true,
            Point::Video { .. } => self.video is Some,
            Point::Audio { .. } => self.audio is Some,
        }
    }

    /// Whether the stage only concerns streams that the file has.
    pub open spec fn stage_fits(self) -> bool {
        match self.stage {
            Stage::Gate { point } | Stage::Hold { point, .. } | Stage::Recheck { point, .. } =>
            self.can_pass(point),
            Stage::Silence { point, .. } | Stage::Unsilence { point, .. } => self.can_pass(point)
                && self.audio is Some,
            Stage::FeedVideo { stream } => self.video == Some(stream),
            Stage::SeekVideo | Stage::DrainVideo { .. } | Stage::AimVideo { .. }
            | Stage::SleepVideo { .. } | Stage::Scale { .. } | Stage::SendVideo { .. }
            | Stage::EndVideo => self.video is Some,
            Stage::FeedAudio { stream } => self.audio == Some(stream),
            Stage::SeekAudio | Stage::DrainAudio { .. } | Stage::EndAudio | Stage::TailVolume
            | Stage::TailDelay { .. } | Stage::TailFlush { .. } | Stage::TailQueue { .. }
            | Stage::RunOut => self.audio is Some,
            Stage::SendTime { .. } | Stage::Volume { .. } | Stage::QueueAudio { .. }
            | Stage::Lead { .. } | Stage::SleepAudio { .. } => self.audio is Some
                && self.clock is Some,
            _ => true,
        }
    }

    /// What no step breaks: the stage only concerns streams that are there, no time that is kept
    /// lies ahead of the present, the clock does not start during a pause, and where there are
    /// pictures the sound track moves the time display on only after a while.
    pub open spec fn well_formed(self) -> bool {
        &&& self.stage_fits()
        &&& self.time_sent <= self.now
        &&& self.clock matches Some(clock) ==> clock.start <= self.now
        &&& match self.stage {
            Stage::Silence { since, .. } | Stage::Hold { since, .. } | Stage::Recheck {
                since,
                ..
            } | Stage::Unsilence { since, .. } => {
                &&& since <= self.now
                &&& self.clock matches Some(clock) ==> clock.start <= since
            },
            Stage::AimVideo { clock, .. } | Stage::Lead { clock, .. } => {
                &&& clock.start <= self.now
                &&& self.clock == Some(clock)
            },
            Stage::SendTime { .. } => self.video is None || self.now - self.time_sent
                > TIME_MARK_NANOS,
            _ => true,
        }
    }

    /// Goes on with `stage`.
    pub open spec fn at(self, stage: Stage) -> Playback {
        Playback { stage, ..self }
    }

    /// Playing has come to an end.
    pub open spec fn finish(self, outcome: Outcome) -> Playback {
        self.at(Stage::Finished { outcome })
    }

    /// The clock, started with the moment `pts` where it does not run yet.
    pub open spec fn clock_from(self, pts: Double) -> MasterClock {
        match self.clock {
            Some(clock) => clock,
            None => MasterClock { origin: pts, start: self.now },
        }
    }

    /// Goes on past `point`.
    pub open spec fn pass(self, point: Point) -> Playback {
        match point {
            Point::Packet => self.at(Stage::SeekCheck),
            Point::Video { rest, pts } => {
                let clock = self.clock_from(pts);
                Playback {
                    clock: Some(clock),
                    stage: Stage::AimVideo { rest, pts, clock },
                    ..self
                }
            },
            Point::Audio { rest, pts } => {
                let stage = if self.video is None || self.now - self.time_sent
                    > TIME_MARK_NANOS {
                    Stage::SendTime { rest, pts }
                } else {
                    Stage::Volume { rest, pts }
                };
                Playback { clock: Some(self.clock_from(pts)), stage, ..self }
            },
        }
    }

    /// Goes on past `point` after a pause since `since`, which the clock does not count.
    pub open spec fn resume(self, point: Point, since: u128) -> Playback {
        let clock = match self.clock {
            Some(clock) => Some(clock.later(self.now - since)),
            None => None,
        };
        (Playback { clock, ..self }).pass(point)
    }

    /// The sound decoder's turn at a packet of `stream`.
    pub open spec fn offer_audio(self, stream: usize) -> Playback {
        if self.audio == Some(stream) {
            self.at(Stage::FeedAudio { stream })
        } else {
            self.at(Stage::Gate { point: Point::Packet })
        }
    }

    /// The sound decoder's turn at the end of the file.
    pub open spec fn end_audio(self) -> Playback {
        if self.audio is Some {
            self.at(Stage::EndAudio)
        } else {
            self.finish(Outcome::Ended)
        }
    }

    /// The end of a seek: the clock starts anew with the next frame.
    pub open spec fn seek_done(self) -> Playback {
        Playback { clock: None, stage: Stage::SeekDone, ..self }
    }

    /// The state after `event`, taken at the time `now`. An event that does not answer the
    /// action that was asked for moves only the time.
    pub open spec fn next(self, event: Event, now: u128) -> Playback {
        let at = Playback { now, ..self };
        match (self.stage, event) {
            // What can fail ends playing when it does.
            (
                Stage::Init | Stage::Open | Stage::OpenVideo | Stage::OpenAudio
                | Stage::FeedVideo { .. } | Stage::Scale { .. } | Stage::FeedAudio { .. }
                | Stage::QueueAudio { .. } | Stage::EndVideo | Stage::EndAudio
                | Stage::TailFlush { .. } | Stage::TailQueue { .. },
                Event::Failed,
            ) => at.finish(Outcome::Failed),
            // Opening the file.
            (Stage::Init, Event::Done) => at.at(Stage::Open),
            (Stage::Open, Event::Opened { duration }) => (Playback { duration, ..at }).at(
                Stage::OpenVideo,
            ),
            (Stage::OpenVideo, Event::Stream(video)) => (Playback { video, ..at }).at(
                Stage::OpenAudio,
            ),
            (Stage::OpenAudio, Event::Stream(audio)) => (Playback { audio, time_sent: now, ..at }).at(
                Stage::Gate { point: Point::Packet },
            ),
            // Pausing.
            (Stage::Gate { point }, Event::Paused(paused)) => if !paused {
                at.pass(point)
            } else if self.audio is Some {
                at.at(Stage::Silence { point, since: self.now })
            } else {
                at.at(Stage::Hold { point, since: self.now })
            },
            (Stage::Silence { point, since }, Event::Done) => at.at(Stage::Hold { point, since }),
            (Stage::Hold { point, since }, Event::Done) => at.at(Stage::Recheck { point, since }),
            (Stage::Recheck { point, since }, Event::Paused(paused)) => if paused {
                at.at(Stage::Hold { point, since })
            } else if self.audio is Some {
                at.at(Stage::Unsilence { point, since })
            } else {
                at.resume(point, since)
            },
            (Stage::Unsilence { point, since }, Event::Done) => at.resume(point, since),
            // Seeking.
            (Stage::SeekCheck, Event::Seek(target)) => if target.nan() {
                at.at(Stage::Read)
            } else {
                at.at(Stage::SeekTo { target })
            },
            (Stage::SeekTo { .. }, Event::Done) => if self.video is Some {
                at.at(Stage::SeekVideo)
            } else if self.audio is Some {
                at.at(Stage::SeekAudio)
            } else {
                at.seek_done()
            },
            (Stage::SeekVideo, Event::Done) => if self.audio is Some {
                at.at(Stage::SeekAudio)
            } else {
                at.seek_done()
            },
            (Stage::SeekAudio, Event::Done) => at.seek_done(),
            (Stage::SeekDone, Event::Done) => at.at(Stage::Read),
            // Reading packets.
            (Stage::Read, Event::Packet(Some(stream))) => if self.video == Some(stream) {
                at.at(Stage::FeedVideo { stream })
            } else {
                at.offer_audio(stream)
            },
            (Stage::Read, Event::Packet(None)) => if self.video is Some {
                at.at(Stage::EndVideo)
            } else {
                at.end_audio()
            },
            // Showing pictures.
            (Stage::FeedVideo { stream }, Event::Done) => at.at(
                Stage::DrainVideo { rest: Rest::Packet(stream) },
            ),
            (Stage::EndVideo, Event::Done) => at.at(Stage::DrainVideo { rest: Rest::End }),
            (Stage::DrainVideo { rest }, Event::Frame { pts }) => at.at(
                Stage::Gate { point: Point::video(rest, pts) },
            ),
            (Stage::DrainVideo { rest: Rest::Packet(stream) }, Event::NoFrame) => at.offer_audio(
                stream,
            ),
            (Stage::DrainVideo { rest: Rest::End }, Event::NoFrame) => at.end_audio(),
            (Stage::AimVideo { rest, pts, clock }, Event::Target(target)) => if target > now
                - clock.start {
                at.at(
                    Stage::SleepVideo { rest, pts, nanos: (target - (now - clock.start)) as u128 },
                )
            } else {
                at.at(Stage::Scale { rest, pts })
            },
            (Stage::SleepVideo { rest, pts, .. }, Event::Done) => at.at(Stage::Scale { rest, pts }),
            (Stage::Scale { rest, pts }, Event::Done) => at.at(Stage::SendVideo { rest, pts }),
            (Stage::SendVideo { rest, .. }, Event::Sent(delivery)) => if delivery
                == Delivery::Disconnected {
                at.finish(Outcome::Stopped)
            } else {
                at.at(Stage::DrainVideo { rest })
            },
            // Playing sound.
            (Stage::FeedAudio { stream }, Event::Done) => at.at(
                Stage::DrainAudio { rest: Rest::Packet(stream) },
            ),
            (Stage::EndAudio, Event::Done) => at.at(Stage::DrainAudio { rest: Rest::End }),
            (Stage::DrainAudio { rest }, Event::Frame { pts }) => at.at(
                Stage::Gate { point: Point::audio(rest, pts) },
            ),
            (Stage::DrainAudio { rest: Rest::Packet(_) }, Event::NoFrame) => at.at(
                Stage::Gate { point: Point::Packet },
            ),
            (Stage::DrainAudio { rest: Rest::End }, Event::NoFrame) => at.at(Stage::TailVolume),
            (Stage::SendTime { rest, pts }, Event::Sent(delivery)) => if delivery
                == Delivery::Disconnected {
                at.finish(Outcome::Stopped)
            } else {
                (Playback { time_sent: now, ..at }).at(Stage::Volume { rest, pts })
            },
            (Stage::Volume { rest, pts }, Event::Volume(volume)) => at.at(
                Stage::QueueAudio { rest, pts, volume },
            ),
            (Stage::QueueAudio { rest, pts, .. }, Event::Done) => match self.clock {
                Some(clock) => at.at(Stage::Lead { rest, pts, clock }),
                None => at.at(Stage::DrainAudio { rest }),
            },
            (Stage::Lead { rest, .. }, Event::Lead { target, limit, delay }) => if target.exceeds(
                limit,
            ) {
                at.at(Stage::SleepAudio { rest, span: delay.smaller(Double { bits: SOUND_SLEEP }) })
            } else {
                at.at(Stage::DrainAudio { rest })
            },
            (Stage::SleepAudio { rest, .. }, Event::Done) => at.at(Stage::DrainAudio { rest }),
            // Playing what the resampler still holds.
            (Stage::TailVolume, Event::Volume(volume)) => at.at(Stage::TailDelay { volume }),
            (Stage::TailDelay { volume }, Event::Delay(Some(samples))) => if samples > 0 {
                at.at(Stage::TailFlush { volume, samples })
            } else {
                at.at(Stage::RunOut)
            },
            (Stage::TailDelay { .. }, Event::Delay(None)) => at.at(Stage::RunOut),
            (Stage::TailFlush { volume, .. }, Event::Flushed(samples)) => if samples > 0 {
                at.at(Stage::TailQueue { volume })
            } else {
                at.at(Stage::RunOut)
            },
            (Stage::TailQueue { volume }, Event::Done) => at.at(Stage::TailDelay { volume }),
            (Stage::RunOut, Event::Done) => at.finish(Outcome::Ended),
            _ => at,
        }
    }

    /// What is to be done at this stage.
    pub open spec fn pending(self) -> Action {
        match self.stage {
            Stage::Init => Action::InitDecoder,
            Stage::Open => Action::OpenInput,
            Stage::OpenVideo => Action::OpenVideo,
            Stage::OpenAudio => Action::OpenAudio,
            Stage::Gate { .. } | Stage::Recheck { .. } => Action::ReadPaused,
            Stage::Silence { .. } => Action::PauseAudio,
            Stage::Hold { .. } => Action::Sleep { nanos: HOLD_NANOS },
            Stage::Unsilence { .. } => Action::ResumeAudio,
            Stage::SeekCheck => Action::ReadSeek,
            Stage::SeekTo { target } => Action::SeekInput { target },
            Stage::SeekVideo => Action::ResetVideo,
            Stage::SeekAudio => Action::ResetAudio,
            Stage::SeekDone => Action::StoreSeek { value: Double { bits: NO_SEEK } },
            Stage::Read => Action::ReadPacket,
            Stage::FeedVideo { .. } => Action::DecodeVideo,
            Stage::DrainVideo { .. } => Action::ReceiveVideo,
            Stage::AimVideo { pts, clock, .. } => Action::MeasureTarget {
                pts,
                origin: clock.origin,
            },
            Stage::SleepVideo { nanos, .. } => Action::Sleep { nanos },
            Stage::Scale { .. } => Action::ScaleVideo,
            Stage::SendVideo { pts, .. } => Action::SendVideo { pts, duration: self.duration },
            Stage::FeedAudio { .. } => Action::DecodeAudio,
            Stage::DrainAudio { .. } => Action::ReceiveAudio,
            Stage::SendTime { pts, .. } => Action::SendTime { pts, duration: self.duration },
            Stage::Volume { .. } | Stage::TailVolume => Action::ReadVolume,
            Stage::QueueAudio { volume, .. } => Action::QueueAudio { volume },
            Stage::Lead { pts, clock, .. } => Action::MeasureLead {
                pts,
                origin: clock.origin,
                elapsed: (self.now - clock.start) as u128,
                slack: Double { bits: SOUND_SLACK },
            },
            Stage::SleepAudio { span, .. } => Action::SleepSeconds { span },
            Stage::EndVideo => Action::EndVideo,
            Stage::EndAudio => Action::EndAudio,
            Stage::TailDelay { .. } => Action::ReadDelay,
            Stage::TailFlush { samples, .. } => Action::FlushResampler { samples },
            Stage::TailQueue { volume } => Action::QueueFlushed { volume },
            Stage::RunOut => Action::SleepUntilEnd,
            Stage::Finished { outcome } => Action::Finish { outcome },
        }
    }

    /// Before anything has been done.
    pub fn new(now: u128) -> (playback: Playback)
        ensures
            playback == Playback::fresh(now),
            playback.well_formed(),
    {
        Playback {
            stage: Stage::Init,
            video: None,
            audio: None,
            duration: Double { bits: ZERO_SECONDS },
            clock: None,
            time_sent: now,
            now,
        }
    }

    /// What is to be done next.
    pub fn action(&self) -> (action: Action)
        requires
            self.well_formed(),
        ensures
            action == self.pending(),
    {
        match self.stage {
            Stage::Init => Action::InitDecoder,
            Stage::Open => Action::OpenInput,
            Stage::OpenVideo => Action::OpenVideo,
            Stage::OpenAudio => Action::OpenAudio,
            Stage::Gate { .. } => Action::ReadPaused,
            Stage::Recheck { .. } => Action::ReadPaused,
            Stage::Silence { .. } => Action::PauseAudio,
            Stage::Hold { .. } => Action::Sleep { nanos: HOLD_NANOS },
            Stage::Unsilence { .. } => Action::ResumeAudio,
            Stage::SeekCheck => Action::ReadSeek,
            Stage::SeekTo { target } => Action::SeekInput { target },
            Stage::SeekVideo => Action::ResetVideo,
            Stage::SeekAudio => Action::ResetAudio,
            Stage::SeekDone => Action::StoreSeek { value: Double { bits: NO_SEEK } },
            Stage::Read => Action::ReadPacket,
            Stage::FeedVideo { .. } => Action::DecodeVideo,
            Stage::DrainVideo { .. } => Action::ReceiveVideo,
            Stage::AimVideo { pts, clock, .. } => Action::MeasureTarget {
                pts,
                origin: clock.origin,
            },
            Stage::SleepVideo { nanos, .. } => Action::Sleep { nanos },
            Stage::Scale { .. } => Action::ScaleVideo,
            Stage::SendVideo { pts, .. } => Action::SendVideo { pts, duration: self.duration },
            Stage::FeedAudio { .. } => Action::DecodeAudio,
            Stage::DrainAudio { .. } => Action::ReceiveAudio,
            Stage::SendTime { pts, .. } => Action::SendTime { pts, duration: self.duration },
            Stage::Volume { .. } => Action::ReadVolume,
            Stage::TailVolume => Action::ReadVolume,
            Stage::QueueAudio { volume, .. } => Action::QueueAudio { volume },
            Stage::Lead { pts, clock, .. } => Action::MeasureLead {
                pts,
                origin: clock.origin,
                elapsed: self.now - clock.start,
                slack: Double { bits: SOUND_SLACK },
            },
            Stage::SleepAudio { span, .. } => Action::SleepSeconds { span },
            Stage::EndVideo => Action::EndVideo,
            Stage::EndAudio => Action::EndAudio,
            Stage::TailDelay { .. } => Action::ReadDelay,
            Stage::TailFlush { samples, .. } => Action::FlushResampler { samples },
            Stage::TailQueue { volume } => Action::QueueFlushed { volume },
            Stage::RunOut => Action::SleepUntilEnd,
            Stage::Finished { outcome } => Action::Finish { outcome },
        }
    }

    /// Takes what came of the last action, and the time at which it was done.
    pub fn advance(&mut self, event: Event, now: u128)
        requires
            old(self).well_formed(),
            now >= old(self).now,
        ensures
            *final(self) == old(self).next(event, now),
            final(self).well_formed(),
    {
        let before: u128 = self.now;
        self.now = now;
        match event {
            Event::Failed => self.take_failure(),
            Event::Done => self.take_done(),
            Event::Opened { duration } => {
                if let Stage::Open = self.stage {
                    self.duration = duration;
                    self.stage = Stage::OpenVideo;
                }
            },
            Event::Stream(stream) => self.take_stream(stream),
            Event::Paused(paused) => self.take_paused(paused, before),
            Event::Seek(target) => {
                if let Stage::SeekCheck = self.stage {
                    if target.is_nan() {
                        self.stage = Stage::Read;
                    } else {
                        self.stage = Stage::SeekTo { target };
                    }
                }
            },
            Event::Packet(packet) => self.take_packet(packet),
            Event::Frame { pts } => self.take_frame(pts),
            Event::NoFrame => self.take_no_frame(),
            Event::Target(target) => {
                if let Stage::AimVideo { rest, pts, clock } = self.stage {
                    let elapsed: u128 = now - clock.start;
                    if target > elapsed {
                        self.stage = Stage::SleepVideo { rest, pts, nanos: target - elapsed };
                    } else {
                        self.stage = Stage::Scale { rest, pts };
                    }
                }
            },
            Event::Sent(delivery) => self.take_delivery(delivery),
            Event::Volume(volume) => match self.stage {
                Stage::Volume { rest, pts } => {
                    self.stage = Stage::QueueAudio { rest, pts, volume };
                },
                Stage::TailVolume => {
                    self.stage = Stage::TailDelay { volume };
                },
                _ => {},
            },
            Event::Lead { target, limit, delay } => {
                if let Stage::Lead { rest, .. } = self.stage {
                    if target.is_greater(limit) {
                        let span = delay.min(Double { bits: SOUND_SLEEP });
                        self.stage = Stage::SleepAudio { rest, span };
                    } else {
                        self.stage = Stage::DrainAudio { rest };
                    }
                }
            },
            Event::Delay(delay) => {
                if let Stage::TailDelay { volume } = self.stage {
                    match delay {
                        Some(samples) => if samples > 0 {
                            self.stage = Stage::TailFlush { volume, samples };
                        } else {
                            self.stage = Stage::RunOut;
                        },
                        None => {
                            self.stage = Stage::RunOut;
                        },
                    }
                }
            },
            Event::Flushed(samples) => {
                if let Stage::TailFlush { volume, .. } = self.stage {
                    if samples > 0 {
                        self.stage = Stage::TailQueue { volume };
                    } else {
                        self.stage = Stage::RunOut;
                    }
                }
            },
        }
    }

    /// Something could not be done.
    fn take_failure(&mut self)
        requires
            old(self).well_formed(),
        ensures
            *final(self) == old(self).next(Event::Failed, old(self).now),
            final(self).well_formed(),
    {
        let ends: bool = match self.stage {
            Stage::Init => true,
            Stage::Open => true,
            Stage::OpenVideo => true,
            Stage::OpenAudio => true,
            Stage::FeedVideo { .. } => true,
            Stage::Scale { .. } => true,
            Stage::FeedAudio { .. } => true,
            Stage::QueueAudio { .. } => true,
            Stage::EndVideo => true,
            Stage::EndAudio => true,
            Stage::TailFlush { .. } => true,
            Stage::TailQueue { .. } => true,
            _ => false,
        };
        if ends {
            self.stage = Stage::Finished { outcome: Outcome::Failed };
        }
    }

    /// What was asked for is done.
    fn take_done(&mut self)
        requires
            old(self).well_formed(),
        ensures
            *final(self) == old(self).next(Event::Done, old(self).now),
            final(self).well_formed(),
    {
        match self.stage {
            Stage::Init => {
                self.stage = Stage::Open;
            },
            Stage::Silence { point, since } => {
                self.stage = Stage::Hold { point, since };
            },
            Stage::Hold { point, since } => {
                self.stage = Stage::Recheck { point, since };
            },
            Stage::Unsilence { point, since } => self.take_up(point, since),
            Stage::SeekTo { .. } => {
                if self.video.is_some() {
                    self.stage = Stage::SeekVideo;
                } else if self.audio.is_some() {
                    self.stage = Stage::SeekAudio;
                } else {
                    self.clock = None;
                    self.stage = Stage::SeekDone;
                }
            },
            Stage::SeekVideo => {
                if self.audio.is_some() {
                    self.stage = Stage::SeekAudio;
                } else {
                    self.clock = None;
                    self.stage = Stage::SeekDone;
                }
            },
            Stage::SeekAudio => {
                self.clock = None;
                self.stage = Stage::SeekDone;
            },
            Stage::SeekDone => {
                self.stage = Stage::Read;
            },
            Stage::FeedVideo { stream } => {
                self.stage = Stage::DrainVideo { rest: Rest::Packet(stream) };
            },
            Stage::EndVideo => {
                self.stage = Stage::DrainVideo { rest: Rest::End };
            },
            Stage::SleepVideo { rest, pts, .. } => {
                self.stage = Stage::Scale { rest, pts };
            },
            Stage::Scale { rest, pts } => {
                self.stage = Stage::SendVideo { rest, pts };
            },
            Stage::FeedAudio { stream } => {
                self.stage = Stage::DrainAudio { rest: Rest::Packet(stream) };
            },
            Stage::EndAudio => {
                self.stage = Stage::DrainAudio { rest: Rest::End };
            },
            Stage::QueueAudio { rest, pts, .. } => match self.clock {
                Some(clock) => {
                    self.stage = Stage::Lead { rest, pts, clock };
                },
                None => {
                    self.stage = Stage::DrainAudio { rest };
                },
            },
            Stage::SleepAudio { rest, .. } => {
                self.stage = Stage::DrainAudio { rest };
            },
            Stage::TailQueue { volume } => {
                self.stage = Stage::TailDelay { volume };
            },
            Stage::RunOut => {
                self.stage = Stage::Finished { outcome: Outcome::Ended };
            },
            _ => {},
        }
    }

    /// A stream was opened, or there is none.
    fn take_stream(&mut self, stream: Option<usize>)
        requires
            old(self).well_formed(),
        ensures
            *final(self) == old(self).next(Event::Stream(stream), old(self).now),
            final(self).well_formed(),
    {
        match self.stage {
            Stage::OpenVideo => {
                self.video = stream;
                self.stage = Stage::OpenAudio;
            },
            Stage::OpenAudio => {
                self.audio = stream;
                self.time_sent = self.now;
                self.stage = Stage::Gate { point: Point::Packet };
            },
            _ => {},
        }
    }

    /// The pause switch was read; a pause that begins here began at `before`.
    fn take_paused(&mut self, paused: bool, before: u128)
        requires
            before <= old(self).now,
            (Playback { now: before, ..*old(self) }).well_formed(),
        ensures
            *final(self) == (Playback { now: before, ..*old(self) }).next(
                Event::Paused(paused),
                old(self).now,
            ),
            final(self).well_formed(),
    {
        match self.stage {
            Stage::Gate { point } => {
                if !paused {
                    self.pass_point(point);
                } else if self.audio.is_some() {
                    self.stage = Stage::Silence { point, since: before };
                } else {
                    self.stage = Stage::Hold { point, since: before };
                }
            },
            Stage::Recheck { point, since } => {
                if paused {
                    self.stage = Stage::Hold { point, since };
                } else if self.audio.is_some() {
                    self.stage = Stage::Unsilence { point, since };
                } else {
                    self.take_up(point, since);
                }
            },
            _ => {},
        }
    }

    /// Goes on past `point`.
    fn pass_point(&mut self, point: Point)
        requires
            old(self).can_pass(point),
            old(self).time_sent <= old(self).now,
            old(self).clock matches Some(clock) ==> clock.start <= old(self).now,
        ensures
            *final(self) == old(self).pass(point),
            final(self).well_formed(),
    {
        match point {
            Point::Packet => {
                self.stage = Stage::SeekCheck;
            },
            Point::Video { rest, pts } => {
                let clock = self.clock_or_start(pts);
                self.clock = Some(clock);
                self.stage = Stage::AimVideo { rest, pts, clock };
            },
            Point::Audio { rest, pts } => {
                self.clock = Some(self.clock_or_start(pts));
                if self.video.is_none() || self.now - self.time_sent > TIME_MARK_NANOS {
                    self.stage = Stage::SendTime { rest, pts };
                } else {
                    self.stage = Stage::Volume { rest, pts };
                }
            },
        }
    }

    /// The clock, started with the moment `pts` where it does not run yet.
    fn clock_or_start(&self, pts: Double) -> (clock: MasterClock)
        ensures
            clock == self.clock_from(pts),
    {
        match self.clock {
            Some(clock) => clock,
            None => MasterClock { origin: pts, start: self.now },
        }
    }

    /// Goes on past `point` after a pause since `since`, which the clock does not count.
    fn take_up(&mut self, point: Point, since: u128)
        requires
            old(self).can_pass(point),
            old(self).time_sent <= old(self).now,
            since <= old(self).now,
            old(self).clock matches Some(clock) ==> clock.start <= since,
        ensures
            *final(self) == old(self).resume(point, since),
            final(self).well_formed(),
    {
        if let Some(clock) = self.clock {
            let start: u128 = clock.start + (self.now - since);
            self.clock = Some(MasterClock { origin: clock.origin, start });
        }
        self.pass_point(point);
    }

    /// A packet was read, or the file is at its end.
    fn take_packet(&mut self, packet: Option<usize>)
        requires
            old(self).well_formed(),
        ensures
            *final(self) == old(self).next(Event::Packet(packet), old(self).now),
            final(self).well_formed(),
    {
        if let Stage::Read = self.stage {
            match packet {
                Some(stream) => {
                    if is_stream(self.video, stream) {
                        self.stage = Stage::FeedVideo { stream };
                    } else {
                        self.hand_to_audio(stream);
                    }
                },
                None => {
                    if self.video.is_some() {
                        self.stage = Stage::EndVideo;
                    } else {
                        self.end_sound();
                    }
                },
            }
        }
    }

    /// The sound decoder's turn at a packet of `stream`.
    fn hand_to_audio(&mut self, stream: usize)
        ensures
            *final(self) == old(self).offer_audio(stream),
    {
        if is_stream(self.audio, stream) {
            self.stage = Stage::FeedAudio { stream };
        } else {
            self.stage = Stage::Gate { point: Point::Packet };
        }
    }

    /// The sound decoder's turn at the end of the file.
    fn end_sound(&mut self)
        ensures
            *final(self) == old(self).end_audio(),
    {
        if self.audio.is_some() {
            self.stage = Stage::EndAudio;
        } else {
            self.stage = Stage::Finished { outcome: Outcome::Ended };
        }
    }

    /// A decoder gave out a frame.
    fn take_frame(&mut self, pts: Option<Double>)
        requires
            old(self).well_formed(),
        ensures
            *final(self) == old(self).next(Event::Frame { pts }, old(self).now),
            final(self).well_formed(),
    {
        let due: Double = match pts {
            Some(pts) => pts,
            None => Double { bits: ZERO_SECONDS },
        };
        match self.stage {
            Stage::DrainVideo { rest } => {
                self.stage = Stage::Gate { point: Point::Video { rest, pts: due } };
            },
            Stage::DrainAudio { rest } => {
                self.stage = Stage::Gate { point: Point::Audio { rest, pts: due } };
            },
            _ => {},
        }
    }

    /// A decoder has no more frames.
    fn take_no_frame(&mut self)
        requires
            old(self).well_formed(),
        ensures
            *final(self) == old(self).next(Event::NoFrame, old(self).now),
            final(self).well_formed(),
    {
        match self.stage {
            Stage::DrainVideo { rest } => match rest {
                Rest::Packet(stream) => self.hand_to_audio(stream),
                Rest::End => self.end_sound(),
            },
            Stage::DrainAudio { rest } => match rest {
                Rest::Packet(_) => {
                    self.stage = Stage::Gate { point: Point::Packet };
                },
                Rest::End => {
                    self.stage = Stage::TailVolume;
                },
            },
            _ => {},
        }
    }

    /// A frame was offered to the screen.
    fn take_delivery(&mut self, delivery: Delivery)
        requires
            old(self).well_formed(),
        ensures
            *final(self) == old(self).next(Event::Sent(delivery), old(self).now),
            final(self).well_formed(),
    {
        let gone: bool = delivery == Delivery::Disconnected;
        match self.stage {
            Stage::SendVideo { rest, .. } => {
                if gone {
                    self.stage = Stage::Finished { outcome: Outcome::Stopped };
                } else {
                    self.stage = Stage::DrainVideo { rest };
                }
            },
            Stage::SendTime { rest, pts } => {
                if gone {
                    self.stage = Stage::Finished { outcome: Outcome::Stopped };
                } else {
                    self.time_sent = self.now;
                    self.stage = Stage::Volume { rest, pts };
                }
            },
            _ => {},
        }
    }
}

/// Whether `stream` is the stream of the given kind.
fn is_stream(kind: Option<usize>, stream: usize) -> (res: bool)
    ensures
        res == (kind == Some(stream)),
{
    match kind {
        Some(index) => index == stream,
        None => false,
    }
}

} // verus!
