//! What holds of playing a file as a whole.
use crate::ieee::Double;
use crate::playback::{
    answers, Action, Delivery, Event, MasterClock, Outcome, Playback, Point, Rest, Stage, NO_SEEK,
    SOUND_SLEEP, TIME_MARK_NANOS,
};
use vstd::prelude::*;

verus! {

/// Events with the times at which they are taken.
pub type Course = Seq<(Event, u128)>;

/// Whether the times of a course never go back, starting from `now`.
pub open spec fn timely(now: u128, course: Course) -> bool {
    forall|i: int|
        #![trigger course[i]]
        0 <= i < course.len() ==> (if i == 0 {
            now
        } else {
            course[i - 1].1
        }) <= course[i].1
}

impl Playback {
    /// The state after a whole course of events.
    pub open spec fn run(self, course: Course) -> Playback
        decreases course.len(),
    {
        if course.len() == 0 {
            self
        } else {
            self.run(course.drop_last()).next(course.last().0, course.last().1)
        }
    }

    /// The point at which playing is held up, and since when.
    pub open spec fn held(self) -> Option<(Point, u128)> {
        match self.stage {
            Stage::Silence { point, since } | Stage::Hold { point, since } | Stage::Recheck {
                point,
                since,
            } | Stage::Unsilence { point, since } => Some((point, since)),
            _ => None,
        }
    }

    /// Whether the file is open and its streams are known.
    pub open spec fn opened(self) -> bool {
        match self.stage {
            Stage::Init | Stage::Open | Stage::OpenVideo | Stage::OpenAudio => false,
            _ => true,
        }
    }

    /// The picture that is on its way to the screen: what remains after it, and its time.
    pub open spec fn picture_in_hand(self) -> Option<(Rest, Double)> {
        match self.stage {
            Stage::Gate { point: Point::Video { rest, pts } }
            | Stage::Silence { point: Point::Video { rest, pts }, .. }
            | Stage::Hold { point: Point::Video { rest, pts }, .. }
            | Stage::Recheck { point: Point::Video { rest, pts }, .. }
            | Stage::Unsilence { point: Point::Video { rest, pts }, .. }
            | Stage::AimVideo { rest, pts, .. }
            | Stage::SleepVideo { rest, pts, .. }
            | Stage::Scale { rest, pts }
            | Stage::SendVideo { rest, pts } => Some((rest, pts)),
            _ => None,
        }
    }

    /// Whether the resampler's rest is being played.
    pub open spec fn in_tail(self) -> bool {
        match self.stage {
            Stage::TailVolume | Stage::TailDelay { .. } | Stage::TailFlush { .. }
            | Stage::TailQueue { .. } | Stage::RunOut => true,
            _ => false,
        }
    }
}

/// Whether an action can end playing by failing.
pub open spec fn can_fail(action: Action) -> bool {
    match action {
        Action::InitDecoder | Action::OpenInput | Action::OpenVideo | Action::OpenAudio
        | Action::DecodeVideo | Action::ScaleVideo | Action::DecodeAudio
        | Action::QueueAudio { .. } | Action::EndVideo | Action::EndAudio
        | Action::FlushResampler { .. } | Action::QueueFlushed { .. } => true,
        _ => false,
    }
}

/// Whether an action offers a frame to the screen.
pub open spec fn offers_frame(action: Action) -> bool {
    action is SendVideo || action is SendTime
}

/// Whether an action needs a picture stream.
pub open spec fn needs_video(action: Action) -> bool {
    match action {
        Action::ResetVideo | Action::DecodeVideo | Action::ReceiveVideo
        | Action::MeasureTarget { .. } | Action::ScaleVideo | Action::SendVideo { .. }
        | Action::EndVideo => true,
        _ => false,
    }
}

/// Whether an action needs a sound stream.
pub open spec fn needs_audio(action: Action) -> bool {
    match action {
        Action::PauseAudio | Action::ResumeAudio | Action::ResetAudio | Action::DecodeAudio
        | Action::ReceiveAudio | Action::SendTime { .. } | Action::ReadVolume
        | Action::QueueAudio { .. } | Action::MeasureLead { .. } | Action::SleepSeconds { .. }
        | Action::EndAudio | Action::ReadDelay | Action::FlushResampler { .. }
        | Action::QueueFlushed { .. } | Action::SleepUntilEnd => true,
        _ => false,
    }
}

/// Nothing is ever asked of a stream that the file does not have.
pub proof fn law_no_absent_stream(start: u128, course: Course)
    requires
        timely(start, course),
    ensures
        ({
            let p = Playback::fresh(start).run(course);
            &&& needs_video(p.pending()) ==> p.video is Some
            &&& needs_audio(p.pending()) ==> p.audio is Some
        }),
{
    law_run_keeps_well_formed(start, course);
}

/// Every step keeps a state well formed.
pub proof fn law_step_keeps_well_formed(p: Playback, event: Event, now: u128)
    requires
        p.well_formed(),
        now >= p.now,
    ensures
        p.next(event, now).well_formed(),
        p.next(event, now).now == now,
{
}

/// Playing never leaves the well-formed states, whatever happens, as long as time does not go
/// back.
pub proof fn law_run_keeps_well_formed(start: u128, course: Course)
    requires
        timely(start, course),
    ensures
        Playback::fresh(start).run(course).well_formed(),
        Playback::fresh(start).run(course).now == (if course.len() == 0 {
            start
        } else {
            course.last().1
        }),
    decreases course.len(),
{
    if course.len() > 0 {
        let front = course.drop_last();
        assert(timely(start, front)) by {
            assert forall|i: int| #![trigger front[i]] 0 <= i < front.len() implies (if i == 0 {
                start
            } else {
                front[i - 1].1
            }) <= front[i].1 by {
                assert(front[i] == course[i]);
                if i > 0 {
                    assert(front[i - 1] == course[i - 1]);
                }
            }
        }
        law_run_keeps_well_formed(start, front);
        assert(course[course.len() - 1] == course.last());
        law_step_keeps_well_formed(
            Playback::fresh(start).run(front),
            course.last().0,
            course.last().1,
        );
    }
}

/// Playing moves on exactly when what was asked for is answered; anything else leaves it where it
/// is.
pub proof fn law_answers_move_on(p: Playback, event: Event, now: u128)
    ensures
        answers(event, p.pending()) <==> p.next(event, now).stage != p.stage,
        !answers(event, p.pending()) ==> p.next(event, now) == (Playback { now, ..p }),
{
}

/// Once the file is open, its streams and its length stay what they are.
pub proof fn law_streams_are_fixed(p: Playback, event: Event, now: u128)
    requires
        p.opened(),
    ensures
        p.next(event, now).opened(),
        p.next(event, now).video == p.video,
        p.next(event, now).audio == p.audio,
        p.next(event, now).duration == p.duration,
{
}

/// While playing is held up, nothing but the pause changes; and when it goes on, the clock reads
/// what it read when the pause began.
proof fn lemma_held_step(p: Playback, event: Event, now: u128)
    requires
        p.well_formed(),
        now >= p.now,
        p.held() is Some,
    ensures
        ({
            let (point, since) = p.held()->0;
            let q = p.next(event, now);
            if q.held() is Some {
                q.held() == p.held() && q.clock == p.clock
            } else {
                match p.clock {
                    Some(clock) => q.clock matches Some(shifted) && shifted.origin == clock.origin
                        && q.now - shifted.start == since - clock.start,
                    None => q.clock matches Some(clock) ==> clock.start == q.now,
                }
            }
        }),
{
}

/// Being held up keeps the point, the beginning of the pause and the clock.
proof fn lemma_held_run(p: Playback, course: Course)
    requires
        p.well_formed(),
        timely(p.now, course),
        p.held() is Some,
        forall|k: int|
            0 <= k <= course.len() ==> (#[trigger] p.run(course.take(k))).held() is Some,
    ensures
        p.run(course).well_formed(),
        p.run(course).held() == p.held(),
        p.run(course).clock == p.clock,
        p.run(course).now == (if course.len() == 0 {
            p.now
        } else {
            course.last().1
        }),
    decreases course.len(),
{
    assert(course.take(course.len() as int) =~= course);
    if course.len() > 0 {
        let front = course.drop_last();
        assert forall|i: int| #![trigger front[i]] 0 <= i < front.len() implies (if i == 0 {
            p.now
        } else {
            front[i - 1].1
        }) <= front[i].1 by {
            assert(front[i] == course[i]);
            if i > 0 {
                assert(front[i - 1] == course[i - 1]);
            }
        }
        assert forall|k: int| 0 <= k <= front.len() implies (#[trigger] p.run(
            front.take(k),
        )).held() is Some by {
            assert(front.take(k) =~= course.take(k));
        }
        lemma_held_run(p, front);
        assert(course[course.len() - 1] == course.last());
        lemma_held_step(p.run(front), course.last().0, course.last().1);
        law_step_keeps_well_formed(p.run(front), course.last().0, course.last().1);
        assert(p.run(course) == p.run(front).next(course.last().0, course.last().1));
        assert(p.run(course.take(course.len() as int)).held() is Some);
    }
}

/// A pause is not counted: however long it lasts and whatever happens meanwhile, when playing
/// goes on the clock reads what it read when the pause began, so pictures and sound keep their
/// place. A clock that did not run stays stopped or starts only now.
pub proof fn law_pause_is_not_counted(
    p: Playback,
    first: u128,
    course: Course,
    event: Event,
    last: u128,
)
    requires
        p.well_formed(),
        p.stage is Gate,
        p.now <= first,
        timely(first, course),
        (if course.len() == 0 {
            first
        } else {
            course.last().1
        }) <= last,
        forall|k: int|
            0 <= k <= course.len() ==> (#[trigger] p.next(Event::Paused(true), first).run(
                course.take(k),
            )).held() is Some,
        p.next(Event::Paused(true), first).run(course).next(event, last).held() is None,
    ensures
        ({
            let q = p.next(Event::Paused(true), first).run(course).next(event, last);
            match p.clock {
                Some(clock) => q.clock matches Some(shifted) && shifted.origin == clock.origin
                    && q.now - shifted.start == p.now - clock.start,
                None => q.clock matches Some(clock) ==> clock.start == q.now,
            }
        }),
{
    let begun = p.next(Event::Paused(true), first);
    law_step_keeps_well_formed(p, Event::Paused(true), first);
    assert(course.take(0) =~= Seq::<(Event, u128)>::empty());
    assert(begun.run(course.take(0)) == begun);
    assert(begun.held() is Some);
    lemma_held_run(begun, course);
    lemma_held_step(begun.run(course), event, last);
}

/// While the pause switch stays on, playing stays held up.
pub proof fn law_switch_on_holds(p: Playback, now: u128)
    requires
        p.held() is Some,
    ensures
        p.next(Event::Paused(true), now).held() == p.held(),
        p.next(Event::Paused(true), now).clock == p.clock,
{
}

/// An empty seek cell changes nothing: the next packet is read.
pub proof fn law_no_seek_changes_nothing(p: Playback, target: Double, now: u128)
    requires
        p.stage is SeekCheck,
        target.nan(),
    ensures
        p.next(Event::Seek(target), now) == (Playback { now, stage: Stage::Read, ..p }),
{
}

/// A seek moves the input to the second asked for, makes each decoder that is there forget what
/// it holds, empties the seek cell, and stops the clock, in that order; then the next packet is
/// read.
pub proof fn law_seek_restarts(p: Playback, target: Double, now: u128)
    requires
        p.stage is SeekCheck,
        !target.nan(),
    ensures
        ({
            let moved = p.next(Event::Seek(target), now);
            let video = moved.next(Event::Done, now);
            let audio = if p.video is Some {
                video.next(Event::Done, now)
            } else {
                video
            };
            let cleared = if p.audio is Some {
                audio.next(Event::Done, now)
            } else {
                audio
            };
            &&& moved.pending() == Action::SeekInput { target }
            &&& p.video is Some ==> video.pending() == Action::ResetVideo
            &&& p.audio is Some ==> audio.pending() == Action::ResetAudio
            &&& cleared.pending() == (Action::StoreSeek { value: Double { bits: NO_SEEK } })
            &&& cleared.clock is None
            &&& cleared.next(Event::Done, now) == (Playback {
                now,
                clock: None,
                stage: Stage::Read,
                ..p
            })
        }),
{
}

/// A seek is done once: what is put into the seek cell at its end asks for no other one.
pub proof fn law_seek_is_done_once(p: Playback, q: Playback, now: u128)
    requires
        p.stage is SeekDone,
        q.stage is SeekCheck,
    ensures
        p.pending() matches Action::StoreSeek { value } && q.next(Event::Seek(value), now) == (
        Playback { now, stage: Stage::Read, ..q }),
{
}

/// Playing stops when nobody takes frames any more, and for no other reason.
pub proof fn law_disconnection_stops(p: Playback, event: Event, now: u128)
    requires
        !(p.stage is Finished),
    ensures
        p.next(event, now).stage == (Stage::Finished { outcome: Outcome::Stopped })
            <==> offers_frame(p.pending()) && event == Event::Sent(Delivery::Disconnected),
{
}

/// A frame that the screen has no room for is lost and playing goes on just as if it had been
/// taken.
pub proof fn law_full_screen_is_no_matter(p: Playback, now: u128)
    ensures
        p.next(Event::Sent(Delivery::Full), now) == p.next(
            Event::Sent(Delivery::Accepted),
            now,
        ),
{
}

/// Playing fails when something that can fail does, and for no other reason.
pub proof fn law_failure_ends(p: Playback, event: Event, now: u128)
    requires
        !(p.stage is Finished),
    ensures
        p.next(event, now).stage == (Stage::Finished { outcome: Outcome::Failed }) <==> can_fail(
            p.pending(),
        ) && event == Event::Failed,
{
}

/// A file is played to its end only once its sound, if it has any, has run out; without sound,
/// once the pictures are shown or there is nothing to read.
pub proof fn law_end_waits_for_sound(p: Playback, event: Event, now: u128)
    requires
        p.well_formed(),
        !(p.stage is Finished),
        p.next(event, now).stage == (Stage::Finished { outcome: Outcome::Ended }),
    ensures
        p.audio is Some ==> p.stage is RunOut && event == Event::Done,
        p.audio is None && p.video is Some ==> p.stage == (Stage::DrainVideo { rest: Rest::End })
            && event == Event::NoFrame,
        p.audio is None && p.video is None ==> p.stage is Read && event == Event::Packet(None),
{
}

/// The end of playing is final.
pub proof fn law_finished_is_final(p: Playback, course: Course)
    requires
        p.stage is Finished,
    ensures
        p.run(course).stage == p.stage,
    decreases course.len(),
{
    if course.len() > 0 {
        law_finished_is_final(p, course.drop_last());
    }
}

/// At the end of the file the pictures come first: the sound decoder is told only once the
/// picture decoder is empty or was never there.
pub proof fn law_pictures_end_first(p: Playback, event: Event, now: u128)
    requires
        !(p.stage is EndAudio),
        p.next(event, now).stage is EndAudio,
    ensures
        p.audio is Some,
        p.stage == (Stage::DrainVideo { rest: Rest::End }) && event == Event::NoFrame || p.stage
            is Read && event == Event::Packet(None) && p.video is None,
{
}

/// What the resampler holds is played only after the sound decoder is empty at the end of the
/// file.
pub proof fn law_tail_comes_last(p: Playback, event: Event, now: u128)
    requires
        !p.in_tail(),
        p.next(event, now).in_tail(),
    ensures
        p.stage == (Stage::DrainAudio { rest: Rest::End }),
        event == Event::NoFrame,
{
}

/// The rest of the sound is played at one volume, the one that was read when it began.
pub proof fn law_tail_keeps_volume(p: Playback, event: Event, now: u128)
    ensures
        p.stage matches Stage::TailDelay { volume } ==> {
            &&& p.next(event, now).stage matches Stage::TailFlush { volume: later, .. } ==> later
                == volume
        },
        p.stage matches Stage::TailFlush { volume, .. } ==> {
            &&& p.next(event, now).stage matches Stage::TailQueue { volume: later } ==> later
                == volume
        },
        p.stage matches Stage::TailQueue { volume } ==> {
            &&& p.pending() == Action::QueueFlushed { volume }
            &&& p.next(event, now).stage matches Stage::TailDelay { volume: later } ==> later
                == volume
        },
{
}

/// A packet of a stream that is neither shown nor heard is left alone.
pub proof fn law_foreign_packet_is_skipped(p: Playback, stream: usize, now: u128)
    requires
        p.stage is Read,
        p.video != Some(stream),
        p.audio != Some(stream),
    ensures
        p.next(Event::Packet(Some(stream)), now) == (Playback {
            now,
            stage: Stage::Gate { point: Point::Packet },
            ..p
        }),
{
}

/// A packet goes to the decoder of its stream and, once that one is empty, to no other; then the
/// next packet is read.
pub proof fn law_packet_goes_to_its_decoder(p: Playback, stream: usize, now: u128)
    requires
        p.stage is Read,
        p.video != p.audio,
        p.video == Some(stream) || p.audio == Some(stream),
    ensures
        ({
            let fed = p.next(Event::Packet(Some(stream)), now);
            let drained = fed.next(Event::Done, now).next(Event::NoFrame, now);
            &&& p.video == Some(stream) ==> fed.pending() == Action::DecodeVideo
            &&& p.audio == Some(stream) ==> fed.pending() == Action::DecodeAudio
            &&& drained == (Playback { now, stage: Stage::Gate { point: Point::Packet }, ..p })
        }),
{
}

/// Every decoded frame stops at the pause switch before anything is done with it.
pub proof fn law_frames_stop_at_the_switch(p: Playback, pts: Option<Double>, now: u128)
    requires
        p.pending() == Action::ReceiveVideo || p.pending() == Action::ReceiveAudio,
    ensures
        p.next(Event::Frame { pts }, now).stage is Gate,
        p.next(Event::Frame { pts }, now).clock == p.clock,
{
}

/// The picture that was decoded is the one that is shown: from the decoder to the screen its time
/// does not change, and it is let go only when it has been offered or playing has failed.
pub proof fn law_picture_in_hand_is_shown(p: Playback, event: Event, now: u128)
    ensures
        p.stage matches Stage::SendVideo { pts, .. } ==> p.pending() == (Action::SendVideo {
            pts,
            duration: p.duration,
        }),
        p.picture_in_hand() is Some ==> {
            let q = p.next(event, now);
            ||| q.picture_in_hand() == p.picture_in_hand()
            ||| p.pending() is SendVideo && event is Sent
            ||| p.pending() is ScaleVideo && event == Event::Failed
        },
{
}

/// No picture comes early: when the wait that was asked for has been kept, the clock has reached
/// the moment at which the picture is due.
pub proof fn law_picture_is_not_early(p: Playback, target: u128, now: u128, awake: u128)
    requires
        p.well_formed(),
        p.stage is AimVideo,
        now >= p.now,
        p.next(Event::Target(target), now).pending() matches Action::Sleep { nanos } ==> awake
            >= now + nanos,
    ensures
        ({
            let aimed = p.next(Event::Target(target), now);
            let clock = p.clock->0;
            if aimed.stage is SleepVideo {
                let woken = aimed.next(Event::Done, awake);
                woken.stage is Scale && woken.now - clock.start >= target
            } else {
                aimed.stage is Scale && aimed.now - clock.start >= target
            }
        }),
{
}

/// A file without pictures has the time display moved on by every piece of sound.
pub proof fn law_sound_alone_marks_time(p: Playback, rest: Rest, pts: Double, now: u128)
    requires
        p.stage == (Stage::Gate { point: Point::Audio { rest, pts } }),
        p.video is None,
    ensures
        p.next(Event::Paused(false), now).pending() == (Action::SendTime {
            pts,
            duration: p.duration,
        }),
{
}

/// Beside pictures, the sound track moves the time display on at most once in a tenth of a
/// second.
pub proof fn law_time_marks_are_apart(p: Playback, event: Event, now: u128)
    requires
        p.well_formed(),
        p.opened(),
        p.video is Some,
        now >= p.now,
        p.next(event, now).time_sent != p.time_sent,
    ensures
        p.next(event, now).time_sent - p.time_sent > TIME_MARK_NANOS,
{
}

/// The clock starts with the first frame that is used, at the time of that frame.
pub proof fn law_first_frame_starts_clock(p: Playback, point: Point, now: u128)
    requires
        p.stage == (Stage::Gate { point }),
        p.clock is None,
    ensures
        ({
            let q = p.next(Event::Paused(false), now);
            match point {
                Point::Packet => q.clock is None,
                Point::Video { pts, .. } | Point::Audio { pts, .. } => q.clock == Some(
                    MasterClock { origin: pts, start: now },
                ),
            }
        }),
{
}

/// Sound that runs ahead is held back in short sleeps; sound that does not is never held back.
pub proof fn law_sound_is_held_back(
    p: Playback,
    target: Double,
    limit: Double,
    delay: Double,
    now: u128,
)
    requires
        p.stage is Lead,
    ensures
        ({
            let q = p.next(Event::Lead { target, limit, delay }, now);
            &&& target.exceeds(limit) <==> q.pending() is SleepSeconds
            &&& q.pending() matches Action::SleepSeconds { span } ==> !span.exceeds(
                Double { bits: SOUND_SLEEP },
            ) && !span.nan()
        }),
{
}

} // verus!
