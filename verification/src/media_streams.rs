//! The file that is played, and the cells through which the screen steers it.
use crate::ieee::{Double, Single};
use crate::playback::{answers, Action, Event, Playback};
use std::sync::atomic::{AtomicBool, AtomicU32, AtomicU64};
use std::sync::Arc;
use vstd::prelude::*;

verus! {

/// A file to be played. The cells are shared with the screen: the volume as a single-precision bit
/// pattern, the pause switch, and the second to seek to as a double-precision bit pattern.
pub struct MediaStreams {
    file_path: String,
    shared_volume: Arc<AtomicU32>,
    shared_paused: Arc<AtomicBool>,
    shared_seek: Arc<AtomicU64>,
}

/// Gives `From::from` of std from a type to itself its documented result: the argument, unchanged.
/// A path that is a `String` is taken over by it.
pub assume_specification<V>[ <V as std::convert::From<V>>::from ](value: V) -> (same: V)
    ensures
        same == value,
;

/// Gives `String::from` of std its documented result on a string slice: a string of the same text.
/// A path that is a `&str` is taken over by it.
pub assume_specification<'a>[ <String as From<&'a str>>::from ](s: &str) -> (r: String)
    ensures
        r@ == s@,
;

/// Whether an action concerns a shared cell.
pub open spec fn concerns_cell(action: Action) -> bool {
    match action {
        Action::ReadPaused | Action::ReadSeek | Action::StoreSeek { .. } | Action::ReadVolume => true,
        _ => false,
    }
}

impl MediaStreams {
    /// The file that is played.
    pub closed spec fn path(self) -> String {
        self.file_path
    }

    /// The volume cell.
    pub closed spec fn volume_cell(self) -> Arc<AtomicU32> {
        self.shared_volume
    }

    /// The pause switch.
    pub closed spec fn paused_cell(self) -> Arc<AtomicBool> {
        self.shared_paused
    }

    /// The seek cell.
    pub closed spec fn seek_cell(self) -> Arc<AtomicU64> {
        self.shared_seek
    }

    /// A file to be played, with the cells through which it is steered.
    pub fn new<P: Into<String>>(
        file_path: P,
        shared_volume: Arc<AtomicU32>,
        shared_paused: Arc<AtomicBool>,
        shared_seek: Arc<AtomicU64>,
    ) -> (streams: Self)
        ensures
            call_ensures(P::into, (file_path,), streams.path()),
            streams.volume_cell() == shared_volume,
            streams.paused_cell() == shared_paused,
            streams.seek_cell() == shared_seek,
    {
        Self { file_path: file_path.into(), shared_volume, shared_paused, shared_seek }
    }

    /// The file that is played.
    pub fn file_path(&self) -> (path: &str)
        ensures
            path@ == self.path()@,
    {
        self.file_path.as_str()
    }

    /// Begins to play: the course of it, before anything has been done.
    pub fn play_with_video_tx(&self, now: u128) -> (playback: Playback)
        ensures
            playback == Playback::fresh(now),
            playback.well_formed(),
    {
        Playback::new(now)
    }

    /// Does what concerns the shared cells, and leaves every other action alone: the event carries
    /// what was read from the cell that the action is about, and what is to be put into the seek
    /// cell goes there. The screen writes the cells too, so which value is read is up to both.
    pub fn consult(&self, action: Action) -> (event: Option<Event>)
        ensures
            event is Some <==> concerns_cell(action),
            event matches Some(event) ==> answers(event, action),
            action is ReadPaused ==> (event matches Some(Event::Paused(paused)) && call_ensures(
                AtomicBool::load,
                (&*self.paused_cell(), std::sync::atomic::Ordering::SeqCst),
                paused,
            )),
            action is ReadSeek ==> (event matches Some(Event::Seek(target)) && call_ensures(
                AtomicU64::load,
                (&*self.seek_cell(), std::sync::atomic::Ordering::Relaxed),
                target.bits,
            )),
            action is ReadVolume ==> (event matches Some(Event::Volume(volume)) && call_ensures(
                AtomicU32::load,
                (&*self.volume_cell(), std::sync::atomic::Ordering::Relaxed),
                volume.bits,
            )),
            action matches Action::StoreSeek { value } ==> call_ensures(
                AtomicU64::store,
                (&*self.seek_cell(), value.bits, std::sync::atomic::Ordering::Relaxed),
                (),
            ),
    {
        match action {
            Action::ReadPaused => Some(
                Event::Paused(self.shared_paused.load(std::sync::atomic::Ordering::SeqCst)),
            ),
            Action::ReadSeek => {
                let bits: u64 = self.shared_seek.load(std::sync::atomic::Ordering::Relaxed);
                Some(Event::Seek(Double { bits }))
            },
            Action::StoreSeek { value } => {
                self.shared_seek.store(value.bits, std::sync::atomic::Ordering::Relaxed);
                Some(Event::Done)
            },
            Action::ReadVolume => {
                let bits: u32 = self.shared_volume.load(std::sync::atomic::Ordering::Relaxed);
                Some(Event::Volume(Single { bits }))
            },
            _ => None,
        }
    }
}

/// A path that is handed over as a `String` is the path of the file that is played.
pub proof fn law_string_path_is_kept(file_path: String, streams: MediaStreams)
    requires
        call_ensures(<String as Into<String>>::into, (file_path,), streams.path()),
    ensures
        streams.path() == file_path,
{
}

/// A path that is handed over as text is, letter for letter, the path of the file that is played.
pub proof fn law_text_path_is_kept(file_path: &str, streams: MediaStreams)
    requires
        call_ensures(<&str as Into<String>>::into, (file_path,), streams.path()),
    ensures
        streams.path()@ == file_path@,
{
}

/// The pause switch, the seek cell and the volume cell are what an action can concern, and nothing
/// else is.
pub proof fn law_cells_are_read_and_stored(action: Action)
    ensures
        concerns_cell(action) <==> action == Action::ReadPaused || action == Action::ReadSeek
            || action == Action::ReadVolume || action is StoreSeek,
{
}

} // verus!
