//! What the player's window knows and decides.
//!
//! The window draws what [`PlayerApp`] says and tells it what the user did; the answer is a list of
//! [`Command`]s to be carried out in their order.
use crate::ieee::{Double, Single};
use crate::time_code::format_progress;
use crate::video_frame::VideoFrame;
use vstd::prelude::*;

verus! {

/// The bit pattern of the volume to begin with: one half.
pub const INITIAL_VOLUME: u32 = 0x3f00_0000;

/// The bit pattern of the lowest volume: nothing is heard.
pub const LOWEST_VOLUME: u32 = 0;

/// The bit pattern of the highest volume: three times as loud as recorded.
pub const HIGHEST_VOLUME: u32 = 0x4040_0000;

/// The bit pattern of the beginning of a recording.
pub const BEGINNING: u64 = 0;

/// How many milliseconds may pass before a paused window is drawn again.
pub const IDLE_REPAINT_MILLIS: u64 = 50;

/// Something to be done outside of the window's own state.
#[derive(Debug)]
pub enum Command {
    /// Keep the display from going to sleep, or let it.
    KeepAwake(bool),
    /// Set the pause switch.
    SetPaused(bool),
    /// Ask the decoder to go to this second.
    Seek(Double),
    /// Set the volume.
    SetVolume(Single),
    /// Choose the picture that accompanies sound.
    SetVisual(i8),
    /// Start a decoder for this file over a new channel, in place of the present one.
    StartDecoder(String),
    /// Show no picture until a new one comes.
    ClearPicture,
    /// Tell that there is no track of this number.
    ReportMissingTrack(usize),
}

/// A colour of a text in the window.
#[derive(Clone, Copy, PartialEq, Eq, Structural, Debug)]
pub enum Tint {
    Green,
    LightRed,
    LightGray,
}

/// What the user did with the time slider, and where it stands now.
#[derive(Clone, Copy, PartialEq, Eq, Structural, Debug)]
pub struct SliderMove {
    pub started: bool,
    pub dragged: bool,
    pub stopped: bool,
    pub time: Double,
}

/// What came of the frames that were received.
pub struct Update {
    pub commands: Vec<Command>,
    /// A new picture to be shown.
    pub picture: Option<eframe::egui::ColorImage>,
}

/// The state of the player's window.
pub struct PlayerApp {
    pub is_playing: bool,
    pub volume: Single,
    pub playlist: Vec<String>,
    pub current_index: usize,
    pub is_hide_playlist: bool,
    pub current_time: Double,
    pub total_time: Double,
    pub is_dragging: bool,
    pub drag_time: Double,
    pub visual_index: i8,
    /// Whether a picture is being shown.
    pub has_picture: bool,
}

/// The track before `index`; before the first comes the last.
pub open spec fn track_before(index: int, count: int) -> int {
    if index > 0 {
        index - 1
    } else {
        count - 1
    }
}

/// The track after `index`; after the last comes the first.
pub open spec fn track_after(index: int, count: int) -> int {
    (index + 1) % count
}

/// The track that is reached from `index` by going on `times` times.
pub open spec fn tracks_after(index: int, count: int, times: nat) -> int
    decreases times,
{
    if times == 0 {
        index
    } else {
        track_after(tracks_after(index, count, (times - 1) as nat), count)
    }
}

/// The track that is reached from `index` by going back `times` times.
pub open spec fn tracks_before(index: int, count: int, times: nat) -> int
    decreases times,
{
    if times == 0 {
        index
    } else {
        track_before(tracks_before(index, count, (times - 1) as nat), count)
    }
}

/// Whether a volume is one that can be chosen.
pub open spec fn volume_fits(volume: Single) -> bool {
    volume.within(Single { bits: LOWEST_VOLUME }, Single { bits: HIGHEST_VOLUME })
}

/// What the volume cell holds after commands.
pub open spec fn volume_cell_after(before: Single, commands: Seq<Command>) -> Single
    decreases commands.len(),
{
    if commands.len() == 0 {
        before
    } else {
        match commands.last() {
            Command::SetVolume(volume) => volume,
            _ => volume_cell_after(before, commands.drop_last()),
        }
    }
}

/// Commands that do not set the volume leave its cell alone.
proof fn lemma_volume_cell_kept(before: Single, commands: Seq<Command>)
    requires
        forall|i: int| 0 <= i < commands.len() ==> !(#[trigger] commands[i] is SetVolume),
    ensures
        volume_cell_after(before, commands) == before,
    decreases commands.len(),
{
    if commands.len() > 0 {
        let front = commands.drop_last();
        assert forall|i: int| 0 <= i < front.len() implies !(#[trigger] front[i] is SetVolume) by {
            assert(front[i] == commands[i]);
        }
        lemma_volume_cell_kept(before, front);
        assert(!(commands[commands.len() - 1] is SetVolume));
    }
}

/// The last frame that holds a picture.
pub open spec fn last_picture(frames: Seq<VideoFrame>) -> Option<VideoFrame>
    decreases frames.len(),
{
    if frames.len() == 0 {
        None
    } else if frames.last().picture() {
        Some(frames.last())
    } else {
        last_picture(frames.drop_last())
    }
}

/// The last place that is marked.
pub open spec fn last_marked(marks: Seq<bool>) -> Option<int>
    decreases marks.len(),
{
    if marks.len() == 0 {
        None
    } else if marks.last() {
        Some(marks.len() - 1)
    } else {
        last_marked(marks.drop_last())
    }
}

/// Whether `image` shows the picture of `frame`.
pub open spec fn shows(image: eframe::egui::ColorImage, frame: VideoFrame) -> bool {
    &&& crate::video_frame::image_size(image) == (frame.width, frame.height)
    &&& crate::video_frame::image_pixels(image) == Seq::new(
        (frame.width * frame.height) as nat,
        |i: int|
            (
                frame.rgb_data@[3 * i],
                frame.rgb_data@[3 * i + 1],
                frame.rgb_data@[3 * i + 2],
                255u8,
            ),
    )
}

/// The name of the picture that accompanies sound.
pub open spec fn visual_name(index: i8) -> Seq<char> {
    if index == 0 {
        "Вимкнено"@
    } else if index == 1 {
        "Кроляча нора"@
    } else if index == 2 {
        "Еквалайзер"@
    } else {
        "Невідомо"@
    }
}

/// The last frame that holds a picture.
fn newest_picture(frames: Vec<VideoFrame>) -> (picture: Option<VideoFrame>)
    ensures
        picture == last_picture(frames@),
{
    let mut older = frames;
    while older.len() > 0
        invariant
            last_picture(older@) == last_picture(frames@),
        decreases older@.len(),
    {
        if let Some(frame) = older.pop() {
            if frame.is_picture() {
                return Some(frame);
            }
        }
    }
    None
}

impl PlayerApp {
    /// What every operation keeps: the present track is in the list, or is the first of an empty
    /// one, the accompanying picture is one of those that there are, and the volume is one that can
    /// be chosen.
    pub open spec fn well_formed(self) -> bool {
        &&& self.current_index == 0 || self.current_index < self.playlist@.len()
        &&& 0 <= self.visual_index <= 2
        &&& volume_fits(self.volume)
    }

    /// `next` is `self` after the track `index` was started, or was found missing, and `commands`
    /// are what that takes.
    pub open spec fn plays(self, index: int, next: PlayerApp, commands: Seq<Command>) -> bool {
        if 0 <= index < self.playlist@.len() {
            &&& next == (PlayerApp {
                current_index: index as usize,
                is_playing: true,
                has_picture: false,
                ..self
            })
            &&& commands == seq![
                Command::KeepAwake(true),
                Command::SetPaused(false),
                Command::StartDecoder(self.playlist@[index]),
                Command::ClearPicture,
            ]
        } else {
            &&& next == (PlayerApp { is_playing: false, ..self })
            &&& commands == seq![Command::ReportMissingTrack(index as usize)]
        }
    }

    /// `next` is `self` after playing was stopped or taken up again.
    pub open spec fn toggles(self, next: PlayerApp, commands: Seq<Command>) -> bool {
        &&& next == (PlayerApp { is_playing: !self.is_playing, ..self })
        &&& commands == seq![
            Command::SetPaused(self.is_playing),
            Command::KeepAwake(!self.is_playing),
        ]
    }

    /// The state when the decoder has come to the end of its track: after the last track the time
    /// and the picture are gone.
    pub open spec fn track_over(self) -> PlayerApp {
        if self.current_index + 1 < self.playlist@.len() {
            self
        } else {
            PlayerApp { current_time: Double { bits: BEGINNING }, has_picture: false, ..self }
        }
    }

    /// `next` is `self` after `files` were put at the end of the list.
    pub open spec fn lists(self, files: Seq<String>, next: PlayerApp, commands: Seq<Command>) -> bool {
        let listed = PlayerApp { playlist: next.playlist, ..self };
        &&& next.playlist@ == self.playlist@ + files
        &&& if next.playlist@.len() > 0 && !self.is_playing && !self.has_picture {
            listed.plays(0, next, commands)
        } else {
            next == listed && commands.len() == 0
        }
    }

    /// `next` is `self` after the user did this with the time slider.
    pub open spec fn slides(self, slider: SliderMove, next: PlayerApp, commands: Seq<Command>) -> bool {
        &&& next == (PlayerApp {
            is_dragging: !slider.stopped && (slider.started || self.is_dragging),
            drag_time: if slider.dragged {
                slider.time
            } else {
                self.drag_time
            },
            ..self
        })
        &&& if slider.stopped {
            commands == seq![Command::Seek(slider.time)]
        } else {
            commands.len() == 0
        }
    }

    /// `next` is `self` after these frames were received, and perhaps the decoder was gone;
    /// `picture` is the new picture, if there is one.
    pub open spec fn receives(
        self,
        frames: Seq<VideoFrame>,
        disconnected: bool,
        next: PlayerApp,
        commands: Seq<Command>,
        picture: Option<eframe::egui::ColorImage>,
    ) -> bool {
        if !self.is_playing {
            next == self && commands.len() == 0 && picture is None
        } else if disconnected {
            &&& picture is None
            &&& if self.current_index + 1 < self.playlist@.len() {
                self.plays(self.current_index + 1, next, commands)
            } else {
                &&& commands.len() > 0
                &&& commands[0] == Command::ClearPicture
                &&& self.track_over().plays(0, next, commands.drop_first())
            }
        } else {
            &&& next == (PlayerApp {
                current_time: if frames.len() > 0 {
                    frames.last().pts
                } else {
                    self.current_time
                },
                total_time: if frames.len() > 0 {
                    frames.last().duration
                } else {
                    self.total_time
                },
                has_picture: self.has_picture || last_picture(frames) is Some,
                ..self
            })
            &&& commands.len() == 0
            &&& match last_picture(frames) {
                Some(frame) => picture matches Some(image) && shows(image, frame),
                None => picture is None,
            }
        }
    }

    /// The window before anything has happened: nothing is listed, and playing is on.
    pub fn new() -> (app: PlayerApp)
        ensures
            app.well_formed(),
            app.playlist@ == Seq::<String>::empty(),
            app == (PlayerApp {
                is_playing: true,
                volume: Single { bits: INITIAL_VOLUME },
                playlist: app.playlist,
                current_index: 0,
                is_hide_playlist: false,
                current_time: Double { bits: BEGINNING },
                total_time: Double { bits: BEGINNING },
                is_dragging: false,
                drag_time: Double { bits: BEGINNING },
                visual_index: 1,
                has_picture: false,
            }),
    {
        proof {
            let half = Single { bits: INITIAL_VOLUME };
            let highest = Single { bits: HIGHEST_VOLUME };
            half.lemma_value_order(highest);
            (Single { bits: LOWEST_VOLUME }).lemma_value_order(half);
        }
        PlayerApp {
            is_playing: true,
            volume: Single { bits: INITIAL_VOLUME },
            playlist: Vec::new(),
            current_index: 0,
            is_hide_playlist: false,
            current_time: Double { bits: BEGINNING },
            total_time: Double { bits: BEGINNING },
            is_dragging: false,
            drag_time: Double { bits: BEGINNING },
            visual_index: 1,
            has_picture: false,
        }
    }

    /// What a window that is just opened has done outside of itself: the shared cells are given
    /// their values, of which the seek cell asks for the beginning, and the display is kept awake.
    pub fn startup(&self) -> (commands: Vec<Command>)
        ensures
            commands@ == seq![
                Command::SetVolume(self.volume),
                Command::SetPaused(!self.is_playing),
                Command::Seek(Double { bits: BEGINNING }),
                Command::SetVisual(self.visual_index),
                Command::KeepAwake(true),
            ],
            forall|before: Single| #[trigger]
                volume_cell_after(before, commands@) == self.volume,
    {
        let mut commands: Vec<Command> = Vec::new();
        commands.push(Command::SetVolume(self.volume));
        commands.push(Command::SetPaused(!self.is_playing));
        commands.push(Command::Seek(Double { bits: BEGINNING }));
        commands.push(Command::SetVisual(self.visual_index));
        commands.push(Command::KeepAwake(true));
        assert(commands@ =~= seq![
            Command::SetVolume(self.volume),
            Command::SetPaused(!self.is_playing),
            Command::Seek(Double { bits: BEGINNING }),
            Command::SetVisual(self.visual_index),
            Command::KeepAwake(true),
        ]);
        assert forall|before: Single| #[trigger]
            volume_cell_after(before, commands@) == self.volume by {
            reveal_with_fuel(volume_cell_after, 5);
            let visual = commands@.drop_last();
            let seek = visual.drop_last();
            let paused = seek.drop_last();
            let volume = paused.drop_last();
            assert(visual.last() is SetVisual && seek.last() is Seek && paused.last() is SetPaused);
            assert(volume.last() == Command::SetVolume(self.volume));
        }
        commands
    }

    /// Starts the track `index`. A track that is not there only stops playing.
    pub fn play_track(&mut self, index: usize) -> (commands: Vec<Command>)
        ensures
            old(self).well_formed() ==> final(self).well_formed(),
            old(self).plays(index as int, *final(self), commands@),
            volume_cell_after(old(self).volume, commands@) == final(self).volume,
    {
        let mut commands: Vec<Command> = Vec::new();
        if index >= self.playlist.len() {
            self.is_playing = false;
            commands.push(Command::ReportMissingTrack(index));
        } else {
            self.current_index = index;
            let new_file = self.playlist[index].clone();
            commands.push(Command::KeepAwake(true));
            commands.push(Command::SetPaused(false));
            commands.push(Command::StartDecoder(new_file));
            self.has_picture = false;
            commands.push(Command::ClearPicture);
            self.is_playing = true;
            assert(commands@ =~= seq![
                Command::KeepAwake(true),
                Command::SetPaused(false),
                Command::StartDecoder(new_file),
                Command::ClearPicture,
            ]);
        }
        assert(index >= self.playlist@.len() ==> commands@ =~= seq![
            Command::ReportMissingTrack(index),
        ]);
        proof {
            lemma_volume_cell_kept(old(self).volume, commands@);
        }
        commands
    }

    /// Stops playing or takes it up again.
    pub fn toggle_play(&mut self) -> (commands: Vec<Command>)
        ensures
            old(self).well_formed() ==> final(self).well_formed(),
            old(self).toggles(*final(self), commands@),
            volume_cell_after(old(self).volume, commands@) == final(self).volume,
    {
        self.is_playing = !self.is_playing;
        let mut commands: Vec<Command> = Vec::new();
        commands.push(Command::SetPaused(!self.is_playing));
        commands.push(Command::KeepAwake(self.is_playing));
        assert(commands@ =~= seq![
            Command::SetPaused(!self.is_playing),
            Command::KeepAwake(self.is_playing),
        ]);
        proof {
            lemma_volume_cell_kept(old(self).volume, commands@);
        }
        commands
    }

    /// The keyboard: the space bar stops playing or takes it up again, unless something in the
    /// window is being typed into.
    pub fn handle_input(&mut self, wants_keyboard: bool, space_pressed: bool) -> (commands: Vec<
        Command,
    >)
        ensures
            old(self).well_formed() ==> final(self).well_formed(),
            if !wants_keyboard && space_pressed {
                old(self).toggles(*final(self), commands@)
            } else {
                *final(self) == *old(self) && commands@.len() == 0
            },
            volume_cell_after(old(self).volume, commands@) == final(self).volume,
    {
        if !wants_keyboard {
            if space_pressed {
                return self.toggle_play();
            }
        }
        Vec::new()
    }

    /// Puts files at the end of the list. If nothing is being played or shown, the first of the
    /// list is started.
    pub fn add_media_files(&mut self, files: Vec<String>) -> (commands: Vec<Command>)
        ensures
            old(self).well_formed() ==> final(self).well_formed(),
            final(self).playlist@ == old(self).playlist@ + files@,
            ({
                let listed = PlayerApp { playlist: final(self).playlist, ..*old(self) };
                if listed.playlist@.len() > 0 && !listed.is_playing && !listed.has_picture {
                    listed.plays(0, *final(self), commands@)
                } else {
                    *final(self) == listed && commands@.len() == 0
                }
            }),
            old(self).lists(files@, *final(self), commands@),
            volume_cell_after(old(self).volume, commands@) == final(self).volume,
    {
        let mut files = files;
        self.playlist.append(&mut files);
        if self.playlist.len() > 0 && !self.is_playing && !self.has_picture {
            self.play_track(0)
        } else {
            Vec::new()
        }
    }

    /// Whether the track `index` is the present one.
    pub fn is_current(&self, index: usize) -> (res: bool)
        ensures
            res == (index == self.current_index),
    {
        index == self.current_index
    }

    /// The colour of the name of a track: the present one stands out.
    pub fn track_tint(&self, index: usize) -> (tint: Tint)
        ensures
            tint == (if index == self.current_index {
                Tint::Green
            } else {
                Tint::LightGray
            }),
    {
        if self.is_current(index) {
            Tint::Green
        } else {
            Tint::LightGray
        }
    }

    /// Starts the track whose name was clicked; of several, the last.
    pub fn choose_track(&mut self, clicked: &[bool]) -> (commands: Vec<Command>)
        ensures
            old(self).well_formed() ==> final(self).well_formed(),
            match last_marked(clicked@) {
                Some(index) => old(self).plays(index, *final(self), commands@),
                None => *final(self) == *old(self) && commands@.len() == 0,
            },
            volume_cell_after(old(self).volume, commands@) == final(self).volume,
    {
        let mut track_to_play: Option<usize> = None;
        assert(clicked@.take(0) =~= Seq::<bool>::empty());
        for index in 0..clicked.len()
            invariant
                match track_to_play {
                    Some(track) => last_marked(clicked@.take(index as int)) == Some(track as int),
                    None => last_marked(clicked@.take(index as int)) is None,
                },
        {
            assert(clicked@.take(index + 1).drop_last() =~= clicked@.take(index as int));
            if clicked[index] {
                track_to_play = Some(index);
            }
        }
        assert(clicked@.take(clicked@.len() as int) =~= clicked@);
        match track_to_play {
            Some(index) => self.play_track(index),
            None => Vec::new(),
        }
    }

    /// Where the time slider stands: at the present time, or where it is being dragged.
    pub open spec fn shown_time(self) -> Double {
        if self.is_dragging {
            self.drag_time
        } else {
            self.current_time
        }
    }

    /// Where the time slider stands.
    pub fn display_time(&self) -> (time: Double)
        ensures
            time == self.shown_time(),
    {
        if self.is_dragging {
            self.drag_time
        } else {
            self.current_time
        }
    }

    /// The time slider: while it is dragged it stays where the user holds it, and when it is let go
    /// the decoder is asked to go there.
    pub fn move_slider(&mut self, slider: SliderMove) -> (commands: Vec<Command>)
        ensures
            old(self).well_formed() ==> final(self).well_formed(),
            *final(self) == (PlayerApp {
                is_dragging: if slider.stopped {
                    false
                } else {
                    slider.started || old(self).is_dragging
                },
                drag_time: if slider.dragged {
                    slider.time
                } else {
                    old(self).drag_time
                },
                ..*old(self)
            }),
            commands@ == (if slider.stopped {
                seq![Command::Seek(slider.time)]
            } else {
                Seq::<Command>::empty()
            }),
            old(self).slides(slider, *final(self), commands@),
            volume_cell_after(old(self).volume, commands@) == final(self).volume,
    {
        let mut commands: Vec<Command> = Vec::new();
        if slider.started {
            self.is_dragging = true;
        }
        if slider.dragged {
            self.drag_time = slider.time;
        }
        if slider.stopped {
            self.is_dragging = false;
            commands.push(Command::Seek(slider.time));
        }
        proof {
            lemma_volume_cell_kept(old(self).volume, commands@);
        }
        commands
    }

    /// The text of the button that stops playing or takes it up again.
    pub fn play_label(&self) -> (text: &'static str)
        ensures
            text@ == (if self.is_playing {
                "⏸ Пауза"@
            } else {
                "▶ Відтворити"@
            }),
    {
        if self.is_playing {
            "⏸ Пауза"
        } else {
            "▶ Відтворити"
        }
    }

    /// The colour of that text.
    pub fn play_tint(&self) -> (tint: Tint)
        ensures
            tint == (if self.is_playing {
                Tint::LightRed
            } else {
                Tint::Green
            }),
    {
        if self.is_playing {
            Tint::LightRed
        } else {
            Tint::Green
        }
    }

    /// The present time and the length of the track, as they are shown.
    pub fn timecode(&self) -> (text: String)
        ensures
            text@ == crate::time_code::progress_text(self.current_time, self.total_time),
    {
        format_progress(self.current_time, self.total_time)
    }

    /// The name of the chosen accompanying picture.
    pub fn visual_label(&self) -> (text: &'static str)
        ensures
            text@ == visual_name(self.visual_index),
    {
        Self::visual_label_of(self.visual_index)
    }

    /// The name of an accompanying picture.
    pub fn visual_label_of(index: i8) -> (text: &'static str)
        ensures
            text@ == visual_name(index),
    {
        match index {
            0 => "Вимкнено",
            1 => "Кроляча нора",
            2 => "Еквалайзер",
            _ => "Невідомо",
        }
    }

    /// Chooses the accompanying picture.
    pub fn choose_visual(&mut self, index: i8) -> (commands: Vec<Command>)
        requires
            0 <= index <= 2,
        ensures
            old(self).well_formed() ==> final(self).well_formed(),
            *final(self) == (PlayerApp { visual_index: index, ..*old(self) }),
            commands@ == seq![Command::SetVisual(index)],
            volume_cell_after(old(self).volume, commands@) == final(self).volume,
    {
        self.visual_index = index;
        let mut commands: Vec<Command> = Vec::new();
        commands.push(Command::SetVisual(index));
        proof {
            lemma_volume_cell_kept(old(self).volume, commands@);
        }
        commands
    }

    /// The text of the button that shows the list or puts it away.
    pub fn playlist_label(&self) -> (text: &'static str)
        ensures
            text@ == (if self.is_hide_playlist {
                "📂 Показати плейлист"@
            } else {
                "📁 Приховати плейлист"@
            }),
    {
        if self.is_hide_playlist {
            "📂 Показати плейлист"
        } else {
            "📁 Приховати плейлист"
        }
    }

    /// Shows the list or puts it away.
    pub fn toggle_playlist(&mut self)
        ensures
            old(self).well_formed() ==> final(self).well_formed(),
            *final(self) == (PlayerApp {
                is_hide_playlist: !old(self).is_hide_playlist,
                ..*old(self)
            }),
    {
        self.is_hide_playlist = !self.is_hide_playlist;
    }

    /// Starts the track before the present one; before the first comes the last.
    pub fn play_previous(&mut self) -> (commands: Vec<Command>)
        requires
            old(self).current_index > 0 || old(self).playlist@.len() > 0,
        ensures
            old(self).well_formed() ==> final(self).well_formed(),
            old(self).plays(
                track_before(old(self).current_index as int, old(self).playlist@.len() as int),
                *final(self),
                commands@,
            ),
            volume_cell_after(old(self).volume, commands@) == final(self).volume,
    {
        let idx: usize = if self.current_index > 0 {
            self.current_index - 1
        } else {
            self.playlist.len() - 1
        };
        self.play_track(idx)
    }

    /// Starts the track after the present one; after the last comes the first.
    pub fn play_next(&mut self) -> (commands: Vec<Command>)
        requires
            old(self).current_index < usize::MAX,
            old(self).playlist@.len() > 0,
        ensures
            old(self).well_formed() ==> final(self).well_formed(),
            old(self).plays(
                track_after(old(self).current_index as int, old(self).playlist@.len() as int),
                *final(self),
                commands@,
            ),
            volume_cell_after(old(self).volume, commands@) == final(self).volume,
    {
        let count: usize = self.playlist.len();
        let idx: usize = (self.current_index + 1) % count;
        self.play_track(idx)
    }

    /// `next` is `self` after the volume slider was drawn with the value `volume`, and `changed`
    /// tells whether the user moved it. What lies outside of its range is no place of the slider.
    pub open spec fn turns_volume(
        self,
        volume: Single,
        changed: bool,
        next: PlayerApp,
        commands: Seq<Command>,
    ) -> bool {
        if changed && volume_fits(volume) {
            &&& next == (PlayerApp { volume, ..self })
            &&& commands == seq![Command::SetVolume(volume)]
        } else {
            next == self && commands.len() == 0
        }
    }

    /// The volume slider. Where it was moved, the volume and its cell get what it shows; otherwise
    /// both stay as they are.
    pub fn set_volume(&mut self, volume: Single, changed: bool) -> (commands: Vec<Command>)
        ensures
            old(self).well_formed() ==> final(self).well_formed(),
            old(self).turns_volume(volume, changed, *final(self), commands@),
            volume_cell_after(old(self).volume, commands@) == final(self).volume,
    {
        let mut commands: Vec<Command> = Vec::new();
        let lowest = Single { bits: LOWEST_VOLUME };
        let highest = Single { bits: HIGHEST_VOLUME };
        if changed && volume.is_within(lowest, highest) {
            self.volume = volume;
            commands.push(Command::SetVolume(volume));
        }
        commands
    }

    /// Whether frames are to be received now. A window that is not playing leaves them where they
    /// are.
    pub fn takes_frames(&self) -> (res: bool)
        ensures
            res == self.is_playing,
    {
        self.is_playing
    }

    /// Takes the frames that have come since the window was last drawn, and whether the decoder is
    /// gone. The time follows the last frame, with a picture or without; the picture follows the
    /// last frame that has one. A decoder that is gone has come to the end of its track: the next
    /// one is started, after the last one the first, and the frames no longer matter. A window
    /// that is not playing takes nothing.
    pub fn process_video_frames(
        &mut self,
        frames: Vec<VideoFrame>,
        disconnected: bool,
    ) -> (update: Update)
        requires
            old(self).is_playing && disconnected ==> old(self).current_index < usize::MAX,
            old(self).is_playing && !disconnected ==> (last_picture(frames@) matches Some(frame) ==> {
                &&& frame.well_formed()
                &&& frame.width * frame.height * 4 <= isize::MAX
            }),
        ensures
            old(self).well_formed() ==> final(self).well_formed(),
            !old(self).is_playing ==> {
                &&& *final(self) == *old(self)
                &&& update.commands@.len() == 0
                &&& update.picture is None
            },
            old(self).is_playing && disconnected && old(self).current_index + 1 < old(
                self,
            ).playlist@.len() ==> {
                &&& update.picture is None
                &&& old(self).plays(
                    old(self).current_index + 1,
                    *final(self),
                    update.commands@,
                )
            },
            old(self).is_playing && disconnected && old(self).current_index + 1 >= old(
                self,
            ).playlist@.len() ==> {
                &&& update.picture is None
                &&& update.commands@.len() > 0
                &&& update.commands@[0] == Command::ClearPicture
                &&& old(self).track_over().plays(
                    0,
                    *final(self),
                    update.commands@.drop_first(),
                )
            },
            old(self).is_playing && !disconnected ==> {
                &&& *final(self) == (PlayerApp {
                    current_time: if frames@.len() > 0 {
                        frames@.last().pts
                    } else {
                        old(self).current_time
                    },
                    total_time: if frames@.len() > 0 {
                        frames@.last().duration
                    } else {
                        old(self).total_time
                    },
                    has_picture: old(self).has_picture || last_picture(frames@) is Some,
                    ..*old(self)
                })
                &&& update.commands@.len() == 0
                &&& match last_picture(frames@) {
                    Some(frame) => update.picture matches Some(image) && shows(image, frame),
                    None => update.picture is None,
                }
            },
            old(self).receives(
                frames@,
                disconnected,
                *final(self),
                update.commands@,
                update.picture,
            ),
            old(self).is_playing && !disconnected && frames@.len() > 0 && frames@.last().width > 0
                && frames@.last().height > 0 && frames@.last().rgb_data@.len()
                == frames@.last().width * frames@.last().height * 3 ==> final(self).has_picture && (
            update.picture matches Some(image) && crate::video_frame::image_size(image) == (
                frames@.last().width,
                frames@.last().height,
            ) && forall|i: int|
                0 <= i < frames@.last().width * frames@.last().height
                    ==> #[trigger] crate::video_frame::image_pixels(image)[i] == (
                    frames@.last().rgb_data@[3 * i],
                    frames@.last().rgb_data@[3 * i + 1],
                    frames@.last().rgb_data@[3 * i + 2],
                    255u8,
                )),
            volume_cell_after(old(self).volume, update.commands@) == final(self).volume,
    {
        if !self.is_playing {
            return Update { commands: Vec::new(), picture: None };
        }
        if disconnected {
            let count: usize = self.playlist.len();
            if self.current_index + 1 < count {
                let commands = self.play_track(self.current_index + 1);
                return Update { commands, picture: None };
            }
            self.current_time = Double { bits: BEGINNING };
            self.has_picture = false;
            let mut commands: Vec<Command> = Vec::new();
            commands.push(Command::ClearPicture);
            let mut started = self.play_track(0);
            let ghost play = started@;
            commands.append(&mut started);
            assert(commands@.drop_first() =~= play);
            proof {
                lemma_volume_cell_kept(old(self).volume, commands@);
            }
            return Update { commands, picture: None };
        }
        if frames.len() > 0 {
            let last = &frames[frames.len() - 1];
            proof {
                crate::video_frame::law_frames_with_pixels_are_pictures(*last);
            }
            self.current_time = last.pts;
            self.total_time = last.duration;
        }
        let picture = match newest_picture(frames) {
            Some(frame) => Some(frame.to_image()),
            None => None,
        };
        if picture.is_some() {
            self.has_picture = true;
        }
        Update { commands: Vec::new(), picture }
    }

    /// How many milliseconds may pass before the window is drawn again; none while playing, when it
    /// is drawn without pause.
    pub fn repaint_after(&self) -> (millis: Option<u64>)
        ensures
            millis == (if self.is_playing {
                None::<u64>
            } else {
                Some(IDLE_REPAINT_MILLIS)
            }),
    {
        if self.is_playing {
            None
        } else {
            Some(IDLE_REPAINT_MILLIS)
        }
    }
}

} // verus!
