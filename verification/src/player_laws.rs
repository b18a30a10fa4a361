//! What holds of the player's window as a whole.
use crate::ieee::{Double, Single};
use crate::player_app::{
    last_marked, last_picture, track_after, track_before, tracks_after, tracks_before, visual_name,
    volume_cell_after, volume_fits, Command, PlayerApp, SliderMove, BEGINNING,
};
use crate::video_frame::{
    image_pixels, image_size, law_frames_with_pixels_are_pictures, VideoFrame,
};
use vstd::prelude::*;

verus! {

/// The state of the pause switch after commands.
pub open spec fn switch_after(before: bool, commands: Seq<Command>) -> bool
    decreases commands.len(),
{
    if commands.len() == 0 {
        before
    } else {
        match commands.last() {
            Command::SetPaused(paused) => paused,
            _ => switch_after(before, commands.drop_last()),
        }
    }
}

/// Stopping and taking up again leaves the window as it was.
pub proof fn law_toggle_twice(
    p: PlayerApp,
    q: PlayerApp,
    r: PlayerApp,
    first: Seq<Command>,
    second: Seq<Command>,
)
    requires
        p.toggles(q, first),
        q.toggles(r, second),
    ensures
        r == p,
{
}

/// Stopping playing turns the pause switch on, and taking it up turns it off.
pub proof fn law_switch_follows_toggle(
    p: PlayerApp,
    q: PlayerApp,
    commands: Seq<Command>,
    before: bool,
)
    requires
        p.toggles(q, commands),
    ensures
        switch_after(before, commands) == !q.is_playing,
{
    reveal_with_fuel(switch_after, 3);
    assert(commands.drop_last().last() == Command::SetPaused(p.is_playing));
}

/// A track that is started is played at once, whatever the pause switch was before.
pub proof fn law_started_track_plays(
    p: PlayerApp,
    index: int,
    q: PlayerApp,
    commands: Seq<Command>,
    before: bool,
)
    requires
        p.plays(index, q, commands),
        0 <= index < p.playlist@.len(),
    ensures
        q.is_playing,
        q.current_index == index,
        !switch_after(before, commands),
{
    reveal_with_fuel(switch_after, 4);
    assert(p.playlist.len() == p.playlist@.len());
    let three = commands.drop_last();
    let two = three.drop_last();
    assert(three.last() == Command::StartDecoder(p.playlist@[index]));
    assert(two.last() == Command::SetPaused(false));
}

/// The volume slider keeps the volume in its range and the volume cell at the volume. It gives the
/// volume the value that it was moved to, changes nothing where it was not moved, and never changes
/// anything else.
pub proof fn law_volume_follows_its_slider(
    p: PlayerApp,
    volume: Single,
    changed: bool,
    q: PlayerApp,
    commands: Seq<Command>,
    cell: Single,
)
    requires
        cell == p.volume,
        volume_fits(p.volume),
        p.turns_volume(volume, changed, q, commands),
    ensures
        volume_fits(q.volume),
        volume_cell_after(cell, commands) == q.volume,
        changed && volume_fits(volume) ==> q.volume == volume,
        !changed ==> q == p,
        q == (PlayerApp { volume: q.volume, ..p }),
{
}

/// The seek cell of a window that is just opened asks for the beginning of the recording.
pub proof fn law_window_opens_at_the_beginning()
    ensures
        !(Double { bits: BEGINNING }).nan(),
        (Double { bits: BEGINNING }).value() == 0,
{
}

/// Going to the next track and back, or back and on again, leads to the same track.
pub proof fn law_next_and_previous_undo_each_other(index: int, count: int)
    requires
        0 <= index < count,
    ensures
        0 <= track_after(index, count) < count,
        0 <= track_before(index, count) < count,
        track_before(track_after(index, count), count) == index,
        track_after(track_before(index, count), count) == index,
{
    lemma_track_after(index, count);
    lemma_track_after(track_before(index, count), count);
}

/// The next track in plain terms.
proof fn lemma_track_after(index: int, count: int)
    requires
        0 <= index < count,
    ensures
        track_after(index, count) == (if index + 1 < count {
            index + 1
        } else {
            0
        }),
{
    if index + 1 < count {
        vstd::arithmetic::div_mod::lemma_small_mod((index + 1) as nat, count as nat);
    } else {
        vstd::arithmetic::div_mod::lemma_mod_self_0(count);
    }
}

/// At the end of a track the one that follows is the one that the button for the next track leads
/// to.
pub proof fn law_tracks_follow_each_other(p: PlayerApp)
    requires
        p.well_formed(),
        p.playlist@.len() > 0,
    ensures
        track_after(p.current_index as int, p.playlist@.len() as int) == (if p.current_index + 1
            < p.playlist@.len() {
            p.current_index + 1
        } else {
            0
        }),
{
    lemma_track_after(p.current_index as int, p.playlist@.len() as int);
}

/// Going on again and again passes through the list in its order, and as many times as there are
/// tracks leads back to the same one.
pub proof fn law_list_goes_round(index: int, count: int, times: nat)
    requires
        0 <= index < count,
        times <= count,
    ensures
        tracks_after(index, count, times) == (if index + times < count {
            index + times
        } else {
            index + times - count
        }),
        tracks_after(index, count, count as nat) == index,
{
    lemma_list_goes_on(index, count, times);
    lemma_list_goes_on(index, count, count as nat);
}

/// Going on step by step.
proof fn lemma_list_goes_on(index: int, count: int, times: nat)
    requires
        0 <= index < count,
        times <= count,
    ensures
        tracks_after(index, count, times) == (if index + times < count {
            index + times
        } else {
            index + times - count
        }),
    decreases times,
{
    if times > 0 {
        lemma_list_goes_on(index, count, (times - 1) as nat);
        lemma_track_after(tracks_after(index, count, (times - 1) as nat), count);
    }
}

/// Going back again and again passes through the list against its order, and as many times as there
/// are tracks leads back to the same one.
pub proof fn law_list_goes_round_backwards(index: int, count: int, times: nat)
    requires
        0 <= index < count,
        times <= count,
    ensures
        tracks_before(index, count, times) == (if index - times >= 0 {
            index - times
        } else {
            index - times + count
        }),
        tracks_before(index, count, count as nat) == index,
{
    lemma_list_goes_back(index, count, times);
    lemma_list_goes_back(index, count, count as nat);
}

/// Going back step by step.
proof fn lemma_list_goes_back(index: int, count: int, times: nat)
    requires
        0 <= index < count,
        times <= count,
    ensures
        tracks_before(index, count, times) == (if index - times >= 0 {
            index - times
        } else {
            index - times + count
        }),
    decreases times,
{
    if times > 0 {
        lemma_list_goes_back(index, count, (times - 1) as nat);
    }
}

/// The picture that is shown is that of the last frame that has one; frames without a picture
/// never take its place, so a cover stays on the screen.
pub proof fn law_picture_is_the_newest(frames: Seq<VideoFrame>)
    ensures
        match last_picture(frames) {
            Some(frame) => exists|i: int|
                0 <= i < frames.len() && frames[i] == frame && #[trigger] frames[i].picture()
                    && forall|k: int| i < k < frames.len() ==> !#[trigger] frames[k].picture(),
            None => forall|k: int| 0 <= k < frames.len() ==> !#[trigger] frames[k].picture(),
        },
    decreases frames.len(),
{
    if frames.len() > 0 {
        let front = frames.drop_last();
        law_picture_is_the_newest(front);
        if frames.last().picture() {
            assert(frames[frames.len() - 1].picture());
        } else {
            match last_picture(front) {
                Some(frame) => {
                    let i = choose|i: int|
                        0 <= i < front.len() && front[i] == frame && #[trigger] front[i].picture()
                            && forall|k: int|
                            i < k < front.len() ==> !#[trigger] front[k].picture();
                    assert(frames[i].picture());
                    assert forall|k: int| i < k < frames.len() implies !#[trigger] frames[k].picture() by {
                        if k < front.len() {
                            assert(front[k] == frames[k]);
                        }
                    }
                },
                None => {
                    assert forall|k: int| 0 <= k < frames.len() implies !#[trigger] frames[k].picture() by {
                        if k < front.len() {
                            assert(front[k] == frames[k]);
                        }
                    }
                },
            }
        }
    }
}

/// Of several tracks that were clicked, the last one is started.
pub proof fn law_last_click_counts(clicked: Seq<bool>)
    ensures
        match last_marked(clicked) {
            Some(index) => {
                &&& 0 <= index < clicked.len()
                &&& clicked[index]
                &&& forall|k: int| index < k < clicked.len() ==> !#[trigger] clicked[k]
            },
            None => forall|k: int| 0 <= k < clicked.len() ==> !#[trigger] clicked[k],
        },
    decreases clicked.len(),
{
    if clicked.len() > 0 && !clicked.last() {
        let front = clicked.drop_last();
        law_last_click_counts(front);
        assert forall|k: int| 0 <= k < front.len() implies front[k] == #[trigger] clicked[k] by {}
    }
}

/// While the time slider is dragged, the passing of time does not move it.
pub proof fn law_dragged_slider_stays(p: PlayerApp, time: Double)
    requires
        p.is_dragging,
    ensures
        (PlayerApp { current_time: time, ..p }).shown_time() == p.shown_time(),
{
}

/// The accompanying picture that is chosen always has a name.
pub proof fn law_visual_is_known(p: PlayerApp)
    requires
        p.well_formed(),
    ensures
        visual_name(p.visual_index) != "Невідомо"@,
{
    reveal_strlit("Вимкнено");
    reveal_strlit("Кроляча нора");
    reveal_strlit("Еквалайзер");
    reveal_strlit("Невідомо");
    assert("Вимкнено"@[0] != "Невідомо"@[0]);
}

/// A track that is in the list is started: it becomes the present one and is played, its own file
/// goes to a new decoder, the display is kept awake, the pause switch is turned off and the old
/// picture is taken away. Nothing else changes.
pub proof fn law_listed_track_is_started(
    p: PlayerApp,
    index: int,
    q: PlayerApp,
    commands: Seq<Command>,
)
    requires
        p.plays(index, q, commands),
        0 <= index < p.playlist@.len(),
    ensures
        q.current_index == index,
        q.is_playing,
        !q.has_picture,
        q == (PlayerApp {
            current_index: q.current_index,
            is_playing: q.is_playing,
            has_picture: q.has_picture,
            ..p
        }),
        commands.len() == 4,
        commands[0] == Command::KeepAwake(true),
        commands[1] == Command::SetPaused(false),
        commands[2] == Command::StartDecoder(p.playlist@[index]),
        commands[3] == Command::ClearPicture,
{
    assert(p.playlist.len() == p.playlist@.len());
}

/// A track that is not in the list stops playing and is reported by its number. Nothing else
/// changes.
pub proof fn law_missing_track_is_reported(
    p: PlayerApp,
    index: usize,
    q: PlayerApp,
    commands: Seq<Command>,
)
    requires
        p.plays(index as int, q, commands),
        index >= p.playlist@.len(),
    ensures
        !q.is_playing,
        q == (PlayerApp { is_playing: q.is_playing, ..p }),
        commands.len() == 1,
        commands[0] == Command::ReportMissingTrack(index),
{
}

/// Stopping playing turns the pause switch on and lets the display sleep, and taking it up does the
/// opposite. Nothing else changes.
pub proof fn law_toggle_turns_everything(p: PlayerApp, q: PlayerApp, commands: Seq<Command>)
    requires
        p.toggles(q, commands),
    ensures
        q.is_playing != p.is_playing,
        q == (PlayerApp { is_playing: q.is_playing, ..p }),
        commands.len() == 2,
        commands[0] == Command::SetPaused(p.is_playing),
        commands[1] == Command::KeepAwake(q.is_playing),
{
}

/// Files that are added stand at the end of the list in their order, and what was listed keeps its
/// place. The first track is started if nothing is being played or shown; otherwise nothing else
/// happens.
pub proof fn law_added_files_are_listed(
    p: PlayerApp,
    files: Seq<String>,
    q: PlayerApp,
    commands: Seq<Command>,
)
    requires
        p.lists(files, q, commands),
    ensures
        q.playlist@.len() == p.playlist@.len() + files.len(),
        forall|i: int| 0 <= i < p.playlist@.len() ==> #[trigger] q.playlist@[i] == p.playlist@[i],
        forall|i: int|
            0 <= i < files.len() ==> q.playlist@[p.playlist@.len() + i] == #[trigger] files[i],
        p.is_playing || p.has_picture || q.playlist@.len() == 0 ==> commands.len() == 0 && q == (
        PlayerApp { playlist: q.playlist, ..p }),
        !p.is_playing && !p.has_picture && q.playlist@.len() > 0 ==> {
            &&& q.is_playing
            &&& q.current_index == 0
            &&& commands.len() == 4
            &&& commands[2] == Command::StartDecoder(q.playlist@[0])
            &&& q == (PlayerApp { playlist: q.playlist, is_playing: true, current_index: 0, ..p })
        },
{
}

/// The time slider is being dragged from when the user takes hold of it until it is let go. While
/// it is moved it keeps the place where it is held, and when it is let go, and only then, the
/// decoder is asked to go to where it stands. Nothing else changes.
pub proof fn law_slider_asks_when_let_go(
    p: PlayerApp,
    slider: SliderMove,
    q: PlayerApp,
    commands: Seq<Command>,
)
    requires
        p.slides(slider, q, commands),
    ensures
        slider.stopped ==> !q.is_dragging && commands.len() == 1 && commands[0] == Command::Seek(
            slider.time,
        ),
        !slider.stopped ==> commands.len() == 0,
        !slider.stopped && slider.started ==> q.is_dragging,
        !slider.stopped && !slider.started ==> q.is_dragging == p.is_dragging,
        slider.dragged ==> q.drag_time == slider.time,
        !slider.dragged ==> q.drag_time == p.drag_time,
        q == (PlayerApp { is_dragging: q.is_dragging, drag_time: q.drag_time, ..p }),
        q.is_dragging ==> q.shown_time() == q.drag_time,
        !q.is_dragging ==> q.shown_time() == p.current_time,
{
}

/// A playing window shows the last frame that has pixels, whatever its size: the image has the width
/// and height of the frame and, pixel for pixel, its colours. Frames that follow without pixels do
/// not take it away.
pub proof fn law_last_pixels_are_shown(
    p: PlayerApp,
    frames: Seq<VideoFrame>,
    q: PlayerApp,
    commands: Seq<Command>,
    picture: Option<eframe::egui::ColorImage>,
    i: int,
)
    requires
        p.is_playing,
        p.receives(frames, false, q, commands, picture),
        0 <= i < frames.len(),
        frames[i].width > 0,
        frames[i].height > 0,
        frames[i].rgb_data@.len() == frames[i].width * frames[i].height * 3,
        forall|k: int|
            i < k < frames.len() ==> (#[trigger] frames[k]).width == 0 || frames[k].height == 0
                || frames[k].rgb_data@.len() == 0,
    ensures
        q.has_picture,
        picture is Some,
        image_size(picture->0) == (frames[i].width, frames[i].height),
        image_pixels(picture->0).len() == frames[i].width * frames[i].height,
        forall|k: int|
            0 <= k < frames[i].width * frames[i].height ==> #[trigger] image_pixels(picture->0)[k]
                == (
                frames[i].rgb_data@[3 * k],
                frames[i].rgb_data@[3 * k + 1],
                frames[i].rgb_data@[3 * k + 2],
                255u8,
            ),
{
    law_frames_with_pixels_are_pictures(frames[i]);
    assert(0 <= frames[i].width * frames[i].height) by (nonlinear_arith);
    lemma_last_picture(frames, i);
}

/// Where no frame has pixels, no picture is shown in place of the present one.
pub proof fn law_frames_without_pixels_show_nothing(
    p: PlayerApp,
    frames: Seq<VideoFrame>,
    q: PlayerApp,
    commands: Seq<Command>,
    picture: Option<eframe::egui::ColorImage>,
)
    requires
        p.is_playing,
        p.receives(frames, false, q, commands, picture),
        forall|k: int|
            0 <= k < frames.len() ==> (#[trigger] frames[k]).width == 0 || frames[k].height == 0
                || frames[k].rgb_data@.len() == 0,
    ensures
        picture is None,
        q.has_picture == p.has_picture,
{
    law_picture_is_the_newest(frames);
}

/// The last frame with a picture is the last picture.
proof fn lemma_last_picture(frames: Seq<VideoFrame>, i: int)
    requires
        0 <= i < frames.len(),
        frames[i].picture(),
        forall|k: int|
            i < k < frames.len() ==> (#[trigger] frames[k]).width == 0 || frames[k].height == 0
                || frames[k].rgb_data@.len() == 0,
    ensures
        last_picture(frames) == Some(frames[i]),
    decreases frames.len(),
{
    law_frames_with_pixels_are_pictures(frames.last());
    if i < frames.len() - 1 {
        assert(!frames[frames.len() - 1].picture());
        let front = frames.drop_last();
        assert forall|k: int| i < k < front.len() implies (#[trigger] front[k]).width == 0
            || front[k].height == 0 || front[k].rgb_data@.len() == 0 by {
            assert(front[k] == frames[k]);
        }
        lemma_last_picture(front, i);
    }
}

/// The time display of a playing window follows the last frame that came, with pixels or without;
/// where none came it stays. Frames alone ask for nothing, and change nothing but the time and
/// whether there is a picture.
pub proof fn law_time_follows_the_last_frame(
    p: PlayerApp,
    frames: Seq<VideoFrame>,
    q: PlayerApp,
    commands: Seq<Command>,
    picture: Option<eframe::egui::ColorImage>,
)
    requires
        p.is_playing,
        p.receives(frames, false, q, commands, picture),
    ensures
        frames.len() > 0 ==> q.current_time == frames[frames.len() - 1].pts && q.total_time
            == frames[frames.len() - 1].duration,
        frames.len() == 0 ==> q == p,
        commands.len() == 0,
        q == (PlayerApp {
            current_time: q.current_time,
            total_time: q.total_time,
            has_picture: q.has_picture,
            ..p
        }),
{
}

/// When the decoder of a playing window is gone, the track that follows is started with its own
/// file; after the last track the first one is, with the time display at the beginning. A list
/// without tracks stops playing. The frames that came last are not shown.
pub proof fn law_next_track_follows_the_end(
    p: PlayerApp,
    frames: Seq<VideoFrame>,
    q: PlayerApp,
    commands: Seq<Command>,
    picture: Option<eframe::egui::ColorImage>,
)
    requires
        p.is_playing,
        p.receives(frames, true, q, commands, picture),
    ensures
        picture is None,
        q.playlist == p.playlist,
        q.total_time == p.total_time,
        p.current_index + 1 < p.playlist@.len() ==> {
            &&& q.is_playing && !q.has_picture
            &&& q.current_index == p.current_index + 1
            &&& q.current_time == p.current_time
            &&& commands.len() == 4
            &&& commands[1] == Command::SetPaused(false)
            &&& commands[2] == Command::StartDecoder(p.playlist@[p.current_index + 1])
        },
        p.current_index + 1 >= p.playlist@.len() && p.playlist@.len() > 0 ==> {
            &&& q.is_playing && !q.has_picture
            &&& q.current_index == 0
            &&& q.current_time == (Double { bits: 0 })
            &&& commands.len() == 5
            &&& commands[0] == Command::ClearPicture
            &&& commands[2] == Command::SetPaused(false)
            &&& commands[3] == Command::StartDecoder(p.playlist@[0])
        },
        p.playlist@.len() == 0 ==> {
            &&& !q.is_playing && !q.has_picture
            &&& q.current_index == p.current_index
            &&& q.current_time == (Double { bits: 0 })
            &&& commands.len() == 2
            &&& commands[0] == Command::ClearPicture
            &&& commands[1] == Command::ReportMissingTrack(0)
        },
{
    assert(p.playlist.len() == p.playlist@.len());
    let started = commands.drop_first();
    if p.current_index + 1 >= p.playlist@.len() {
        assert(started.len() == commands.len() - 1);
        assert(forall|i: int| 0 <= i < started.len() ==> started[i] == #[trigger] commands[i + 1]);
        if p.playlist@.len() > 0 {
            assert(started[1] == commands[2]);
            assert(started[2] == commands[3]);
        } else {
            assert(started[0] == commands[1]);
        }
    }
}

/// A window that is not playing takes no notice of frames or of the end of a track.
pub proof fn law_stopped_window_takes_nothing(
    p: PlayerApp,
    frames: Seq<VideoFrame>,
    disconnected: bool,
    q: PlayerApp,
    commands: Seq<Command>,
    picture: Option<eframe::egui::ColorImage>,
)
    requires
        !p.is_playing,
        p.receives(frames, disconnected, q, commands, picture),
    ensures
        q == p,
        commands.len() == 0,
        picture is None,
{
}

/// The volumes that can be chosen are the patterns from that of zero to that of three, and minus
/// zero.
pub proof fn law_volumes_by_their_patterns(volume: Single)
    ensures
        volume_fits(volume) <==> volume.bits <= 0x4040_0000 || volume.bits == 0x8000_0000,
{
    let zero = Single { bits: 0 };
    let three = Single { bits: 0x4040_0000 };
    crate::ieee::law_within_passes_no_bound(volume, zero, three);
    crate::ieee::law_singles_compare_by_their_patterns(volume, three);
    crate::ieee::law_singles_compare_by_their_patterns(zero, volume);
    crate::ieee::law_singles_compare_by_their_patterns(zero, three);
    crate::ieee::law_singles_compare_by_their_patterns(three, zero);
}

/// A volume slider that was moved to a volume that can be chosen sets the volume and asks for
/// nothing but that its cell be set to it.
pub proof fn law_moved_slider_sets_the_volume(
    p: PlayerApp,
    volume: Single,
    q: PlayerApp,
    commands: Seq<Command>,
)
    requires
        p.turns_volume(volume, true, q, commands),
        volume.bits <= 0x4040_0000,
    ensures
        q == (PlayerApp { volume, ..p }),
        commands.len() == 1,
        commands[0] == Command::SetVolume(volume),
{
    law_volumes_by_their_patterns(volume);
}

/// Each number of an accompanying picture has its own name, and any other number has none of them.
pub proof fn law_visuals_have_their_names(index: i8)
    ensures
        index == 0 ==> visual_name(index) == "Вимкнено"@,
        index == 1 ==> visual_name(index) == "Кроляча нора"@,
        index == 2 ==> visual_name(index) == "Еквалайзер"@,
        index < 0 || index > 2 ==> visual_name(index) == "Невідомо"@,
{
}

/// A window that is well formed has its present track in the list, or has no list; knows its
/// accompanying picture; and has a volume from zero to three.
pub proof fn law_well_formed_window(p: PlayerApp)
    requires
        p.well_formed(),
    ensures
        p.playlist@.len() > 0 ==> p.current_index < p.playlist@.len(),
        p.playlist@.len() == 0 ==> p.current_index == 0,
        p.visual_index == 0 || p.visual_index == 1 || p.visual_index == 2,
        p.volume.bits <= 0x4040_0000 || p.volume.bits == 0x8000_0000,
{
    law_volumes_by_their_patterns(p.volume);
}

} // verus!
