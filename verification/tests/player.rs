use media_player::ieee::{Double, Single};
use media_player::player_app::{
    Command, PlayerApp, SliderMove, Tint, HIGHEST_VOLUME, LOWEST_VOLUME,
};
use media_player::video_frame::VideoFrame;

fn seconds(x: f64) -> Double {
    Double { bits: x.to_bits() }
}

fn names(list: &[&str]) -> Vec<String> {
    list.iter().map(|name| name.to_string()).collect()
}

fn with_tracks(list: &[&str]) -> PlayerApp {
    let mut app = PlayerApp::new();
    app.playlist = names(list);
    app
}

fn told(commands: &Vec<Command>) -> String {
    format!("{:?}", commands)
}

fn starting(path: &str) -> String {
    format!(
        "[KeepAwake(true), SetPaused(false), StartDecoder({:?}), ClearPicture]",
        path
    )
}

fn picture(color: u8, pts: f64) -> VideoFrame {
    VideoFrame {
        width: 1,
        height: 1,
        rgb_data: vec![color, color, color],
        pts: seconds(pts),
        duration: seconds(100.0),
    }
}

#[test]
fn window_begins_playing_at_half_volume() {
    let app = PlayerApp::new();
    assert!(app.is_playing);
    assert_eq!(f32::from_bits(app.volume.bits), 0.5);
    assert_eq!(app.visual_index, 1);
    assert!(app.playlist.is_empty());
    assert!(!app.is_hide_playlist);
    assert!(!app.has_picture);
    assert_eq!(app.display_time(), seconds(0.0));
    assert_eq!(
        told(&app.startup()),
        format!(
            "[SetVolume(Single {{ bits: {} }}), SetPaused(false), Seek(Double {{ bits: 0 }}), \
             SetVisual(1), KeepAwake(true)]",
            0.5f32.to_bits()
        )
    );
}

#[test]
fn track_is_started() {
    let mut app = with_tracks(&["a", "b"]);
    app.has_picture = true;
    app.is_playing = false;
    assert_eq!(told(&app.play_track(1)), starting("b"));
    assert_eq!(app.current_index, 1);
    assert!(app.is_playing);
    assert!(!app.has_picture);
}

#[test]
fn missing_track_only_stops_playing() {
    let mut app = with_tracks(&["a", "b"]);
    app.current_index = 1;
    app.has_picture = true;
    assert_eq!(told(&app.play_track(2)), "[ReportMissingTrack(2)]");
    assert!(!app.is_playing);
    assert_eq!(app.current_index, 1);
    assert!(app.has_picture);
}

#[test]
fn toggle_stops_and_takes_up() {
    let mut app = PlayerApp::new();
    assert_eq!(told(&app.toggle_play()), "[SetPaused(true), KeepAwake(false)]");
    assert!(!app.is_playing);
    assert_eq!(app.play_label(), "▶ Відтворити");
    assert_eq!(app.play_tint(), Tint::Green);
    assert_eq!(app.repaint_after(), Some(50));
    assert_eq!(told(&app.toggle_play()), "[SetPaused(false), KeepAwake(true)]");
    assert!(app.is_playing);
    assert_eq!(app.play_label(), "⏸ Пауза");
    assert_eq!(app.play_tint(), Tint::LightRed);
    assert_eq!(app.repaint_after(), None);
}

#[test]
fn space_bar_is_heard_unless_text_is_typed() {
    let mut app = PlayerApp::new();
    assert!(app.handle_input(true, true).is_empty());
    assert!(app.handle_input(false, false).is_empty());
    assert!(app.is_playing);
    assert_eq!(told(&app.handle_input(false, true)), "[SetPaused(true), KeepAwake(false)]");
    assert!(!app.is_playing);
}

#[test]
fn files_are_added_and_started_only_when_idle() {
    let mut app = PlayerApp::new();
    assert!(app.add_media_files(names(&["a"])).is_empty());
    app.is_playing = false;
    app.has_picture = true;
    assert!(app.add_media_files(names(&["b"])).is_empty());
    app.has_picture = false;
    assert_eq!(told(&app.add_media_files(names(&["c", "d"]))), starting("a"));
    assert_eq!(app.playlist, names(&["a", "b", "c", "d"]));

    let mut empty = PlayerApp::new();
    empty.is_playing = false;
    assert!(empty.add_media_files(Vec::new()).is_empty());
    assert!(!empty.is_playing);
}

#[test]
fn last_clicked_track_is_started() {
    let mut app = with_tracks(&["a", "b", "c"]);
    assert!(app.choose_track(&[false, false, false]).is_empty());
    assert_eq!(told(&app.choose_track(&[true, true, false])), starting("b"));
    assert!(app.is_current(1));
    assert_eq!(app.track_tint(1), Tint::Green);
    assert_eq!(app.track_tint(0), Tint::LightGray);
}

#[test]
fn next_and_previous_go_round() {
    let mut app = with_tracks(&["a", "b", "c"]);
    assert_eq!(told(&app.play_previous()), starting("c"));
    assert_eq!(told(&app.play_next()), starting("a"));
    assert_eq!(told(&app.play_next()), starting("b"));
    assert_eq!(told(&app.play_previous()), starting("a"));
    for _ in 0..3 {
        app.play_next();
    }
    assert_eq!(app.current_index, 0);
}

#[test]
fn slider_is_held_while_dragged() {
    let mut app = PlayerApp::new();
    app.current_time = seconds(5.0);
    let held = SliderMove { started: true, dragged: true, stopped: false, time: seconds(20.0) };
    assert!(app.move_slider(held).is_empty());
    app.current_time = seconds(6.0);
    assert_eq!(app.display_time(), seconds(20.0));
    let still = SliderMove { started: false, dragged: false, stopped: false, time: seconds(20.0) };
    assert!(app.move_slider(still).is_empty());
    assert!(app.is_dragging);
    let dropped = SliderMove { started: false, dragged: false, stopped: true, time: seconds(21.0) };
    let commands = app.move_slider(dropped);
    assert!(matches!(commands[..], [Command::Seek(time)] if time == seconds(21.0)));
    assert_eq!(app.display_time(), seconds(6.0));
}

#[test]
fn visual_is_chosen_by_number() {
    let mut app = PlayerApp::new();
    assert_eq!(app.visual_label(), "Кроляча нора");
    assert_eq!(told(&app.choose_visual(2)), "[SetVisual(2)]");
    assert_eq!(app.visual_label(), "Еквалайзер");
    assert_eq!(told(&app.choose_visual(0)), "[SetVisual(0)]");
    assert_eq!(app.visual_label(), "Вимкнено");
    assert_eq!(PlayerApp::visual_label_of(9), "Невідомо");
}

#[test]
fn list_is_shown_and_put_away() {
    let mut app = PlayerApp::new();
    assert_eq!(app.playlist_label(), "📁 Приховати плейлист");
    app.toggle_playlist();
    assert!(app.is_hide_playlist);
    assert_eq!(app.playlist_label(), "📂 Показати плейлист");
    app.toggle_playlist();
    assert!(!app.is_hide_playlist);
}

#[test]
fn volume_is_passed_on() {
    let mut app = PlayerApp::new();
    let loud = Single { bits: 3.0f32.to_bits() };
    let commands = app.set_volume(loud, true);
    assert!(matches!(commands[..], [Command::SetVolume(volume)] if volume == loud));
    assert_eq!(app.volume, loud);
}

#[test]
fn time_follows_every_frame_and_picture_the_last_one() {
    let mut app = with_tracks(&["a"]);
    let frames = vec![
        picture(1, 1.0),
        picture(2, 2.0),
        VideoFrame::time_only(seconds(3.0), seconds(64.0)),
    ];
    let update = app.process_video_frames(frames, false);
    assert!(update.commands.is_empty());
    assert_eq!(app.timecode(), "00:03 / 01:04");
    assert!(app.has_picture);
    let image = update.picture.expect("a picture");
    assert_eq!(image.size, [1, 1]);
    assert_eq!(image.pixels[0].to_array(), [2, 2, 2, 255]);

    // A cover stays while only the time moves on.
    let update = app.process_video_frames(
        vec![VideoFrame::time_only(seconds(4.0), seconds(64.0))],
        false,
    );
    assert!(update.picture.is_none());
    assert!(app.has_picture);
    assert_eq!(app.current_time, seconds(4.0));
}

#[test]
fn no_frames_change_nothing() {
    let mut app = with_tracks(&["a"]);
    app.current_time = seconds(8.0);
    let update = app.process_video_frames(Vec::new(), false);
    assert!(update.commands.is_empty() && update.picture.is_none());
    assert_eq!(app.current_time, seconds(8.0));
    assert!(!app.has_picture);
}

#[test]
fn stopped_window_takes_no_frames() {
    let mut app = with_tracks(&["a"]);
    app.is_playing = false;
    let update = app.process_video_frames(vec![picture(1, 9.0)], true);
    assert!(update.commands.is_empty() && update.picture.is_none());
    assert_eq!(app.current_time, seconds(0.0));
}

#[test]
fn next_track_follows_by_itself() {
    let mut app = with_tracks(&["a", "b"]);
    app.current_time = seconds(60.0);
    let update = app.process_video_frames(vec![picture(1, 61.0)], true);
    assert_eq!(told(&update.commands), starting("b"));
    assert!(update.picture.is_none());
    assert_eq!(app.current_time, seconds(60.0));
    let update = app.process_video_frames(Vec::new(), true);
    assert_eq!(
        told(&update.commands),
        "[ClearPicture, KeepAwake(true), SetPaused(false), StartDecoder(\"a\"), ClearPicture]"
    );
    assert_eq!(app.current_index, 0);
    assert_eq!(app.current_time, seconds(0.0));
}

#[test]
fn empty_list_stops_playing_at_the_end() {
    let mut app = PlayerApp::new();
    let update = app.process_video_frames(Vec::new(), true);
    assert_eq!(told(&update.commands), "[ClearPicture, ReportMissingTrack(0)]");
    assert!(!app.is_playing);
}

#[test]
fn shortened_list_reports_a_missing_track() {
    let mut app = PlayerApp::new();
    app.playlist = vec![String::from("a"), String::from("b"), String::from("c")];
    app.play_track(2);
    app.playlist.truncate(1);
    let commands = app.play_previous();
    assert_eq!(commands.len(), 1);
    assert!(matches!(commands[0], Command::ReportMissingTrack(1)));
    assert!(!app.is_playing);
    assert_eq!(app.current_index, 2);
    app.play_next();
    assert_eq!(app.current_index, 0);
    assert!(app.is_playing);
}

#[test]
fn emptied_list_reports_a_missing_previous_track() {
    let mut app = with_tracks(&["a", "b"]);
    app.play_track(1);
    app.playlist.clear();
    assert_eq!(told(&app.play_previous()), "[ReportMissingTrack(0)]");
    assert!(!app.is_playing);
    assert_eq!(app.current_index, 1);
}

#[test]
fn going_back_through_the_whole_list_returns() {
    let mut app = with_tracks(&["a", "b", "c"]);
    app.play_track(1);
    let mut passed = Vec::new();
    for _ in 0..3 {
        app.play_previous();
        passed.push(app.current_index);
    }
    assert_eq!(passed, vec![0, 2, 1]);
}

#[test]
fn volume_cell_keeps_up_with_the_window() {
    let mut app = with_tracks(&["a", "b"]);
    let mut commands = app.startup();
    commands.extend(app.set_volume(Single { bits: 2.5f32.to_bits() }, true));
    commands.extend(app.play_next());
    commands.extend(app.toggle_play());
    commands.extend(app.choose_visual(2));
    let mut cell = Single { bits: 7 };
    for command in &commands {
        if let Command::SetVolume(volume) = command {
            cell = *volume;
        }
    }
    assert_eq!(cell, app.volume);
    assert_eq!(f32::from_bits(cell.bits), 2.5);
    assert!(!cell.is_greater(Single { bits: HIGHEST_VOLUME }));
    assert_eq!(HIGHEST_VOLUME, 3.0f32.to_bits());
    assert_eq!(LOWEST_VOLUME, 0.0f32.to_bits());
}

#[test]
fn slider_that_was_not_moved_changes_nothing() {
    let mut app = PlayerApp::new();
    assert!(app.set_volume(Single { bits: 0.5f32.to_bits() }, false).is_empty());
    assert_eq!(f32::from_bits(app.volume.bits), 0.5);
    for beyond in [-0.1f32, 3.1, f32::INFINITY, f32::NAN] {
        assert!(app.set_volume(Single { bits: beyond.to_bits() }, true).is_empty());
        assert_eq!(f32::from_bits(app.volume.bits), 0.5);
    }
    for edge in [0.0f32, 3.0] {
        let volume = Single { bits: edge.to_bits() };
        assert_eq!(app.set_volume(volume, true).len(), 1);
        assert_eq!(app.volume, volume);
    }
}

#[test]
fn only_a_playing_window_takes_frames() {
    let mut app = with_tracks(&["a"]);
    assert!(app.takes_frames());
    app.toggle_play();
    assert!(!app.takes_frames());
}
