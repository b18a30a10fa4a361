use media_player::ieee::Double;
use media_player::video_frame::{copy_rgb_frame, VideoFrame};

fn seconds(x: f64) -> Double {
    Double { bits: x.to_bits() }
}

#[test]
fn padding_between_rows_is_left_out() {
    let src: Vec<u8> = (0u8..18).collect();
    let frame = copy_rgb_frame(&src, 10, 2, 2, seconds(1.5), seconds(60.0));
    assert_eq!(frame.width, 2);
    assert_eq!(frame.height, 2);
    assert_eq!(frame.rgb_data, vec![0, 1, 2, 3, 4, 5, 10, 11, 12, 13, 14, 15]);
    assert_eq!(frame.pts, seconds(1.5));
    assert_eq!(frame.duration, seconds(60.0));
    assert!(frame.is_picture());
}

#[test]
fn picture_without_rows_is_empty() {
    let frame = copy_rgb_frame(&[], 10, 2, 0, seconds(0.0), seconds(0.0));
    assert!(frame.rgb_data.is_empty());
    assert!(!frame.is_picture());
}

#[test]
fn frame_that_only_tells_the_time() {
    let frame = VideoFrame::time_only(seconds(3.0), seconds(9.0));
    assert_eq!(frame.width, 0);
    assert_eq!(frame.height, 0);
    assert!(frame.rgb_data.is_empty());
    assert_eq!(frame.pts, seconds(3.0));
    assert_eq!(frame.duration, seconds(9.0));
    assert!(!frame.is_picture());
}

#[test]
fn image_holds_the_colours_of_the_frame() {
    let frame = VideoFrame {
        width: 2,
        height: 1,
        rgb_data: vec![1, 2, 3, 250, 251, 252],
        pts: seconds(0.0),
        duration: seconds(0.0),
    };
    let image = frame.to_image();
    assert_eq!(image.size, [2, 1]);
    assert_eq!(image.pixels.len(), 2);
    assert_eq!(image.pixels[0].to_array(), [1, 2, 3, 255]);
    assert_eq!(image.pixels[1].to_array(), [250, 251, 252, 255]);
}
