use media_player::ieee::Single;
use media_player::visualizers::{paint_bars, EqualizerVisualizer, PlasmaVisualizer, FULL_LEVEL};

fn single(x: f32) -> Single {
    Single { bits: x.to_bits() }
}

fn number(x: Single) -> f32 {
    f32::from_bits(x.bits)
}

#[test]
fn bass_rises_at_once_and_falls_slowly() {
    let mut plasma = PlasmaVisualizer::new();
    assert_eq!(number(plasma.smoothed_bass), 0.0);
    let release = |smoothed: Single, rms: Single| single(number(smoothed) * 0.5 + number(rms) * 0.25);
    plasma.analyze_audio(single(0.8), release);
    assert_eq!(number(plasma.smoothed_bass), 0.8);
    plasma.analyze_audio(single(0.4), release);
    assert_eq!(number(plasma.smoothed_bass), 0.8 * 0.5 + 0.4 * 0.25);
}

#[test]
fn plasma_pixels_lie_row_by_row() {
    let plasma = PlasmaVisualizer { smoothed_bass: single(1.0) };
    let picture = plasma.render(3, 2, |bass, x, y| {
        assert_eq!(number(bass), 1.0);
        (x as u8, y as u8, 9)
    });
    assert_eq!(picture, vec![0, 0, 9, 1, 0, 9, 2, 0, 9, 0, 1, 9, 1, 1, 9, 2, 1, 9]);
}

#[test]
fn bars_settle_towards_their_targets() {
    let mut equalizer = EqualizerVisualizer::new();
    equalizer.bars[1] = single(0.9);
    let attack = |height: Single, goal: Single| single(number(height) * 0.5 + number(goal) * 0.5);
    let release = |height: Single| single(number(height) * 0.5);
    equalizer.analyze_audio(0, |_, _| single(1.0), attack, release);
    assert_eq!(number(equalizer.bars[0]), 0.0);
    equalizer.analyze_audio(
        2000,
        |bar, window| {
            assert_eq!(window, 512);
            single(if bar < 2 { 0.5 } else { 0.0 })
        },
        attack,
        release,
    );
    assert_eq!(number(equalizer.bars[0]), 0.25);
    assert_eq!(number(equalizer.bars[1]), 0.45);
    assert_eq!(number(equalizer.bars[2]), 0.0);
    equalizer.analyze_audio(
        7,
        |_, window| {
            assert_eq!(window, 7);
            single(0.0)
        },
        attack,
        release,
    );
    assert_eq!(number(equalizer.bars[0]), 0.125);
}

#[test]
fn bars_stand_on_the_lower_edge() {
    let (width, height) = (32 * 4 + 3, 5);
    let mut heights = vec![0usize; 32];
    heights[0] = 2;
    heights[31] = 99;
    let colors: Vec<(u8, u8)> = (0..height).map(|y| (100 + y as u8, 200 + y as u8)).collect();
    let picture = paint_bars(&heights, &colors, width, height);
    assert_eq!(picture.len(), width * height * 3);
    for y in 0..height {
        for x in 0..width {
            let at = (y * width + x) * 3;
            let first = x >= 2 && x < 4 && y >= 3;
            let last = x >= 31 * 4 + 2 && x < 32 * 4;
            let expected = if first || last {
                [100 + y as u8, 200 + y as u8, 30]
            } else {
                [15, 15, 15]
            };
            assert_eq!(&picture[at..at + 3], &expected, "{} {}", x, y);
        }
    }
}

#[test]
fn narrow_pictures_have_no_bars() {
    for width in [0usize, 1, 31, 32, 64, 95] {
        let picture = paint_bars(&vec![9; 32], &vec![(1, 2); 2], width, 2);
        assert_eq!(picture, vec![15; width * 2 * 3]);
    }
}

#[test]
fn equalizer_asks_for_heights_and_colours() {
    let mut equalizer = EqualizerVisualizer::new();
    equalizer.bars[3] = single(0.5);
    let picture = equalizer.render(
        32 * 3,
        4,
        |part, height| (number(part) * height as f32) as usize,
        |y, height| (y as u8, height as u8),
    );
    for y in 0..4 {
        for x in 0..96 {
            let at = (y * 96 + x) * 3;
            let expected = if x == 11 && y >= 2 { [y as u8, 4, 30] } else { [15, 15, 15] };
            assert_eq!(&picture[at..at + 3], &expected, "{} {}", x, y);
        }
    }
}

#[test]
fn bass_stays_a_level() {
    let mut plasma = PlasmaVisualizer::new();
    let release = |smoothed: Single, rms: Single| single(number(smoothed) * 0.85 + number(rms) * 0.15);
    for rms in [1.0, 0.0, 0.3, 0.9, 1.0, 1.0] {
        plasma.analyze_audio(single(rms), release);
        assert!(!plasma.smoothed_bass.is_greater(Single { bits: FULL_LEVEL }));
        assert!(number(plasma.smoothed_bass) >= 0.0);
    }
    assert_eq!(FULL_LEVEL, 1.0f32.to_bits());
}

#[test]
fn same_bars_give_the_same_picture() {
    let rows = |part: Single, height: usize| (number(part) * height as f32) as usize;
    let color = |y: usize, _height: usize| (y as u8, 7);
    let mut equalizer = EqualizerVisualizer::new();
    assert_eq!(equalizer.render(100, 3, rows, color), vec![15; 100 * 3 * 3]);
    equalizer.bars[5] = single(1.0);
    let other = EqualizerVisualizer { bars: equalizer.bars };
    let picture = equalizer.render(100, 3, rows, color);
    assert_eq!(picture, other.render(100, 3, rows, color));
    assert_ne!(picture, vec![15; 100 * 3 * 3]);
}

#[test]
fn silent_bars_take_no_rows() {
    let mut equalizer = EqualizerVisualizer::new();
    equalizer.bars[1] = single(-0.5);
    equalizer.bars[2] = single(f32::NAN);
    let picture = equalizer.render(96, 2, |_, _| panic!("a silent bar was measured"), |_, _| (1, 2));
    assert_eq!(picture, vec![15; 96 * 2 * 3]);
}

#[test]
fn bars_stay_levels() {
    let mut equalizer = EqualizerVisualizer::new();
    for goal in [1.0, 0.0, 1.0, 1.0, 0.2] {
        equalizer.analyze_audio(
            512,
            |_, _| single(goal),
            |height, goal| single(number(height) * 0.4 + number(goal) * 0.6),
            |height| single(number(height) * 0.88),
        );
        for bar in equalizer.bars {
            assert!(bar.is_within(single(0.0), Single { bits: FULL_LEVEL }));
        }
    }
}
