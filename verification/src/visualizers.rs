//! Pictures that accompany sound.
//!
//! What a sample, a level or a pixel comes to in numbers is computed by functions that the caller
//! hands over; when they are asked, what follows from their answers and where each pixel goes is
//! decided here.
use crate::ieee::Single;
use vstd::prelude::*;

verus! {

/// How many bars the equalizer has.
pub const BAR_COUNT: usize = 32;

/// The largest number of samples that the equalizer looks at.
pub const WINDOW_SIZE: usize = 512;

/// The free columns at the left of each bar.
pub const BAR_GAP: usize = 2;

/// Each colour of the equalizer's background.
pub const BACKGROUND: u8 = 15;

/// The blue of a bar.
pub const BAR_BLUE: u8 = 30;

/// The bit pattern of silence.
pub const SILENCE: u32 = 0;

/// The bit pattern of the highest level.
pub const FULL_LEVEL: u32 = 0x3f80_0000;

/// Red, green and blue of the pixel in column `x` of row `y`.
pub open spec fn pixel_at(rgb: Seq<u8>, width: int, x: int, y: int) -> (u8, u8, u8) {
    let at = (y * width + x) * 3;
    (rgb[at], rgb[at + 1], rgb[at + 2])
}

/// Two pixels of a picture have the same place only if they are the same.
proof fn lemma_place(width: int, height: int, x: int, y: int, u: int, v: int)
    requires
        0 <= x < width,
        0 <= y < height,
        0 <= u < width,
        0 <= v < height,
    ensures
        0 <= y * width + x < width * height,
        y * width + x == v * width + u ==> x == u && y == v,
{
    assert(0 <= y * width + x < width * height) by (nonlinear_arith)
        requires
            0 <= x < width,
            0 <= y < height,
    ;
    if y * width + x == v * width + u {
        assert(y == v) by (nonlinear_arith)
            requires
                0 <= x < width,
                0 <= u < width,
                y * width + x == v * width + u,
        ;
    }
}

/// A tunnel that pulses with the bass.
pub struct PlasmaVisualizer {
    pub smoothed_bass: Single,
}

/// Whether the smoothed bass goes from `before` to `after` when a bass of `bass_rms` is heard: a
/// stronger one is followed at once, and otherwise `release` tells how far it falls.
pub open spec fn follows_bass<R: Fn(Single, Single) -> Single>(
    release: R,
    bass_rms: Single,
    before: Single,
    after: Single,
) -> bool {
    if bass_rms.exceeds(before) {
        after == bass_rms
    } else {
        call_ensures(release, (before, bass_rms), after)
    }
}

/// Whether a strength lies between silence and the highest level.
pub open spec fn is_level(strength: Single) -> bool {
    strength.within(Single { bits: SILENCE }, Single { bits: FULL_LEVEL })
}

/// Silence is a level.
proof fn lemma_silence_is_a_level()
    ensures
        is_level(Single { bits: SILENCE }),
{
    (Single { bits: SILENCE }).lemma_value_order(Single { bits: FULL_LEVEL });
    (Single { bits: FULL_LEVEL }).lemma_value_order(Single { bits: SILENCE });
}

/// The smoothed bass stays between silence and the highest level if what is heard does, and what
/// it falls to does.
pub proof fn law_bass_stays_a_level_if_its_fall_does<R: Fn(Single, Single) -> Single>(
    release: R,
    bass_rms: Single,
    before: Single,
    after: Single,
)
    requires
        is_level(bass_rms),
        is_level(before),
        forall|fallen: Single| #[trigger]
            call_ensures(release, (before, bass_rms), fallen) ==> is_level(fallen),
        follows_bass(release, bass_rms, before, after),
    ensures
        is_level(after),
{
}

impl PlasmaVisualizer {
    /// Before any sound.
    pub fn new() -> (plasma: PlasmaVisualizer)
        ensures
            plasma.smoothed_bass == (Single { bits: SILENCE }),
            is_level(plasma.smoothed_bass),
    {
        proof {
            lemma_silence_is_a_level();
        }
        PlasmaVisualizer { smoothed_bass: Single { bits: SILENCE } }
    }

    /// Takes the strength of the bass in the last piece of sound. A stronger bass is followed at
    /// once; otherwise `release`, of the smoothed bass and the new one, tells how far it falls.
    pub fn analyze_audio<R: Fn(Single, Single) -> Single>(&mut self, bass_rms: Single, release: R)
        requires
            call_requires(release, (old(self).smoothed_bass, bass_rms)),
        ensures
            follows_bass(
                release,
                bass_rms,
                old(self).smoothed_bass,
                final(self).smoothed_bass,
            ),
    {
        if bass_rms.is_greater(self.smoothed_bass) {
            self.smoothed_bass = bass_rms;
        } else {
            self.smoothed_bass = release(self.smoothed_bass, bass_rms);
        }
    }

    /// Draws the picture: `pixel`, of the smoothed bass, the column and the row, gives the colour
    /// of each pixel. The pixels lie row by row from the top.
    pub fn render<P: Fn(Single, usize, usize) -> (u8, u8, u8)>(
        &self,
        width: usize,
        height: usize,
        pixel: P,
    ) -> (rgb_data: Vec<u8>)
        requires
            width * height * 3 <= isize::MAX,
            forall|x: usize, y: usize|
                x < width && y < height ==> call_requires(pixel, (self.smoothed_bass, x, y)),
        ensures
            rgb_data@.len() == width * height * 3,
            forall|x: usize, y: usize|
                x < width && y < height ==> call_ensures(
                    pixel,
                    (self.smoothed_bass, x, y),
                    #[trigger] pixel_at(rgb_data@, width as int, x as int, y as int),
                ),
    {
        proof {
            assert(0 <= width * height) by (nonlinear_arith);
        }
        let mut rgb_data: Vec<u8> = Vec::with_capacity(width * height * 3);
        assert(0 * width == 0);
        for y in 0..height
            invariant
                width * height * 3 <= isize::MAX,
                forall|x: usize, y: usize|
                    x < width && y < height ==> call_requires(pixel, (self.smoothed_bass, x, y)),
                rgb_data@.len() == (y * width) * 3,
                forall|u: usize, v: usize|
                    u < width && v < y ==> call_ensures(
                        pixel,
                        (self.smoothed_bass, u, v),
                        #[trigger] pixel_at(rgb_data@, width as int, u as int, v as int),
                    ),
        {
            for x in 0..width
                invariant
                    y < height,
                    width * height * 3 <= isize::MAX,
                    forall|x: usize, y: usize|
                        x < width && y < height ==> call_requires(
                            pixel,
                            (self.smoothed_bass, x, y),
                        ),
                    rgb_data@.len() == (y * width + x) * 3,
                    forall|u: usize, v: usize|
                        u < width && (v < y || v == y && u < x) ==> call_ensures(
                            pixel,
                            (self.smoothed_bass, u, v),
                            #[trigger] pixel_at(rgb_data@, width as int, u as int, v as int),
                        ),
            {
                let ghost before = rgb_data@;
                let (r, g, b) = pixel(self.smoothed_bass, x, y);
                rgb_data.push(r);
                rgb_data.push(g);
                rgb_data.push(b);
                proof {
                    assert forall|u: usize, v: usize|
                        u < width && (v < y || v == y && u < x + 1) implies call_ensures(
                        pixel,
                        (self.smoothed_bass, u, v),
                        #[trigger] pixel_at(rgb_data@, width as int, u as int, v as int),
                    ) by {
                        assert(v * width + u <= y * width + x) by (nonlinear_arith)
                            requires
                                u < width,
                                v < y || v == y && u <= x,
                                0 <= x,
                        ;
                        assert(v * width + u >= 0) by (nonlinear_arith);
                        if v < y || u < x {
                            lemma_place(
                                width as int,
                                height as int,
                                u as int,
                                v as int,
                                x as int,
                                y as int,
                            );
                            assert(pixel_at(rgb_data@, width as int, u as int, v as int)
                                == pixel_at(before, width as int, u as int, v as int));
                        } else {
                            assert(pixel_at(rgb_data@, width as int, u as int, v as int) == (
                                r,
                                g,
                                b,
                            ));
                        }
                    }
                }
            }
            assert((y + 1) * width == y * width + width) by (nonlinear_arith);
        }
        assert(height * width == width * height) by (nonlinear_arith);
        rgb_data
    }
}

/// The bar that stands in column `x`, if any: the columns are shared out evenly, and the first few
/// of each share stay free.
pub open spec fn bar_in_column(width: int, x: int) -> Option<int> {
    let share = width / BAR_COUNT as int;
    if share > 0 && x / share < BAR_COUNT && x % share >= BAR_GAP {
        Some(x / share)
    } else {
        None
    }
}

/// How many rows a bar takes: no more than there are.
pub open spec fn rows_of(bar_height: int, height: int) -> int {
    if bar_height > height {
        height
    } else {
        bar_height
    }
}

/// Whether the pixel in column `x` of row `y` belongs to a bar.
pub open spec fn lit(heights: Seq<usize>, width: int, height: int, x: int, y: int) -> bool {
    match bar_in_column(width, x) {
        Some(bar) => y >= height - rows_of(heights[bar] as int, height),
        None => false,
    }
}

/// The colour of the pixel in column `x` of row `y`, where each row has its red and green.
pub open spec fn bar_pixel(
    heights: Seq<usize>,
    row_colors: Seq<(u8, u8)>,
    width: int,
    height: int,
    x: int,
    y: int,
) -> (u8, u8, u8) {
    if lit(heights, width, height, x, y) {
        (row_colors[y].0, row_colors[y].1, BAR_BLUE)
    } else {
        (BACKGROUND, BACKGROUND, BACKGROUND)
    }
}

/// Whether `rgb` is the picture of bars of these heights.
pub open spec fn painted(
    rgb: Seq<u8>,
    heights: Seq<usize>,
    row_colors: Seq<(u8, u8)>,
    width: int,
    height: int,
) -> bool {
    &&& rgb.len() == width * height * 3
    &&& forall|x: int, y: int|
        0 <= x < width && 0 <= y < height ==> #[trigger] pixel_at(rgb, width, x, y) == bar_pixel(
            heights,
            row_colors,
            width,
            height,
            x,
            y,
        )
}

/// Bar `bar` takes the columns from the gap at the beginning of its share to the end of it, all of
/// them within the picture, and no other bar takes any of them.
pub proof fn law_columns_of_a_bar(width: int, x: int, bar: int)
    requires
        0 <= x < width,
        0 <= bar < BAR_COUNT,
    ensures
        ({
            let share = width / BAR_COUNT as int;
            let first = bar * share + BAR_GAP;
            let end = if first + share - BAR_GAP < width {
                first + share - BAR_GAP
            } else {
                width
            };
            bar_in_column(width, x) == Some(bar) <==> first <= x < end
        }),
{
    let share = width / BAR_COUNT as int;
    assert((bar + 1) * share <= width) by (nonlinear_arith)
        requires
            share == width / 32,
            0 <= bar < 32,
            width >= 0,
    ;
    assert((bar + 1) * share == bar * share + share) by (nonlinear_arith);
    if share > 0 {
        let quotient = x / share;
        let rest = x % share;
        vstd::arithmetic::div_mod::lemma_fundamental_div_mod(x, share);
        assert(x == quotient * share + rest) by (nonlinear_arith)
            requires
                x == share * quotient + rest,
        ;
        if bar * share <= x < bar * share + share {
            assert(quotient == bar) by (nonlinear_arith)
                requires
                    bar * share <= x < bar * share + share,
                    x == quotient * share + rest,
                    0 <= rest < share,
            ;
        }
    }
}

/// A bar stands on the lower edge of the picture: below a lit pixel every pixel is lit.
pub proof fn law_bars_stand(heights: Seq<usize>, width: int, height: int, x: int, y: int, lower: int)
    requires
        y <= lower < height,
        lit(heights, width, height, x, y),
    ensures
        lit(heights, width, height, x, lower),
{
}

/// Bars without height leave the background alone.
pub proof fn law_silence_is_dark(
    heights: Seq<usize>,
    row_colors: Seq<(u8, u8)>,
    width: int,
    height: int,
    x: int,
    y: int,
)
    requires
        heights.len() == BAR_COUNT,
        forall|i: int| 0 <= i < BAR_COUNT ==> heights[i] == 0,
        0 <= x < width,
        0 <= y < height,
    ensures
        bar_pixel(heights, row_colors, width, height, x, y) == (
            BACKGROUND,
            BACKGROUND,
            BACKGROUND,
        ),
{
    let share = width / BAR_COUNT as int;
    if share > 0 {
        assert(x / share >= 0) by (nonlinear_arith)
            requires
                x >= 0,
                share > 0,
        ;
    }
}

/// There is one picture of given bars: their heights, the colours of the rows and the size settle
/// every byte of it.
pub proof fn law_bars_settle_the_picture(
    a: Seq<u8>,
    b: Seq<u8>,
    heights: Seq<usize>,
    row_colors: Seq<(u8, u8)>,
    width: int,
    height: int,
)
    requires
        0 <= width,
        0 <= height,
        painted(a, heights, row_colors, width, height),
        painted(b, heights, row_colors, width, height),
    ensures
        a == b,
{
    assert forall|i: int| 0 <= i < a.len() implies a[i] == b[i] by {
        let (x, y) = lemma_byte_has_pixel(width, height, i);
        assert(pixel_at(a, width, x, y) == pixel_at(b, width, x, y));
    }
    assert(a =~= b);
}

/// Bars without height give a picture of background alone.
pub proof fn law_silent_picture_is_background(
    rgb: Seq<u8>,
    heights: Seq<usize>,
    row_colors: Seq<(u8, u8)>,
    width: int,
    height: int,
)
    requires
        0 <= width,
        0 <= height,
        heights.len() == BAR_COUNT,
        forall|i: int| 0 <= i < BAR_COUNT ==> heights[i] == 0,
        painted(rgb, heights, row_colors, width, height),
    ensures
        rgb.len() == width * height * 3,
        forall|i: int| 0 <= i < rgb.len() ==> rgb[i] == BACKGROUND,
{
    assert forall|i: int| 0 <= i < rgb.len() implies rgb[i] == BACKGROUND by {
        let (x, y) = lemma_byte_has_pixel(width, height, i);
        law_silence_is_dark(heights, row_colors, width, height, x, y);
        assert(pixel_at(rgb, width, x, y) == (BACKGROUND, BACKGROUND, BACKGROUND));
    }
}

/// Every byte of a picture belongs to a pixel.
proof fn lemma_byte_has_pixel(width: int, height: int, i: int) -> (place: (int, int))
    requires
        0 <= width,
        0 <= height,
        0 <= i < width * height * 3,
    ensures
        0 <= place.0 < width,
        0 <= place.1 < height,
        i / 3 == place.1 * width + place.0,
{
    let n = i / 3;
    assert(0 <= n < width * height);
    assert(width > 0) by (nonlinear_arith)
        requires
            0 <= width,
            0 < width * height,
    ;
    vstd::arithmetic::div_mod::lemma_fundamental_div_mod(n, width);
    let x = n % width;
    let y = n / width;
    assert(y * width == width * y) by (nonlinear_arith);
    assert(0 <= y < height) by (nonlinear_arith)
        requires
            0 <= x < width,
            n == width * y + x,
            0 <= n < width * height,
    ;
    (x, y)
}

/// Draws the bars: bar `i` is `heights[i]` rows high, and row `y` of every bar has the red and
/// green `row_colors[y]`.
pub fn paint_bars(
    heights: &Vec<usize>,
    row_colors: &Vec<(u8, u8)>,
    width: usize,
    height: usize,
) -> (rgb_data: Vec<u8>)
    requires
        heights@.len() == BAR_COUNT,
        row_colors@.len() == height,
        width * height * 3 <= isize::MAX,
    ensures
        painted(rgb_data@, heights@, row_colors@, width as int, height as int),
{
    let ghost w = width as int;
    let ghost h = height as int;
    proof {
        assert(0 <= width * height) by (nonlinear_arith);
    }
    let mut rgb_data: Vec<u8> = vec![BACKGROUND; width * height * 3];
    let bar_width: usize = width / BAR_COUNT;
    assert forall|x: int, y: int| 0 <= x < w && 0 <= y < h implies #[trigger] pixel_at(
        rgb_data@,
        w,
        x,
        y,
    ) == (BACKGROUND, BACKGROUND, BACKGROUND) by {
        lemma_place(w, h, x, y, x, y);
    }
    assert forall|x: int| 0 <= x < w implies (#[trigger] bar_in_column(w, x) matches Some(
        bar,
    ) ==> bar >= 0) by {
        if bar_width > 0 {
            assert(x / bar_width as int >= 0) by (nonlinear_arith)
                requires
                    x >= 0,
                    bar_width > 0,
            ;
        }
    }
    for i in 0..BAR_COUNT
        invariant
            w == width,
            h == height,
            heights@.len() == BAR_COUNT,
            row_colors@.len() == height,
            bar_width == width / BAR_COUNT,
            w * h * 3 <= isize::MAX,
            rgb_data@.len() == w * h * 3,
            forall|x: int|
                0 <= x < w ==> (#[trigger] bar_in_column(w, x) matches Some(bar) ==> bar >= 0),
            forall|x: int, y: int|
                0 <= x < w && 0 <= y < h ==> #[trigger] pixel_at(rgb_data@, w, x, y) == if (
                bar_in_column(w, x) matches Some(bar) && bar < i) {
                    bar_pixel(heights@, row_colors@, w, h, x, y)
                } else {
                    (BACKGROUND, BACKGROUND, BACKGROUND)
                },
    {
        let bar_h: usize = if heights[i] > height {
            height
        } else {
            heights[i]
        };
        proof {
            assert((i + 1) * bar_width <= width) by (nonlinear_arith)
                requires
                    bar_width == width / 32,
                    0 <= i < 32,
            ;
            assert((i + 1) * bar_width == i * bar_width + bar_width) by (nonlinear_arith);
            assert(i * bar_width >= 0) by (nonlinear_arith);
            assert((i + 1) * bar_width <= 32 * bar_width) by (nonlinear_arith)
                requires
                    0 <= i < 32,
            ;
            assert(usize::MAX == 0xffff_ffff || usize::MAX == 0xffff_ffff_ffff_ffff);
        }
        let start_x: usize = i * bar_width + BAR_GAP;
        let end: usize = start_x + bar_width - BAR_GAP;
        let end_x: usize = if end < width {
            end
        } else {
            width
        };
        let top: usize = height - bar_h;
        for y in top..height
            invariant
                w == width,
                h == height,
                i < BAR_COUNT,
                heights@.len() == BAR_COUNT,
                row_colors@.len() == height,
                bar_width == width / BAR_COUNT,
                start_x == i * bar_width + BAR_GAP,
                end_x == i * bar_width + bar_width,
                end_x <= width,
                top == h - rows_of(heights@[i as int] as int, h),
                w * h * 3 <= isize::MAX,
                rgb_data@.len() == w * h * 3,
                forall|x: int, v: int|
                    0 <= x < w && 0 <= v < h ==> #[trigger] pixel_at(rgb_data@, w, x, v) == if (
                    bar_in_column(w, x) matches Some(bar) && (bar < i || bar == i && v < y)) {
                        bar_pixel(heights@, row_colors@, w, h, x, v)
                    } else {
                        (BACKGROUND, BACKGROUND, BACKGROUND)
                    },
        {
            let (r, g) = row_colors[y];
            let mut x: usize = start_x;
            assert forall|u: int|
                0 <= u < w && #[trigger] bar_in_column(w, u) == Some(i as int) implies start_x <= u
                < end_x by {
                law_columns_of_a_bar(w, u, i as int);
            }
            while x < end_x
                invariant
                    w == width,
                    h == height,
                    i < BAR_COUNT,
                    heights@.len() == BAR_COUNT,
                    top <= y < height,
                    (r, g) == row_colors@[y as int],
                    row_colors@.len() == height,
                    bar_width == width / BAR_COUNT,
                    start_x == i * bar_width + BAR_GAP,
                    end_x == i * bar_width + bar_width,
                    end_x <= width,
                    start_x <= x,
                    top == h - rows_of(heights@[i as int] as int, h),
                    w * h * 3 <= isize::MAX,
                    rgb_data@.len() == w * h * 3,
                    forall|u: int|
                        0 <= u < w && #[trigger] bar_in_column(w, u) == Some(i as int) ==> start_x
                            <= u < end_x,
                    forall|u: int, v: int|
                        0 <= u < w && 0 <= v < h ==> #[trigger] pixel_at(rgb_data@, w, u, v) == if (
                        bar_in_column(w, u) matches Some(bar) && (bar < i || bar == i && (v < y
                            || v == y && u < x))) {
                            bar_pixel(heights@, row_colors@, w, h, u, v)
                        } else {
                            (BACKGROUND, BACKGROUND, BACKGROUND)
                        },
                decreases end_x - x,
            {
                let ghost before = rgb_data@;
                proof {
                    lemma_place(w, h, x as int, y as int, x as int, y as int);
                    assert(y * width >= 0) by (nonlinear_arith);
                    law_columns_of_a_bar(w, x as int, i as int);
                }
                let idx: usize = (y * width + x) * 3;
                rgb_data[idx] = r;
                rgb_data[idx + 1] = g;
                rgb_data[idx + 2] = BAR_BLUE;
                proof {
                    assert forall|u: int, v: int| 0 <= u < w && 0 <= v < h implies
                        #[trigger] pixel_at(rgb_data@, w, u, v) == (if u == x && v == y {
                        (r, g, BAR_BLUE)
                    } else {
                        pixel_at(before, w, u, v)
                    }) by {
                        lemma_place(w, h, u, v, x as int, y as int);
                    }
                }
                x = x + 1;
            }
        }
    }
    assert forall|x: int, y: int| 0 <= x < w && 0 <= y < h implies #[trigger] pixel_at(
        rgb_data@,
        w,
        x,
        y,
    ) == bar_pixel(heights@, row_colors@, w, h, x, y) by {}
    rgb_data
}

/// How many of `count` samples the equalizer looks at.
pub open spec fn window_of(count: usize) -> usize {
    if count < WINDOW_SIZE {
        count
    } else {
        WINDOW_SIZE
    }
}

/// Whether bar `k` goes from the height `before` to the height `after`: towards a goal above it as
/// `attack` says, otherwise as `release` says.
pub open spec fn settles<
    T: Fn(usize, usize) -> Single,
    A: Fn(Single, Single) -> Single,
    R: Fn(Single) -> Single,
>(
    target: T,
    attack: A,
    release: R,
    k: usize,
    window: usize,
    before: Single,
    after: Single,
) -> bool {
    exists|goal: Single| #[trigger]
        call_ensures(target, (k, window), goal) && if goal.exceeds(before) {
            call_ensures(attack, (before, goal), after)
        } else {
            call_ensures(release, (before,), after)
        }
}

/// A bar stays between silence and the highest level if what it rises to does, and what it falls to
/// does.
pub proof fn law_bar_stays_a_level_if_its_moves_do<
    T: Fn(usize, usize) -> Single,
    A: Fn(Single, Single) -> Single,
    R: Fn(Single) -> Single,
>(
    target: T,
    attack: A,
    release: R,
    k: usize,
    window: usize,
    before: Single,
    after: Single,
)
    requires
        is_level(before),
        forall|goal: Single, risen: Single|
            call_ensures(target, (k, window), goal) && #[trigger] call_ensures(
                attack,
                (before, goal),
                risen,
            ) ==> is_level(risen),
        forall|fallen: Single| #[trigger]
            call_ensures(release, (before,), fallen) ==> is_level(fallen),
        settles(target, attack, release, k, window, before, after),
    ensures
        is_level(after),
{
}

/// Bars that rise and fall with the frequencies of the sound.
pub struct EqualizerVisualizer {
    /// The height of each bar, as a part of the whole.
    pub bars: [Single; BAR_COUNT],
}

impl EqualizerVisualizer {
    /// Before any sound.
    pub fn new() -> (equalizer: EqualizerVisualizer)
        ensures
            forall|k: int|
                0 <= k < BAR_COUNT ==> #[trigger] equalizer.bars@[k] == (Single { bits: SILENCE })
                    && is_level(equalizer.bars@[k]),
    {
        proof {
            lemma_silence_is_a_level();
        }
        EqualizerVisualizer { bars: [Single { bits: SILENCE }; BAR_COUNT] }
    }

    /// Takes a piece of sound of `sample_count` samples, of which at most a window is looked at.
    /// `target`, of a bar and the length of the window, tells how high the bar should be; a bar that
    /// should be higher goes where `attack`, of its height and the goal, says, and any other where
    /// `release`, of its height, says. Without samples nothing changes.
    pub fn analyze_audio<
        T: Fn(usize, usize) -> Single,
        A: Fn(Single, Single) -> Single,
        R: Fn(Single) -> Single,
    >(&mut self, sample_count: usize, target: T, attack: A, release: R)
        requires
            forall|k: usize|
                k < BAR_COUNT && sample_count > 0 ==> call_requires(
                    target,
                    (k, window_of(sample_count)),
                ),
            forall|height: Single, goal: Single| call_requires(attack, (height, goal)),
            forall|height: Single| call_requires(release, (height,)),
        ensures
            sample_count == 0 ==> final(self).bars@ == old(self).bars@,
            sample_count > 0 ==> forall|k: usize|
                k < BAR_COUNT ==> #[trigger] settles(
                    target,
                    attack,
                    release,
                    k,
                    window_of(sample_count),
                    old(self).bars@[k as int],
                    final(self).bars@[k as int],
                ),
            sample_count > 0 ==> exists|goals: Seq<Single>| #[trigger]
                goals.len() == 32 && forall|k: int|
                    0 <= k < 32 ==> call_ensures(
                        target,
                        (k as usize, window_of(sample_count)),
                        #[trigger] goals[k],
                    ) && if goals[k].exceeds(old(self).bars@[k]) {
                        call_ensures(attack, (old(self).bars@[k], goals[k]), final(self).bars@[k])
                    } else {
                        call_ensures(release, (old(self).bars@[k],), final(self).bars@[k])
                    },
    {
        let window_size: usize = if sample_count < WINDOW_SIZE {
            sample_count
        } else {
            WINDOW_SIZE
        };
        if window_size == 0 {
            return ;
        }
        let ghost mut goals: Seq<Single> = Seq::empty();
        for k in 0..BAR_COUNT
            invariant
                sample_count > 0,
                goals.len() == k,
                forall|j: int|
                    0 <= j < k ==> call_ensures(
                        target,
                        (j as usize, window_size),
                        #[trigger] goals[j],
                    ) && if goals[j].exceeds(old(self).bars@[j]) {
                        call_ensures(attack, (old(self).bars@[j], goals[j]), self.bars@[j])
                    } else {
                        call_ensures(release, (old(self).bars@[j],), self.bars@[j])
                    },
                window_size == window_of(sample_count),
                forall|k: usize|
                    k < BAR_COUNT && sample_count > 0 ==> call_requires(
                        target,
                        (k, window_of(sample_count)),
                    ),
                forall|height: Single, goal: Single| call_requires(attack, (height, goal)),
                forall|height: Single| call_requires(release, (height,)),
                forall|j: int| k <= j < BAR_COUNT ==> self.bars@[j] == old(self).bars@[j],
                forall|j: usize|
                    j < k ==> #[trigger] settles(
                        target,
                        attack,
                        release,
                        j,
                        window_size,
                        old(self).bars@[j as int],
                        self.bars@[j as int],
                    ),
        {
            let goal = target(k, window_size);
            let height = self.bars[k];
            let ghost before = self.bars@;
            proof {
                goals = goals.push(goal);
            }
            if goal.is_greater(height) {
                self.bars[k] = attack(height, goal);
            } else {
                self.bars[k] = release(height);
            }
            assert(settles(
                target,
                attack,
                release,
                k,
                window_size,
                old(self).bars@[k as int],
                self.bars@[k as int],
            ));
            assert forall|j: usize| j < k + 1 implies #[trigger] settles(
                target,
                attack,
                release,
                j,
                window_size,
                old(self).bars@[j as int],
                self.bars@[j as int],
            ) by {
                if j < k {
                    assert(self.bars@[j as int] == before[j as int]);
                }
            }
            assert(forall|j: int| 0 <= j < k ==> self.bars@[j] == before[j]);
        }
        assert(goals.len() == 32);
    }

    /// Whether `heights` are what `bar_height` says of the bars, none for a silent bar, and `row_colors` what `row_color`
    /// says of the rows, of a picture of this height.
    pub open spec fn measured<H: Fn(Single, usize) -> usize, C: Fn(usize, usize) -> (u8, u8)>(
        self,
        bar_height: H,
        row_color: C,
        height: usize,
        heights: Seq<usize>,
        row_colors: Seq<(u8, u8)>,
    ) -> bool {
        &&& heights.len() == BAR_COUNT
        &&& row_colors.len() == height
        &&& forall|k: int|
            0 <= k < BAR_COUNT ==> if self.bars@[k].exceeds(Single { bits: SILENCE }) {
                call_ensures(bar_height, (self.bars@[k], height), #[trigger] heights[k])
            } else {
                heights[k] == 0
            }
        &&& forall|y: usize|
            y < height ==> call_ensures(row_color, (y, height), #[trigger] row_colors[y as int])
    }

    /// Whether `rgb` is the picture of the bars, measured by `bar_height` and `row_color`.
    pub open spec fn drawn<H: Fn(Single, usize) -> usize, C: Fn(usize, usize) -> (u8, u8)>(
        self,
        bar_height: H,
        row_color: C,
        width: usize,
        height: usize,
        rgb: Seq<u8>,
    ) -> bool {
        exists|heights: Seq<usize>, row_colors: Seq<(u8, u8)>| #[trigger]
            self.measured(bar_height, row_color, height, heights, row_colors) && painted(
                rgb,
                heights,
                row_colors,
                width as int,
                height as int,
            )
    }

    /// Draws the bars: `bar_height`, of the height of a bar as a part of the whole and the height of
    /// the picture, gives its rows where it rises above silence, and `row_color`, of a row and the height of the picture, the red
    /// and green of that row.
    pub fn render<H: Fn(Single, usize) -> usize, C: Fn(usize, usize) -> (u8, u8)>(
        &self,
        width: usize,
        height: usize,
        bar_height: H,
        row_color: C,
    ) -> (rgb_data: Vec<u8>)
        requires
            width * height * 3 <= isize::MAX,
            forall|k: int|
                0 <= k < BAR_COUNT && #[trigger] self.bars@[k].exceeds(Single { bits: SILENCE })
                    ==> call_requires(bar_height, (self.bars@[k], height)),
            forall|y: usize| y < height ==> call_requires(row_color, (y, height)),
        ensures
            rgb_data@.len() == width * height * 3,
            self.drawn(bar_height, row_color, width, height, rgb_data@),
    {
        let mut heights: Vec<usize> = Vec::new();
        for k in 0..BAR_COUNT
            invariant
                forall|k: int|
                    0 <= k < BAR_COUNT && #[trigger] self.bars@[k].exceeds(Single { bits: SILENCE })
                        ==> call_requires(bar_height, (self.bars@[k], height)),
                heights@.len() == k,
                forall|j: int|
                    0 <= j < k ==> if self.bars@[j].exceeds(Single { bits: SILENCE }) {
                        call_ensures(bar_height, (self.bars@[j], height), #[trigger] heights@[j])
                    } else {
                        heights@[j] == 0
                    },
        {
            let bar = self.bars[k];
            if bar.is_greater(Single { bits: SILENCE }) {
                heights.push(bar_height(bar, height));
            } else {
                heights.push(0);
            }
        }
        let mut row_colors: Vec<(u8, u8)> = Vec::new();
        for y in 0..height
            invariant
                forall|y: usize| y < height ==> call_requires(row_color, (y, height)),
                row_colors@.len() == y,
                forall|v: usize|
                    v < y ==> call_ensures(
                        row_color,
                        (v, height),
                        #[trigger] row_colors@[v as int],
                    ),
        {
            row_colors.push(row_color(y, height));
        }
        let rgb_data = paint_bars(&heights, &row_colors, width, height);
        assert(self.measured(bar_height, row_color, height, heights@, row_colors@));
        rgb_data
    }
}

/// The equalizer's picture depends on its bars and the size alone: where the same rows and colours
/// are given for the same bar and row every time, two pictures of the same bars and size are equal.
pub proof fn law_picture_depends_on_bars_and_size<
    H: Fn(Single, usize) -> usize,
    C: Fn(usize, usize) -> (u8, u8),
>(
    first: EqualizerVisualizer,
    second: EqualizerVisualizer,
    bar_height: H,
    row_color: C,
    width: usize,
    height: usize,
    a: Seq<u8>,
    b: Seq<u8>,
)
    requires
        first.bars@ == second.bars@,
        forall|bar: Single, one: usize, other: usize|
            call_ensures(bar_height, (bar, height), one) && call_ensures(
                bar_height,
                (bar, height),
                other,
            ) ==> one == other,
        forall|y: usize, one: (u8, u8), other: (u8, u8)|
            call_ensures(row_color, (y, height), one) && call_ensures(
                row_color,
                (y, height),
                other,
            ) ==> one == other,
        first.drawn(bar_height, row_color, width, height, a),
        second.drawn(bar_height, row_color, width, height, b),
    ensures
        a == b,
{
    let (heights, row_colors) = choose|heights: Seq<usize>, row_colors: Seq<(u8, u8)>| #[trigger]
        first.measured(bar_height, row_color, height, heights, row_colors) && painted(
            a,
            heights,
            row_colors,
            width as int,
            height as int,
        );
    let (heights2, row_colors2) = choose|heights: Seq<usize>, row_colors: Seq<(u8, u8)>| #[trigger]
        second.measured(bar_height, row_color, height, heights, row_colors) && painted(
            b,
            heights,
            row_colors,
            width as int,
            height as int,
        );
    assert forall|k: int| 0 <= k < heights.len() implies heights[k] == heights2[k] by {
        if first.bars@[k].exceeds(Single { bits: SILENCE }) {
            assert(call_ensures(bar_height, (first.bars@[k], height), heights[k]));
            assert(call_ensures(bar_height, (second.bars@[k], height), heights2[k]));
        }
    }
    assert(heights =~= heights2);
    assert forall|y: int| 0 <= y < row_colors.len() implies row_colors[y] == row_colors2[y] by {
        let row = y as usize;
        assert(call_ensures(row_color, (row, height), row_colors[row as int]));
        assert(call_ensures(row_color, (row, height), row_colors2[row as int]));
    }
    assert(row_colors =~= row_colors2);
    law_bars_settle_the_picture(a, b, heights, row_colors, width as int, height as int);
}

/// An equalizer that has heard nothing gives a picture of background alone.
pub proof fn law_unheard_equalizer_is_background<
    H: Fn(Single, usize) -> usize,
    C: Fn(usize, usize) -> (u8, u8),
>(
    equalizer: EqualizerVisualizer,
    bar_height: H,
    row_color: C,
    width: usize,
    height: usize,
    rgb: Seq<u8>,
)
    requires
        forall|k: int|
            0 <= k < BAR_COUNT ==> #[trigger] equalizer.bars@[k] == (Single { bits: SILENCE }),
        equalizer.drawn(bar_height, row_color, width, height, rgb),
    ensures
        forall|i: int| 0 <= i < rgb.len() ==> rgb[i] == BACKGROUND,
{
    let (heights, row_colors) = choose|heights: Seq<usize>, row_colors: Seq<(u8, u8)>| #[trigger]
        equalizer.measured(bar_height, row_color, height, heights, row_colors) && painted(
            rgb,
            heights,
            row_colors,
            width as int,
            height as int,
        );
    assert forall|k: int| 0 <= k < BAR_COUNT implies heights[k] == 0 by {
        assert(equalizer.bars@[k] == (Single { bits: SILENCE }));
    }
    law_silent_picture_is_background(rgb, heights, row_colors, width as int, height as int);
}

/// A pixel is three bytes, red, green and blue, and the pixels lie row by row.
pub proof fn law_pixels_lie_row_by_row(rgb: Seq<u8>, width: int, x: int, y: int)
    ensures
        pixel_at(rgb, width, x, y).0 == rgb[3 * (y * width + x)],
        pixel_at(rgb, width, x, y).1 == rgb[3 * (y * width + x) + 1],
        pixel_at(rgb, width, x, y).2 == rgb[3 * (y * width + x) + 2],
{
}

/// In the picture of bars the columns are shared out evenly among the 32 bars. In the share of a bar
/// the first two columns are background; in the others the lowest rows, as many as the bar is high,
/// have the colour of their row with a blue of 30, and the rows above are background. What lies
/// outside of every share is background too.
pub proof fn law_painted_bars(
    rgb: Seq<u8>,
    heights: Seq<usize>,
    row_colors: Seq<(u8, u8)>,
    width: int,
    height: int,
    x: int,
    y: int,
    bar: int,
)
    requires
        painted(rgb, heights, row_colors, width, height),
        0 <= x < width,
        0 <= y < height,
        0 <= bar < 32,
    ensures
        rgb.len() == 3 * (width * height),
        ({
            let share = width / 32;
            let at = 3 * (y * width + x);
            let background = rgb[at] == 15 && rgb[at + 1] == 15 && rgb[at + 2] == 15;
            &&& bar * share + 2 <= x < bar * share + share && y + heights[bar] >= height ==> {
                &&& rgb[at] == row_colors[y].0
                &&& rgb[at + 1] == row_colors[y].1
                &&& rgb[at + 2] == 30
            }
            &&& bar * share + 2 <= x < bar * share + share && y + heights[bar] < height
                ==> background
            &&& bar * share <= x < bar * share + share && x < bar * share + 2 ==> background
            &&& x >= 32 * share ==> background
        }),
{
    let share = width / 32;
    assert(pixel_at(rgb, width, x, y) == bar_pixel(heights, row_colors, width, height, x, y));
    law_columns_of_a_bar(width, x, bar);
    assert((bar + 1) * share <= width) by (nonlinear_arith)
        requires
            share == width / 32,
            0 <= bar < 32,
            width >= 0,
    ;
    assert((bar + 1) * share == bar * share + share) by (nonlinear_arith);
    if share > 0 {
        let quotient = x / share;
        let rest = x % share;
        vstd::arithmetic::div_mod::lemma_fundamental_div_mod(x, share);
        assert(x == quotient * share + rest) by (nonlinear_arith)
            requires
                x == share * quotient + rest,
        ;
        if bar * share <= x < bar * share + share {
            assert(quotient == bar) by (nonlinear_arith)
                requires
                    bar * share <= x < bar * share + share,
                    x == quotient * share + rest,
                    0 <= rest < share,
            ;
        }
        if x >= 32 * share {
            assert(quotient >= 32) by (nonlinear_arith)
                requires
                    x >= 32 * share,
                    x == quotient * share + rest,
                    0 <= rest < share,
            ;
        }
    }
}

/// In the picture of an equalizer each bar stands as high as `bar_height` says of it and the height
/// of the picture, a bar that does not rise above silence not at all, and each row of it has the
/// colour that `row_color` says of the row.
pub proof fn law_drawn_bars<H: Fn(Single, usize) -> usize, C: Fn(usize, usize) -> (u8, u8)>(
    equalizer: EqualizerVisualizer,
    bar_height: H,
    row_color: C,
    width: usize,
    height: usize,
    rgb: Seq<u8>,
    x: usize,
    y: usize,
    bar: int,
)
    requires
        equalizer.drawn(bar_height, row_color, width, height, rgb),
        x < width,
        y < height,
        0 <= bar < 32,
        bar * (width as int / 32) + 2 <= x < bar * (width as int / 32) + width as int / 32,
    ensures
        ({
            let at = 3 * (y * width + x);
            &&& !equalizer.bars@[bar].exceeds(Single { bits: 0 }) ==> rgb[at] == 15 && rgb[at + 1]
                == 15 && rgb[at + 2] == 15
            &&& equalizer.bars@[bar].exceeds(Single { bits: 0 }) ==> exists|
                rows: usize,
                color: (u8, u8),
            | #[trigger]
                call_ensures(bar_height, (equalizer.bars@[bar], height), rows)
                    && #[trigger] call_ensures(row_color, (y, height), color) && (y + rows >= height
                    ==> rgb[at] == color.0 && rgb[at + 1] == color.1 && rgb[at + 2] == 30) && (y
                    + rows < height ==> rgb[at] == 15 && rgb[at + 1] == 15 && rgb[at + 2] == 15)
        }),
{
    let (heights, row_colors) = choose|heights: Seq<usize>, row_colors: Seq<(u8, u8)>| #[trigger]
        equalizer.measured(bar_height, row_color, height, heights, row_colors) && painted(
            rgb,
            heights,
            row_colors,
            width as int,
            height as int,
        );
    law_painted_bars(
        rgb,
        heights,
        row_colors,
        width as int,
        height as int,
        x as int,
        y as int,
        bar,
    );
    let rows = heights[bar];
    let color = row_colors[y as int];
    assert(call_ensures(row_color, (y, height), color));
    if equalizer.bars@[bar].exceeds(Single { bits: 0 }) {
        assert(call_ensures(bar_height, (equalizer.bars@[bar], height), rows));
    }
}

/// Every bar moves with a piece of sound: for each of the 32 there is a goal that `target` gave for
/// it and for the first 512 samples or as many as there are, and the bar is where `attack` leads
/// from its height to that goal where the goal is above it, and where `release` leads otherwise.
pub proof fn law_every_bar_moves<
    T: Fn(usize, usize) -> Single,
    A: Fn(Single, Single) -> Single,
    R: Fn(Single) -> Single,
>(
    target: T,
    attack: A,
    release: R,
    sample_count: usize,
    window: usize,
    before: Seq<Single>,
    after: Seq<Single>,
    bar: usize,
)
    requires
        sample_count > 0,
        window == (if sample_count < 512 {
            sample_count
        } else {
            512
        }),
        forall|k: usize|
            k < BAR_COUNT ==> #[trigger] settles(
                target,
                attack,
                release,
                k,
                window_of(sample_count),
                before[k as int],
                after[k as int],
            ),
        bar < 32,
    ensures
        exists|goal: Single| #[trigger]
            call_ensures(target, (bar, window), goal) && (goal.exceeds(before[bar as int])
                ==> call_ensures(attack, (before[bar as int], goal), after[bar as int])) && (
            !goal.exceeds(before[bar as int]) ==> call_ensures(
                release,
                (before[bar as int],),
                after[bar as int],
            )),
{
    assert(settles(
        target,
        attack,
        release,
        bar,
        window_of(sample_count),
        before[bar as int],
        after[bar as int],
    ));
}

/// A stronger bass is followed at once, up to the very strength that is heard; any other lets the
/// smoothed bass fall to where `release` leads from it and from what is heard.
pub proof fn law_bass_is_followed<R: Fn(Single, Single) -> Single>(
    release: R,
    bass_rms: Single,
    before: Single,
    after: Single,
)
    requires
        follows_bass(release, bass_rms, before, after),
    ensures
        bass_rms.exceeds(before) ==> after == bass_rms,
        !bass_rms.exceeds(before) ==> call_ensures(release, (before, bass_rms), after),
{
}

/// The levels are the patterns from that of zero to that of one, and minus zero.
pub proof fn law_levels_by_their_patterns(strength: Single)
    ensures
        is_level(strength) <==> strength.bits <= 0x3f80_0000 || strength.bits == 0x8000_0000,
{
    let zero = Single { bits: 0 };
    let one = Single { bits: 0x3f80_0000 };
    crate::ieee::law_within_passes_no_bound(strength, zero, one);
    crate::ieee::law_singles_compare_by_their_patterns(strength, one);
    crate::ieee::law_singles_compare_by_their_patterns(zero, strength);
    crate::ieee::law_singles_compare_by_their_patterns(zero, one);
    crate::ieee::law_singles_compare_by_their_patterns(one, zero);
}

} // verus!
