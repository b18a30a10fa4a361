//! Decoded pictures on their way from the decoder to the screen.
use crate::ieee::Double;
use vstd::prelude::*;

verus! {

/// The picture type of the drawing toolkit, carried through as it is.
#[verifier::external_type_specification]
#[verifier::external_body]
pub struct ExColorImage(eframe::egui::ColorImage);

/// The width and height that an image of the drawing toolkit was made with.
pub uninterp spec fn image_size(image: eframe::egui::ColorImage) -> (usize, usize);

/// The pixels of an image of the drawing toolkit, row by row from the top, each as red, green,
/// blue and opacity.
pub uninterp spec fn image_pixels(image: eframe::egui::ColorImage) -> Seq<(u8, u8, u8, u8)>;

/// Calls `ColorImage::from_rgb`. It takes `rgb` as pixels of three bytes each, row by row, and
/// gives an image of the size asked for that holds these colours in the same order, each fully
/// opaque (255). It panics where the bytes do not fill the size exactly.
#[verifier::external_body]
fn color_image(width: usize, height: usize, rgb: &[u8]) -> (image: eframe::egui::ColorImage)
    requires
        width * height * 3 == rgb@.len(),
        width * height * 4 <= isize::MAX,
    ensures
        image_size(image) == (width, height),
        image_pixels(image) == Seq::new(
            (width * height) as nat,
            |i: int| (rgb@[3 * i], rgb@[3 * i + 1], rgb@[3 * i + 2], 255u8),
        ),
{
    eframe::egui::ColorImage::from_rgb([width, height], rgb)
}

/// One picture of a video with its place in time. A picture of no size carries the time alone.
pub struct VideoFrame {
    pub width: usize,
    pub height: usize,
    /// Red, green and blue of each pixel, row by row from the top, without gaps.
    pub rgb_data: Vec<u8>,
    /// The moment at which the picture is due, in seconds.
    pub pts: Double,
    /// The length of the whole recording, in seconds.
    pub duration: Double,
}

impl VideoFrame {
    /// Whether the bytes fill the size exactly.
    pub open spec fn well_formed(self) -> bool {
        self.rgb_data@.len() == self.width * self.height * 3
    }

    /// Whether the frame holds something to show.
    pub open spec fn picture(self) -> bool {
        self.width > 0 && self.height > 0 && self.rgb_data@.len() > 0
    }

    /// A frame without a picture, which only tells the time.
    pub open spec fn tells_time(self, pts: Double, duration: Double) -> bool {
        &&& self.width == 0
        &&& self.height == 0
        &&& self.rgb_data@.len() == 0
        &&& self.pts == pts
        &&& self.duration == duration
    }

    /// Makes a frame without a picture: it moves the time display on.
    pub fn time_only(pts: Double, duration: Double) -> (frame: VideoFrame)
        ensures
            frame.tells_time(pts, duration),
            frame.well_formed(),
            !frame.picture(),
    {
        VideoFrame { width: 0, height: 0, rgb_data: Vec::new(), pts, duration }
    }

    /// Whether the frame holds something to show.
    pub fn is_picture(&self) -> (res: bool)
        ensures
            res == self.picture(),
    {
        self.width > 0 && self.height > 0 && !self.rgb_data.is_empty()
    }

    /// The frame as an image of the drawing toolkit.
    pub fn to_image(&self) -> (image: eframe::egui::ColorImage)
        requires
            self.well_formed(),
            self.width * self.height * 4 <= isize::MAX,
        ensures
            image_size(image) == (self.width, self.height),
            image_pixels(image) == Seq::new(
                (self.width * self.height) as nat,
                |i: int|
                    (
                        self.rgb_data@[3 * i],
                        self.rgb_data@[3 * i + 1],
                        self.rgb_data@[3 * i + 2],
                        255u8,
                    ),
            ),
    {
        color_image(self.width, self.height, self.rgb_data.as_slice())
    }
}

/// Whether `height` rows of `width` pixels, `stride` bytes apart, lie within `len` bytes.
pub open spec fn rows_fit(len: nat, stride: usize, width: usize, height: usize) -> bool {
    height > 0 ==> (height - 1) * stride + width * 3 <= len
}

/// The first `height` rows of `row_len` bytes, `stride` bytes apart in `src`, put end to end.
pub open spec fn packed_rows(src: Seq<u8>, stride: int, row_len: int, height: nat) -> Seq<u8>
    decreases height,
{
    if height == 0 {
        Seq::empty()
    } else {
        let start = (height - 1) * stride;
        packed_rows(src, stride, row_len, (height - 1) as nat) + src.subrange(
            start,
            start + row_len,
        )
    }
}

/// Packing rows leaves out the padding between them and nothing else: byte `i` of row `y` is
/// found at its place in the packed picture, whose length is that of its rows.
pub proof fn law_packed_byte(src: Seq<u8>, stride: usize, row_len: nat, height: nat, y: nat, i: nat)
    requires
        height > 0 ==> (height - 1) * stride + row_len <= src.len(),
        y < height,
        i < row_len,
    ensures
        packed_rows(src, stride as int, row_len as int, height).len() == height * row_len,
        y * row_len + i < height * row_len,
        packed_rows(src, stride as int, row_len as int, height)[(y * row_len + i) as int]
            == src[(y * stride + i) as int],
    decreases height,
{
    assert((height - 2) * stride <= (height - 1) * stride) by (nonlinear_arith);
    assert((height - 1) * stride >= 0) by (nonlinear_arith)
        requires
            height >= 1,
    ;
    lemma_packed_len(src, stride, row_len, height);
    lemma_packed_len(src, stride, row_len, (height - 1) as nat);
    assert(height * row_len == (height - 1) * row_len + row_len) by (nonlinear_arith);
    if y < height - 1 {
        law_packed_byte(src, stride, row_len, (height - 1) as nat, y, i);
    }
}

/// The length of a packed picture.
proof fn lemma_packed_len(src: Seq<u8>, stride: usize, row_len: nat, height: nat)
    requires
        height > 0 ==> (height - 1) * stride + row_len <= src.len(),
    ensures
        packed_rows(src, stride as int, row_len as int, height).len() == height * row_len,
    decreases height,
{
    if height > 0 {
        assert((height - 2) * stride <= (height - 1) * stride) by (nonlinear_arith);
        assert((height - 1) * stride >= 0) by (nonlinear_arith)
            requires
                height >= 1,
        ;
        lemma_packed_len(src, stride, row_len, (height - 1) as nat);
        assert(height * row_len == (height - 1) * row_len + row_len) by (nonlinear_arith);
    } else {
        assert(height * row_len == 0) by (nonlinear_arith)
            requires
                height == 0,
        ;
    }
}

/// Copies the picture out of a decoder's buffer, whose rows may be padded at their ends: row `y`
/// of the picture starts `y * stride` bytes into the buffer.
pub fn copy_rgb_frame(
    src: &[u8],
    stride: usize,
    width: usize,
    height: usize,
    pts: Double,
    duration: Double,
) -> (frame: VideoFrame)
    requires
        rows_fit(src@.len(), stride, width, height),
        width * 3 <= usize::MAX,
        width * height * 3 <= isize::MAX,
    ensures
        frame.width == width,
        frame.height == height,
        frame.rgb_data@ == packed_rows(src@, stride as int, width * 3, height as nat),
        frame.pts == pts,
        frame.duration == duration,
        frame.well_formed(),
{
    let len: usize = src.len();
    let row_len: usize = width * 3;
    proof {
        assert(width * height >= 0) by (nonlinear_arith);
        lemma_packed_len(src@, stride, row_len as nat, height as nat);
        assert(height * row_len == width * height * 3) by (nonlinear_arith)
            requires
                row_len == width * 3,
        ;
    }
    let mut rgb_data: Vec<u8> = Vec::with_capacity(width * height * 3);
    for y in 0..height
        invariant
            len == src@.len(),
            row_len == width * 3,
            rows_fit(src@.len(), stride, width, height),
            rgb_data@ == packed_rows(src@, stride as int, row_len as int, y as nat),
    {
        proof {
            assert(y * stride <= (height - 1) * stride) by (nonlinear_arith)
                requires
                    0 <= y <= height - 1,
            ;
            assert(y * stride >= 0) by (nonlinear_arith);
        }
        let start: usize = y * stride;
        let ghost before = rgb_data@;
        let row = vstd::slice::slice_subrange(src, start, start + row_len);
        rgb_data.extend_from_slice(row);
        assert(rgb_data@ =~= before + row@);
    }
    VideoFrame { width, height, rgb_data, pts, duration }
}

/// A frame has a picture exactly if it has columns, rows and bytes, whatever their numbers.
pub proof fn law_frames_with_pixels_are_pictures(frame: VideoFrame)
    ensures
        frame.picture() <==> frame.width > 0 && frame.height > 0 && frame.rgb_data@.len() > 0,
        frame.width > 0 && frame.height > 0 && frame.rgb_data@.len() == frame.width * frame.height
            * 3 ==> frame.picture() && frame.well_formed(),
{
    assert(frame.width > 0 && frame.height > 0 ==> frame.width * frame.height * 3 > 0)
        by (nonlinear_arith);
}

/// Rows fit exactly if the last byte of the last one lies within the buffer; rows that are not there
/// always fit.
pub proof fn law_rows_fit_up_to_the_last(len: nat, stride: usize, width: usize, height: usize)
    ensures
        height == 0 ==> rows_fit(len, stride, width, height),
        height > 0 ==> (rows_fit(len, stride, width, height) <==> (height - 1) * stride + 3 * width
            <= len),
{
}

/// A packed picture is as long as its rows together.
pub proof fn law_packed_length(src: Seq<u8>, stride: usize, row_len: nat, height: nat)
    requires
        height > 0 ==> (height - 1) * stride + row_len <= src.len(),
    ensures
        packed_rows(src, stride as int, row_len as int, height).len() == height * row_len,
{
    lemma_packed_len(src, stride, row_len, height);
}

/// A frame that only tells the time carries that time and that length, and no pixels.
pub proof fn law_time_frames_carry_the_time(frame: VideoFrame, pts: Double, duration: Double)
    requires
        frame.tells_time(pts, duration),
    ensures
        frame.pts == pts,
        frame.duration == duration,
        frame.width == 0 && frame.height == 0 && frame.rgb_data@.len() == 0,
        !frame.picture(),
{
}

} // verus!
