//! The framebuffer that the render orchestrator fills, and its sampling grid.
use vstd::prelude::*;

verus! {

/// An 8-bit RGB raster held in an `image::RgbImage`.
#[verifier::external_body]
pub struct Framebuffer {
    image: image::RgbImage,
}

/// Width of the raster in pixels.
pub uninterp spec fn frame_width(f: Framebuffer) -> nat;

/// Height of the raster in pixels.
pub uninterp spec fn frame_height(f: Framebuffer) -> nat;

/// The pixel at each column and row of the raster.
pub uninterp spec fn frame_pixels(f: Framebuffer) -> Map<(int, int), (u8, u8, u8)>;

/// Whether `(x, y)` lies on the raster.
pub open spec fn on_frame(f: Framebuffer, x: int, y: int) -> bool {
    0 <= x < frame_width(f) && 0 <= y < frame_height(f)
}

/// Every position on the raster holds a pixel.
pub open spec fn covers_frame(f: Framebuffer) -> bool {
    forall|x: int, y: int| on_frame(f, x, y) ==> #[trigger] frame_pixels(f).dom().contains((x, y))
}

/// The pixel at `(x, y)`.
pub open spec fn pixel_at(f: Framebuffer, x: int, y: int) -> (u8, u8, u8) {
    frame_pixels(f)[(x, y)]
}

/// Channel `c` of an RGB triple.
pub open spec fn channel(p: (u8, u8, u8), c: int) -> u8 {
    if c == 0 {
        p.0
    } else if c == 1 {
        p.1
    } else {
        p.2
    }
}

/// Relies on `ImageBuffer::new`: a `width` × `height` raster with every
/// subpixel zero. It panics when `3 * width`, or `3 * width * height`,
/// overflows `usize`.
#[verifier::external_body]
fn blank_image(width: u32, height: u32) -> (r: Framebuffer)
    requires
        3 * (width as int) <= usize::MAX,
        3 * (width as int) * (height as int) <= usize::MAX,
    ensures
        frame_width(r) == width,
        frame_height(r) == height,
        covers_frame(r),
        forall|x: int, y: int| on_frame(r, x, y) ==> pixel_at(r, x, y) == (0u8, 0u8, 0u8),
{
    Framebuffer { image: image::RgbImage::new(width, height) }
}

/// Relies on `ImageBuffer::put_pixel`: sets the pixel at `(x, y)` and nothing
/// else. It panics off the raster.
#[verifier::external_body]
fn put_pixel(f: &mut Framebuffer, x: u32, y: u32, p: (u8, u8, u8))
    requires
        on_frame(*old(f), x as int, y as int),
    ensures
        frame_width(*final(f)) == frame_width(*old(f)),
        frame_height(*final(f)) == frame_height(*old(f)),
        frame_pixels(*final(f)) == frame_pixels(*old(f)).insert((x as int, y as int), p),
{
    f.image.put_pixel(x, y, image::Rgb([p.0, p.1, p.2]))
}

/// Relies on `ImageBuffer::get_pixel`: the pixel at `(x, y)`. It panics off
/// the raster.
#[verifier::external_body]
fn get_pixel(f: &Framebuffer, x: u32, y: u32) -> (r: (u8, u8, u8))
    requires
        on_frame(*f, x as int, y as int),
    ensures
        r == pixel_at(*f, x as int, y as int),
{
    let p = f.image.get_pixel(x, y);
    (p.0[0], p.0[1], p.0[2])
}

/// Relies on `ImageBuffer::width`.
#[verifier::external_body]
fn image_width(f: &Framebuffer) -> (r: u32)
    ensures
        r == frame_width(*f),
{
    f.image.width()
}

/// Relies on `ImageBuffer::height`.
#[verifier::external_body]
fn image_height(f: &Framebuffer) -> (r: u32)
    ensures
        r == frame_height(*f),
{
    f.image.height()
}

/// Relies on `ImageBuffer::as_raw`: the subpixels row by row, three per pixel,
/// the pixel at `(x, y)` starting at `3 * (y * width + x)`.
#[verifier::external_body]
fn raw_subpixels(f: &Framebuffer) -> (r: Vec<u8>)
    ensures
        r@.len() == 3 * frame_width(*f) * frame_height(*f),
        forall|x: int, y: int, c: int|
            on_frame(*f, x, y) && 0 <= c < 3 ==> r@[3 * (y * frame_width(*f) + x) + c] == channel(
                pixel_at(*f, x, y),
                c,
            ),
{
    f.image.as_raw().clone()
}

impl Framebuffer {
    /// Width in pixels.
    pub fn width(&self) -> (r: u32)
        ensures
            r == frame_width(*self),
    {
        image_width(self)
    }

    /// Height in pixels.
    pub fn height(&self) -> (r: u32)
        ensures
            r == frame_height(*self),
    {
        image_height(self)
    }

    /// The pixel at column `x`, row `y` (row 0 at the top).
    pub fn pixel(&self, x: u32, y: u32) -> (r: (u8, u8, u8))
        requires
            on_frame(*self, x as int, y as int),
        ensures
            r == pixel_at(*self, x as int, y as int),
    {
        get_pixel(self, x, y)
    }

    /// The raster as encoders take it: rows top to bottom, pixels left to
    /// right, red, green and blue bytes.
    pub fn to_bytes(&self) -> (r: Vec<u8>)
        ensures
            r@.len() == 3 * frame_width(*self) * frame_height(*self),
            forall|x: int, y: int, c: int|
                on_frame(*self, x, y) && 0 <= c < 3 ==> r@[3 * (y * frame_width(*self) + x) + c]
                    == channel(pixel_at(*self, x, y), c),
    {
        raw_subpixels(self)
    }
}

/// Builds the raster from the tone-mapped pixels of each column, as the
/// parallel workers hand them over: `columns[x][y]` is the pixel at column
/// `x`, row `y`.
pub fn frame_from_columns(width: u32, height: u32, columns: &Vec<Vec<(u8, u8, u8)>>) -> (r:
    Framebuffer)
    requires
        columns@.len() == width,
        forall|x: int| 0 <= x < width ==> #[trigger] columns@[x]@.len() == height,
        3 * (width as int) <= usize::MAX,
        3 * (width as int) * (height as int) <= usize::MAX,
    ensures
        frame_width(r) == width,
        frame_height(r) == height,
        forall|x: int, y: int| on_frame(r, x, y) ==> pixel_at(r, x, y) == columns@[x]@[y],
{
    let mut frame = blank_image(width, height);
    let mut x: u32 = 0;
    while x < width
        invariant
            x <= width,
            columns@.len() == width,
            forall|c: int| 0 <= c < width ==> #[trigger] columns@[c]@.len() == height,
            frame_width(frame) == width,
            frame_height(frame) == height,
            covers_frame(frame),
            forall|a: int, b: int|
                on_frame(frame, a, b) && a < x ==> pixel_at(frame, a, b) == columns@[a]@[b],
        decreases width - x,
    {
        let column = &columns[x as usize];
        let mut y: u32 = 0;
        while y < height
            invariant
                x < width,
                y <= height,
                columns@.len() == width,
                column@ == columns@[x as int]@,
                column@.len() == height,
                forall|c: int| 0 <= c < width ==> #[trigger] columns@[c]@.len() == height,
                frame_width(frame) == width,
                frame_height(frame) == height,
                covers_frame(frame),
                forall|a: int, b: int|
                    on_frame(frame, a, b) && a < x ==> pixel_at(frame, a, b) == columns@[a]@[b],
                forall|b: int| 0 <= b < y ==> pixel_at(frame, x as int, b) == columns@[x as int]@[b],
            decreases height - y,
        {
            let ghost prev = frame;
            put_pixel(&mut frame, x, y, column[y as usize]);
            assert forall|a: int, b: int| on_frame(frame, a, b) && a < x implies pixel_at(frame, a, b)
                == columns@[a]@[b] by {
                assert(on_frame(prev, a, b));
                assert(frame_pixels(prev).dom().contains((a, b)));
                assert(columns@[a]@.len() == height);
            }
            assert forall|b: int| 0 <= b < y + 1 implies pixel_at(frame, x as int, b)
                == columns@[x as int]@[b] by {
                if b < y {
                    assert(on_frame(prev, x as int, b));
                    assert(frame_pixels(prev).dom().contains((x as int, b)));
                    assert(pixel_at(prev, x as int, b) == columns@[x as int]@[b]);
                } else {
                    assert(pixel_at(frame, x as int, y as int) == column@[y as int]);
                }
            }
            assert forall|a: int, b: int| on_frame(frame, a, b) implies #[trigger] frame_pixels(
                frame,
            ).dom().contains((a, b)) by {
                assert(on_frame(prev, a, b));
                assert(frame_pixels(prev).dom().contains((a, b)));
            }
            y = y + 1;
        }
        x = x + 1;
    }
    frame
}

/// Where sample rays of pixel `(column, row)` aim, before the jitter in
/// `[0, 1)` is added to each numerator: `u = (u_num + jitter) / u_den`,
/// `v = (v_num + jitter) / v_den`. Rows count from the top while `v` grows
/// upwards, so the row is flipped.
pub struct SampleGrid {
    pub u_num: u32,
    pub u_den: u32,
    pub v_num: u32,
    pub v_den: u32,
}

/// The viewport coordinates of the samples of pixel `(column, row)` on a
/// `width` × `height` image.
pub fn sample_grid(column: u32, row: u32, width: u32, height: u32) -> (r: SampleGrid)
    requires
        column < width,
        row < height,
    ensures
        r.u_num == column,
        r.u_den == width - 1,
        r.v_num == height - row,
        r.v_den == height - 1,
{
    SampleGrid { u_num: column, u_den: width - 1, v_num: height - row, v_den: height - 1 }
}

} // verus!
