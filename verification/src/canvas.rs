//! The pixel buffer that frames are drawn into: an RGBA image of the `image`
//! crate, behind the few operations that the rasterizer needs.
//!
//! Nothing in this file is proved. Each function states what the `image`
//! crate's buffer does, and the rest of the crate is verified against these
//! statements.

use vstd::prelude::*;

verus! {

/// An `image::ImageBuffer` of 8-bit RGBA pixels over a `Vec<u8>`.
#[verifier::external_body]
pub struct Canvas {
    buffer: image::ImageBuffer<image::Rgba<u8>, Vec<u8>>,
}

/// The pixels of a canvas: the `(r, g, b, a)` at each `(x, y)` inside it.
pub uninterp spec fn canvas_pixels(canvas: Canvas) -> Map<(int, int), (u8, u8, u8, u8)>;

/// What `ImageBuffer::width` returns for a canvas.
pub uninterp spec fn canvas_width(canvas: Canvas) -> int;

/// What `ImageBuffer::height` returns for a canvas.
pub uninterp spec fn canvas_height(canvas: Canvas) -> int;

/// The points of a `width` by `height` image.
pub open spec fn points(width: int, height: int) -> Set<(int, int)> {
    Set::new(|p: (int, int)| 0 <= p.0 < width && 0 <= p.1 < height)
}

/// `ImageBuffer::new`: a buffer of the given size with every channel of
/// every pixel zero. The call panics where the byte count `4 * width *
/// height` does not fit a `usize`, which the precondition rules out.
#[verifier::external_body]
pub(crate) fn canvas_new(width: u32, height: u32) -> (canvas: Canvas)
    requires
        4 * width * height <= usize::MAX,
    ensures
        canvas_width(canvas) == width,
        canvas_height(canvas) == height,
        canvas_pixels(canvas) == Map::new(
            |p: (int, int)| points(width as int, height as int).contains(p),
            |p: (int, int)| (0u8, 0u8, 0u8, 0u8),
        ),
{
    Canvas { buffer: image::ImageBuffer::new(width, height) }
}

/// `ImageBuffer::put_pixel`: the pixel at `(x, y)` becomes the given one and
/// nothing else changes. The call panics for a point outside the buffer,
/// which the precondition rules out.
#[verifier::external_body]
pub(crate) fn canvas_put(canvas: &mut Canvas, x: u32, y: u32, color: (u8, u8, u8, u8))
    requires
        x < canvas_width(*old(canvas)),
        y < canvas_height(*old(canvas)),
    ensures
        canvas_width(*final(canvas)) == canvas_width(*old(canvas)),
        canvas_height(*final(canvas)) == canvas_height(*old(canvas)),
        canvas_pixels(*final(canvas)) == canvas_pixels(*old(canvas)).insert(
            (x as int, y as int),
            color,
        ),
{
    canvas.buffer.put_pixel(x, y, image::Rgba([color.0, color.1, color.2, color.3]));
}

/// `ImageBuffer::get_pixel`: the pixel at `(x, y)`. The call panics for a
/// point outside the buffer, which the precondition rules out.
#[verifier::external_body]
pub(crate) fn canvas_get(canvas: &Canvas, x: u32, y: u32) -> (color: (u8, u8, u8, u8))
    requires
        x < canvas_width(*canvas),
        y < canvas_height(*canvas),
    ensures
        color == canvas_pixels(*canvas)[(x as int, y as int)],
{
    let pixel = canvas.buffer.get_pixel(x, y);
    (pixel.0[0], pixel.0[1], pixel.0[2], pixel.0[3])
}

/// The bytes of an image of the given size: four for each pixel in the
/// order red, green, blue, alpha, the pixels row by row from the top.
pub open spec fn raw_layout(
    pixels: Map<(int, int), (u8, u8, u8, u8)>,
    width: int,
    height: int,
) -> Seq<u8> {
    Seq::new(
        (4 * width * height) as nat,
        |i: int|
            {
                let pixel = pixels[((i / 4) % width, (i / 4) / width)];
                if i % 4 == 0 {
                    pixel.0
                } else if i % 4 == 1 {
                    pixel.1
                } else if i % 4 == 2 {
                    pixel.2
                } else {
                    pixel.3
                }
            },
    )
}

/// `ImageBuffer::as_raw`: the bytes behind the buffer, which hold the pixels
/// in the layout above.
#[verifier::external_body]
pub(crate) fn canvas_raw(canvas: &Canvas) -> (bytes: &Vec<u8>)
    ensures
        bytes@ == raw_layout(canvas_pixels(*canvas), canvas_width(*canvas), canvas_height(*canvas)),
{
    canvas.buffer.as_raw()
}

} // verus!
