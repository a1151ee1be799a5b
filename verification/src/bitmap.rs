//! Bitmaps of the `bmp` crate, from which the tile map and the sprite table
//! are loaded, and how a bitmap is cut into square blocks.
//!
//! The wrappers at the top of this file are not proved. Each states what
//! the `bmp` crate's image does, and the loaders are verified against these
//! statements.

use vstd::prelude::*;

verus! {

/// `bmp::Image`, a decoded bitmap. Its fields are private to the `bmp`
/// crate; what the loaders know of a bitmap they know from the three
/// functions below.
#[verifier::external_type_specification]
#[verifier::external_body]
pub struct ExImage(bmp::Image);

/// What `Image::get_width` returns for a bitmap.
pub uninterp spec fn bitmap_width(img: bmp::Image) -> int;

/// What `Image::get_height` returns for a bitmap.
pub uninterp spec fn bitmap_height(img: bmp::Image) -> int;

/// The pixels of a bitmap: the `(r, g, b)` at each `(x, y)`, with `(0, 0)`
/// in the upper left corner.
pub uninterp spec fn bitmap_pixels(img: bmp::Image) -> Map<(int, int), (u8, u8, u8)>;

/// `Image::get_width`.
#[verifier::external_body]
pub(crate) fn bitmap_get_width(img: &bmp::Image) -> (width: u32)
    ensures
        width == bitmap_width(*img),
{
    img.get_width()
}

/// `Image::get_height`.
#[verifier::external_body]
pub(crate) fn bitmap_get_height(img: &bmp::Image) -> (height: u32)
    ensures
        height == bitmap_height(*img),
{
    img.get_height()
}

/// `Image::get_pixel`: the pixel at `(x, y)`. The call computes an index
/// from `x`, `y` and the size in 32-bit arithmetic and panics where that
/// overflows or the index lies outside the pixel data; the precondition
/// rules both out.
#[verifier::external_body]
pub(crate) fn bitmap_get_pixel(img: &bmp::Image, x: u32, y: u32) -> (pixel: (u8, u8, u8))
    requires
        x < bitmap_width(*img),
        y < bitmap_height(*img),
        bitmap_width(*img) * bitmap_height(*img) <= u32::MAX,
    ensures
        pixel == bitmap_pixels(*img)[(x as int, y as int)],
{
    let pixel = img.get_pixel(x, y);
    (pixel.r, pixel.g, pixel.b)
}

/// Why a bitmap was turned down.
#[derive(Clone, Copy, Debug, PartialEq, Eq, Structural)]
pub enum AssetError {
    /// The bitmap does not resolve to exactly 128 tiles of 8x8 pixels.
    TilemapSize,
    /// The bitmap does not provide 8 sprites of 32x32 pixels.
    SpritemapSize,
}

/// The colour word of a bitmap pixel: the upper four bits of red, green and
/// blue in bits 0..3, 4..7 and 8..11.
pub open spec fn color_word(pixel: (u8, u8, u8)) -> u16 {
    (pixel.0 / 16 + (pixel.1 / 16) * 16 + (pixel.2 / 16) * 256) as u16
}

/// The colour word of a sprite's bitmap pixel: magenta stands for a
/// transparent pixel.
pub open spec fn sprite_color_word(pixel: (u8, u8, u8)) -> u16 {
    if pixel == (0xffu8, 0x00u8, 0xffu8) {
        0xffff
    } else {
        color_word(pixel)
    }
}

/// Where pixel `p` of block `b` lies in a bitmap that is cut into squares of
/// `size` by `size` pixels, `across` of them in a row: blocks are counted
/// row by row from the upper left, and so are the pixels of a block.
pub open spec fn block_point(b: int, p: int, across: int, size: int) -> (int, int) {
    ((b % across) * size + p % size, (b / across) * size + p / size)
}

/// The product of two 32-bit numbers, which fits 64 bits.
pub(crate) fn area(width: u32, height: u32) -> (product: u64)
    ensures
        product == width * height,
{
    assert(width * height <= 0xffff_ffff * 0xffff_ffff) by (nonlinear_arith)
        requires
            width <= 0xffff_ffff,
            height <= 0xffff_ffff,
    ;
    (width as u64) * (height as u64)
}

/// Converts a bitmap pixel to its colour word.
pub fn to_color_word(pixel: (u8, u8, u8)) -> (word: u16)
    ensures
        word == color_word(pixel),
{
    (pixel.0 / 16) as u16 + ((pixel.1 / 16) as u16) * 16 + ((pixel.2 / 16) as u16) * 256
}

/// Converts a sprite's bitmap pixel to its colour word.
pub fn to_sprite_color_word(pixel: (u8, u8, u8)) -> (word: u16)
    ensures
        word == sprite_color_word(pixel),
{
    if pixel.0 == 0xff && pixel.1 == 0x00 && pixel.2 == 0xff {
        0xffff
    } else {
        to_color_word(pixel)
    }
}

/// The words of one block of a bitmap, read through `bitmap_get_pixel`.
/// `sprite` says whether magenta stands for transparent.
pub(crate) fn read_block(img: &bmp::Image, b: u32, across: u32, size: u32, sprite: bool) -> (words:
    Vec<u16>)
    requires
        0 < size <= 32,
        0 < across,
        across * size <= bitmap_width(*img),
        (b / across + 1) * size <= bitmap_height(*img),
        bitmap_width(*img) * bitmap_height(*img) <= u32::MAX,
    ensures
        words@.len() == size * size,
        forall|p: int|
            0 <= p < size * size ==> #[trigger] words@[p] == if sprite {
                sprite_color_word(
                    bitmap_pixels(*img)[block_point(b as int, p, across as int, size as int)],
                )
            } else {
                color_word(bitmap_pixels(*img)[block_point(b as int, p, across as int, size as int)])
            },
{
    let width: u32 = bitmap_get_width(img);
    let height: u32 = bitmap_get_height(img);
    assert((b % across) * size + size <= across * size) by (nonlinear_arith)
        requires
            b % across < across,
            0 < size,
    ;
    assert((b / across) * size + size == (b / across + 1) * size) by (nonlinear_arith);
    assert(size * size <= 1024) by (nonlinear_arith)
        requires
            0 < size <= 32,
    ;
    let left: u32 = (b % across) * size;
    let top: u32 = (b / across) * size;
    let count: u32 = size * size;
    let mut words: Vec<u16> = Vec::new();
    let mut p: u32 = 0;
    while p < count
        invariant
            p <= count,
            count == size * size,
            0 < size <= 32,
            0 < across,
            left == (b % across) * size,
            top == (b / across) * size,
            width == bitmap_width(*img),
            height == bitmap_height(*img),
            left + size <= width,
            top + size <= height,
            bitmap_width(*img) * bitmap_height(*img) <= u32::MAX,
            words@.len() == p,
            forall|q: int|
                0 <= q < p ==> #[trigger] words@[q] == if sprite {
                    sprite_color_word(
                        bitmap_pixels(*img)[block_point(b as int, q, across as int, size as int)],
                    )
                } else {
                    color_word(
                        bitmap_pixels(*img)[block_point(b as int, q, across as int, size as int)],
                    )
                },
        decreases count - p,
    {
        assert(p / size < size) by (nonlinear_arith)
            requires
                p < size * size,
                0 < size,
        ;
        assert(p % size < size);
        let pixel = bitmap_get_pixel(img, left + p % size, top + p / size);
        words.push(
            if sprite {
                to_sprite_color_word(pixel)
            } else {
                to_color_word(pixel)
            },
        );
        p += 1;
    }
    words
}

} // verus!
