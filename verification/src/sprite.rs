//! Sprites: 32x32 blocks of colour words with a position, and the ordered
//! table of sprites.

use vstd::prelude::*;
use crate::bitmap::AssetError;
use crate::bitmap::area;
use crate::bitmap::bitmap_get_height;
use crate::bitmap::bitmap_get_width;
use crate::bitmap::bitmap_height;
use crate::bitmap::bitmap_pixels;
use crate::bitmap::bitmap_width;
use crate::bitmap::block_point;
use crate::bitmap::read_block;
use crate::bitmap::sprite_color_word;
use crate::dump::bin_dump;
use crate::dump::bin_dump_bytes;
use crate::dump::hex_dump;
use crate::dump::hex_dump_text;

verus! {

/// Edge length of a sprite, in pixels.
pub const SPRITE_SIZE: u32 = 32;

/// Number of colour words in one sprite.
pub const SPRITE_DATA_SIZE: u32 = 1024;

/// Number of sprites in the table of a booted machine.
pub const SPRITES_NUM: u32 = 8;

/// The colour word that marks a sprite pixel as transparent, and the
/// coordinate that parks a sprite off screen.
pub const SPRITE_OFF: u16 = 0xffff;

/// A 32x32 sprite: its pixels row by row, and where its top-left corner sits
/// on the logical screen.
pub struct Sprite {
    x: u16,
    y: u16,
    pixels: Vec<u16>,
}

impl Clone for Sprite {
    fn clone(&self) -> (copy: Self)
        ensures
            copy@ == self@,
    {
        let pixels = self.pixels.clone();
        assert(pixels@ =~= self.pixels@);
        Sprite { x: self.x, y: self.y, pixels }
    }
}

/// What a sprite is, as plain values.
#[verifier::ext_equal]
pub struct SpriteView {
    pub x: u16,
    pub y: u16,
    pub pixels: Seq<u16>,
}

impl View for Sprite {
    type V = SpriteView;

    closed spec fn view(&self) -> SpriteView {
        SpriteView { x: self.x, y: self.y, pixels: self.pixels@ }
    }
}

impl SpriteView {
    /// The sprite parked off screen with every pixel transparent.
    pub open spec fn invisible() -> SpriteView {
        SpriteView {
            x: SPRITE_OFF,
            y: SPRITE_OFF,
            pixels: Seq::new(SPRITE_DATA_SIZE as nat, |i: int| SPRITE_OFF),
        }
    }
}

impl Sprite {
    /// A sprite holds exactly 1024 colour words.
    pub open spec fn wf(&self) -> bool {
        self@.pixels.len() == SPRITE_DATA_SIZE
    }

    /// The x coordinate of the sprite's left edge on the logical screen.
    pub fn x(&self) -> (x: u16)
        ensures
            x == self@.x,
    {
        self.x
    }

    /// The y coordinate of the sprite's top edge on the logical screen.
    pub fn y(&self) -> (y: u16)
        ensures
            y == self@.y,
    {
        self.y
    }

    /// The 1024 words of the sprite, row by row.
    pub fn pixels(&self) -> (pixels: &Vec<u16>)
        ensures
            pixels@ == self@.pixels,
    {
        &self.pixels
    }

    /// A sprite that shows nothing: parked at `(0xffff, 0xffff)`, every pixel
    /// transparent.
    pub fn invisible() -> (sprite: Sprite)
        ensures
            sprite.wf(),
            sprite@ == SpriteView::invisible(),
    {
        let pixels: Vec<u16> = vec![SPRITE_OFF; 1024];
        assert(pixels@ =~= SpriteView::invisible().pixels);
        Sprite { x: SPRITE_OFF, y: SPRITE_OFF, pixels }
    }
}

/// The ordered table of sprites.
pub struct SpriteMap {
    sprites: Vec<Sprite>,
}

impl View for SpriteMap {
    type V = Seq<SpriteView>;

    closed spec fn view(&self) -> Seq<SpriteView> {
        Seq::new(self.sprites@.len(), |i: int| self.sprites@[i]@)
    }
}

/// Every sprite of the sequence has 1024 words.
pub open spec fn sprites_wf(sprites: Seq<SpriteView>) -> bool {
    forall|s: int| 0 <= s < sprites.len() ==> (#[trigger] sprites[s]).pixels.len() == SPRITE_DATA_SIZE
}

/// The word that the sprite-pixel window shows at offset `addr`: pixel
/// `addr % 1024` of sprite `addr / 1024`.
pub open spec fn sprite_word(sprites: Seq<SpriteView>, addr: int) -> u16 {
    sprites[addr / 1024].pixels[addr % 1024]
}

/// The sprites after a write of `data` through the sprite-pixel window at
/// offset `addr`.
pub open spec fn sprites_with_word(sprites: Seq<SpriteView>, addr: int, data: u16) -> Seq<
    SpriteView,
> {
    let s = sprites[addr / 1024];
    sprites.update(addr / 1024, SpriteView { pixels: s.pixels.update(addr % 1024, data), ..s })
}

/// The coordinate register at offset `addr`: registers `2i` and `2i + 1` are
/// the x and the y of sprite `i`.
pub open spec fn sprite_reg(sprites: Seq<SpriteView>, addr: int) -> u16 {
    if addr % 2 == 0 {
        sprites[addr / 2].x
    } else {
        sprites[addr / 2].y
    }
}

/// The sprites after a write of `data` to the coordinate register at offset
/// `addr`.
pub open spec fn sprites_with_reg(sprites: Seq<SpriteView>, addr: int, data: u16) -> Seq<
    SpriteView,
> {
    let s = sprites[addr / 2];
    if addr % 2 == 0 {
        sprites.update(addr / 2, SpriteView { x: data, ..s })
    } else {
        sprites.update(addr / 2, SpriteView { y: data, ..s })
    }
}

/// Whether a bitmap of the given size provides 8 sprites: it holds at least
/// 8 whole 32x32 blocks, and its pixel count fits 32 bits.
pub open spec fn spritemap_fits(width: int, height: int) -> bool {
    &&& (width / 32) * (height / 32) >= 8
    &&& width * height <= u32::MAX
}

/// The sprites of a bitmap: its first eight 32x32 blocks, row by row from
/// the upper left, each parked off screen. Magenta pixels are transparent.
pub open spec fn loaded_sprites(pixels: Map<(int, int), (u8, u8, u8)>, width: int) -> Seq<
    SpriteView,
> {
    Seq::new(
        8,
        |s: int|
            SpriteView {
                x: SPRITE_OFF,
                y: SPRITE_OFF,
                pixels: Seq::new(
                    1024,
                    |p: int| sprite_color_word(pixels[block_point(s, p, width / 32, 32)]),
                ),
            },
    )
}

/// The pixel words of all the sprites, sprite after sprite.
pub open spec fn sprite_words(sprites: Seq<SpriteView>) -> Seq<u16> {
    Seq::new((sprites.len() * 1024) as nat, |k: int| sprites[k / 1024].pixels[k % 1024])
}

impl SpriteMap {
    pub open spec fn wf(&self) -> bool {
        sprites_wf(self@)
    }

    /// A table of `size` invisible sprites.
    pub fn new(size: usize) -> (map: SpriteMap)
        ensures
            map.wf(),
            map@ == Seq::new(size as nat, |s: int| SpriteView::invisible()),
    {
        let mut sprites: Vec<Sprite> = Vec::new();
        let mut s: usize = 0;
        while s < size
            invariant
                s <= size,
                sprites@.len() == s,
                forall|k: int| 0 <= k < s ==> (#[trigger] sprites@[k])@ == SpriteView::invisible(),
            decreases size - s,
        {
            sprites.push(Sprite::invisible());
            s += 1;
        }
        let map = SpriteMap { sprites };
        assert(map@ =~= Seq::new(size as nat, |s: int| SpriteView::invisible()));
        map
    }

    /// Number of sprites in the table.
    pub fn len(&self) -> (n: usize)
        ensures
            n == self@.len(),
    {
        self.sprites.len()
    }

    /// Reads one pixel word through the sprite-pixel window.
    pub fn get_sprite_word(&self, addr: u32) -> (word: u16)
        requires
            self.wf(),
            addr / 1024 < self@.len(),
        ensures
            word == sprite_word(self@, addr as int),
    {
        let s: usize = (addr / SPRITE_DATA_SIZE) as usize;
        let p: usize = (addr % SPRITE_DATA_SIZE) as usize;
        assert(self@[s as int] == self.sprites@[s as int]@);
        self.sprites[s].pixels[p]
    }

    /// Writes one pixel word through the sprite-pixel window.
    pub fn set_sprite_word(&mut self, addr: u32, data: u16)
        requires
            old(self).wf(),
            addr / 1024 < old(self)@.len(),
        ensures
            final(self).wf(),
            final(self)@ == sprites_with_word(old(self)@, addr as int, data),
    {
        let s: usize = (addr / SPRITE_DATA_SIZE) as usize;
        let p: usize = (addr % SPRITE_DATA_SIZE) as usize;
        assert(self@[s as int] == self.sprites@[s as int]@);
        self.sprites[s].pixels[p] = data;
        assert(self@ =~~= sprites_with_word(old(self)@, addr as int, data));
    }

    /// Reads a coordinate register: the x of sprite `addr / 2` where `addr`
    /// is even, its y where `addr` is odd.
    pub fn get_sprite_reg(&self, addr: u32) -> (word: u16)
        requires
            addr / 2 < self@.len(),
        ensures
            word == sprite_reg(self@, addr as int),
    {
        let s: usize = (addr / 2) as usize;
        assert(self@[s as int] == self.sprites@[s as int]@);
        let sprite = &self.sprites[s];
        if addr % 2 == 0 {
            sprite.x
        } else {
            sprite.y
        }
    }

    /// Writes a coordinate register: the x of sprite `addr / 2` where `addr`
    /// is even, its y where `addr` is odd.
    pub fn set_sprite_reg(&mut self, addr: u32, data: u16)
        requires
            addr / 2 < old(self)@.len(),
        ensures
            old(self).wf() ==> final(self).wf(),
            final(self)@ == sprites_with_reg(old(self)@, addr as int, data),
    {
        let s: usize = (addr / 2) as usize;
        assert(self@[s as int] == self.sprites@[s as int]@);
        if addr % 2 == 0 {
            self.sprites[s].x = data;
        } else {
            self.sprites[s].y = data;
        }
        assert(self@ =~~= sprites_with_reg(old(self)@, addr as int, data));
        assert(old(self).wf() ==> self.wf()) by {
            if old(self).wf() {
                assert forall|k: int| 0 <= k < self@.len() implies (#[trigger] self@[k]).pixels.len()
                    == SPRITE_DATA_SIZE by {
                    assert(old(self)@[k].pixels.len() == SPRITE_DATA_SIZE);
                }
            }
        }
    }

    /// Whether a bitmap provides 8 sprites, and so can be loaded.
    pub fn fits(img: &bmp::Image) -> (ok: bool)
        ensures
            ok == spritemap_fits(bitmap_width(*img), bitmap_height(*img)),
    {
        let width: u32 = bitmap_get_width(img);
        let height: u32 = bitmap_get_height(img);
        area(width / 32, height / 32) >= 8 && area(width, height) <= u32::MAX as u64
    }

    /// Converts a bitmap into a sprite table, where the bitmap fits; says
    /// why not where it does not.
    pub fn try_load(img: &bmp::Image) -> (loaded: Result<Self, AssetError>)
        ensures
            spritemap_fits(bitmap_width(*img), bitmap_height(*img)) ==> (loaded matches Ok(map)
                && map.wf() && map@ == loaded_sprites(bitmap_pixels(*img), bitmap_width(*img))),
            !spritemap_fits(bitmap_width(*img), bitmap_height(*img)) ==> (loaded matches Err(e)
                && e == AssetError::SpritemapSize),
    {
        if Self::fits(img) {
            Ok(Self::load(img))
        } else {
            Err(AssetError::SpritemapSize)
        }
    }

    /// Converts a bitmap into a sprite table of its first 8 sprites. The
    /// bitmap must provide at least that many; `fits` tells whether it does.
    pub fn load(img: &bmp::Image) -> (map: Self)
        requires
            spritemap_fits(bitmap_width(*img), bitmap_height(*img)),
        ensures
            map.wf(),
            map@ == loaded_sprites(bitmap_pixels(*img), bitmap_width(*img)),
    {
        let width: u32 = bitmap_get_width(img);
        let height: u32 = bitmap_get_height(img);
        let across: u32 = width / 32;
        let down: u32 = height / 32;
        assert(across > 0 && down > 0) by (nonlinear_arith)
            requires
                across * down >= 8,
        ;
        let mut sprites: Vec<Sprite> = Vec::new();
        let mut s: u32 = 0;
        while s < 8
            invariant
                s <= 8,
                width == bitmap_width(*img),
                height == bitmap_height(*img),
                across == width / 32,
                down == height / 32,
                across * down >= 8,
                across > 0,
                width * height <= u32::MAX,
                sprites@.len() == s,
                forall|k: int|
                    0 <= k < s ==> (#[trigger] sprites@[k])@ == loaded_sprites(
                        bitmap_pixels(*img),
                        width as int,
                    )[k],
            decreases 8 - s,
        {
            assert((s / across + 1) * 32 <= height) by (nonlinear_arith)
                requires
                    s < across * down,
                    across > 0,
                    down == height / 32,
            ;
            let pixels = read_block(img, s, across, 32, true);
            let sprite = Sprite { x: SPRITE_OFF, y: SPRITE_OFF, pixels };
            assert(sprite@ =~= loaded_sprites(bitmap_pixels(*img), width as int)[s as int]);
            sprites.push(sprite);
            s += 1;
        }
        let map = SpriteMap { sprites };
        assert(map@ =~= loaded_sprites(bitmap_pixels(*img), width as int));
        map
    }

    /// All the pixel words of the table, sprite after sprite.
    pub fn words(&self) -> (words: Vec<u16>)
        requires
            self.wf(),
        ensures
            words@ == sprite_words(self@),
    {
        let n: usize = self.sprites.len();
        let mut words: Vec<u16> = Vec::new();
        let mut s: usize = 0;
        while s < n
            invariant
                self.wf(),
                n == self@.len(),
                s <= n,
                words@.len() == s * 1024,
                forall|k: int|
                    0 <= k < words@.len() ==> words@[k] == self@[k / 1024].pixels[k % 1024],
            decreases n - s,
        {
            assert(self@[s as int] == self.sprites@[s as int]@);
            let mut p: usize = 0;
            while p < 1024
                invariant
                    self.wf(),
                    n == self@.len(),
                    s < n,
                    p <= 1024,
                    self@[s as int] == self.sprites@[s as int]@,
                    words@.len() == s * 1024 + p,
                    forall|k: int|
                        0 <= k < words@.len() ==> words@[k] == self@[k / 1024].pixels[k % 1024],
                decreases 1024 - p,
            {
                words.push(self.sprites[s].pixels[p]);
                p += 1;
            }
            s += 1;
        }
        assert(words@ =~= sprite_words(self@));
        words
    }

    /// The binary dump of the table: for every pixel word of every sprite
    /// its low byte, then its high byte.
    pub fn save_bin_map(&self) -> (bytes: Vec<u8>)
        requires
            self.wf(),
            2048 * self@.len() <= usize::MAX,
        ensures
            bytes@ == bin_dump(sprite_words(self@)),
    {
        let words = self.words();
        bin_dump_bytes(&words)
    }

    /// The hex listing of the table: the line `@0`, then for each sprite
    /// its 1024 words, one to a line as four hex digits, and an empty line.
    pub fn save_hex_map(&self) -> (text: Vec<u8>)
        requires
            self.wf(),
            3 + 6144 * self@.len() <= usize::MAX,
        ensures
            text@ == hex_dump(sprite_words(self@), 1024, 0x0a),
    {
        let words = self.words();
        hex_dump_text(&words, 1024, 0x0a)
    }
}

} // verus!
