//! Tiles: 8x8 blocks of colour words, and the ordered map of tiles that the
//! frame buffer points into.

use vstd::prelude::*;
use crate::bitmap::AssetError;
use crate::bitmap::area;
use crate::bitmap::bitmap_get_height;
use crate::bitmap::bitmap_get_width;
use crate::bitmap::bitmap_height;
use crate::bitmap::bitmap_pixels;
use crate::bitmap::bitmap_width;
use crate::bitmap::block_point;
use crate::bitmap::color_word;
use crate::bitmap::read_block;
use crate::dump::bin_dump;
use crate::dump::bin_dump_bytes;
use crate::dump::flat;
use crate::dump::hex_dump;
use crate::dump::hex_dump_text;

verus! {

/// Edge length of a tile, in pixels.
pub const TILE_SIZE: u32 = 8;

/// Number of colour words in one tile.
pub const TILE_DATA_SIZE: u32 = 64;

/// Number of tiles in the map of a booted machine.
pub const TILES_NUM: u32 = 128;

/// An 8x8 tile of colour words, stored row by row.
pub struct Tile {
    pixels: Vec<u16>,
}

impl Clone for Tile {
    fn clone(&self) -> (copy: Self)
        ensures
            copy@ == self@,
    {
        let pixels = self.pixels.clone();
        assert(pixels@ =~= self.pixels@);
        Tile { pixels }
    }
}

impl View for Tile {
    type V = Seq<u16>;

    closed spec fn view(&self) -> Seq<u16> {
        self.pixels@
    }
}

impl Tile {
    /// A tile holds exactly 64 colour words.
    pub open spec fn wf(&self) -> bool {
        self@.len() == TILE_DATA_SIZE
    }

    /// The tile whose 64 words are all `word`.
    pub open spec fn filled(word: u16) -> Seq<u16> {
        Seq::new(TILE_DATA_SIZE as nat, |i: int| word)
    }

    fn uniform(word: u16) -> (tile: Tile)
        ensures
            tile.wf(),
            tile@ == Self::filled(word),
    {
        let pixels: Vec<u16> = vec![word; 64];
        assert(pixels@ =~= Self::filled(word));
        Tile { pixels }
    }

    /// The 64 words of the tile, row by row.
    pub fn pixels(&self) -> (pixels: &Vec<u16>)
        ensures
            pixels@ == self@,
    {
        &self.pixels
    }

    /// A tile of black pixels (every word zero).
    pub fn black() -> (tile: Tile)
        ensures
            tile.wf(),
            tile@ == Self::filled(0),
    {
        Self::uniform(0)
    }

    /// A tile whose words are all `0xffff`.
    pub fn white() -> (tile: Tile)
        ensures
            tile.wf(),
            tile@ == Self::filled(0xffff),
    {
        Self::uniform(0xffff)
    }
}

/// The ordered sequence of tiles. Its view is the sequence of the tiles'
/// pixel rows, one `Seq<u16>` of 64 words per tile.
pub struct TileMap {
    tiles: Vec<Tile>,
}

impl View for TileMap {
    type V = Seq<Seq<u16>>;

    closed spec fn view(&self) -> Seq<Seq<u16>> {
        Seq::new(self.tiles@.len(), |i: int| self.tiles@[i]@)
    }
}

/// Every tile of the sequence has 64 words.
pub open spec fn tiles_wf(tiles: Seq<Seq<u16>>) -> bool {
    forall|t: int| 0 <= t < tiles.len() ==> (#[trigger] tiles[t]).len() == TILE_DATA_SIZE
}

/// The word that the tile window shows at offset `addr`: pixel `addr % 64`
/// of tile `addr / 64`.
pub open spec fn tile_word(tiles: Seq<Seq<u16>>, addr: int) -> u16 {
    tiles[addr / 64][addr % 64]
}

/// The tiles after a write of `data` through the tile window at offset `addr`.
pub open spec fn tiles_with_word(tiles: Seq<Seq<u16>>, addr: int, data: u16) -> Seq<Seq<u16>> {
    tiles.update(addr / 64, tiles[addr / 64].update(addr % 64, data))
}

/// Whether a bitmap of the given size resolves to exactly 128 tiles: it
/// holds 128 whole 8x8 blocks, and not the pixels of a 129th.
pub open spec fn tilemap_fits(width: int, height: int) -> bool {
    &&& (width / 8) * (height / 8) == 128
    &&& (width * height) / 64 == 128
}

/// The tiles of a bitmap: its 8x8 blocks, row by row from the upper left.
pub open spec fn loaded_tiles(pixels: Map<(int, int), (u8, u8, u8)>, width: int) -> Seq<Seq<u16>> {
    Seq::new(
        128,
        |t: int| Seq::new(64, |p: int| color_word(pixels[block_point(t, p, width / 8, 8)])),
    )
}

impl TileMap {
    pub open spec fn wf(&self) -> bool {
        tiles_wf(self@)
    }

    /// A map of `size` black tiles.
    pub fn new(size: usize) -> (map: TileMap)
        ensures
            map.wf(),
            map@ == Seq::new(size as nat, |t: int| Tile::filled(0)),
    {
        let mut tiles: Vec<Tile> = Vec::new();
        let mut t: usize = 0;
        while t < size
            invariant
                t <= size,
                tiles@.len() == t,
                forall|k: int| 0 <= k < t ==> (#[trigger] tiles@[k])@ == Tile::filled(0),
            decreases size - t,
        {
            tiles.push(Tile::black());
            t += 1;
        }
        let map = TileMap { tiles };
        assert(map@ =~= Seq::new(size as nat, |t: int| Tile::filled(0)));
        map
    }

    /// Number of tiles in the map.
    pub fn len(&self) -> (n: usize)
        ensures
            n == self@.len(),
    {
        self.tiles.len()
    }

    /// Reads one pixel word through the tile window.
    pub fn get_tile_word(&self, addr: u32) -> (word: u16)
        requires
            self.wf(),
            addr / 64 < self@.len(),
        ensures
            word == tile_word(self@, addr as int),
    {
        let t: usize = (addr / TILE_DATA_SIZE) as usize;
        let p: usize = (addr % TILE_DATA_SIZE) as usize;
        assert(self@[t as int] == self.tiles@[t as int]@);
        self.tiles[t].pixels[p]
    }

    /// Writes one pixel word through the tile window.
    pub fn set_tile_word(&mut self, addr: u32, data: u16)
        requires
            old(self).wf(),
            addr / 64 < old(self)@.len(),
        ensures
            final(self).wf(),
            final(self)@ == tiles_with_word(old(self)@, addr as int, data),
    {
        let t: usize = (addr / TILE_DATA_SIZE) as usize;
        let p: usize = (addr % TILE_DATA_SIZE) as usize;
        assert(self@[t as int] == self.tiles@[t as int]@);
        self.tiles[t].pixels[p] = data;
        assert(self@ =~~= tiles_with_word(old(self)@, addr as int, data));
    }

    /// Whether a bitmap resolves to exactly 128 tiles, and so can be loaded.
    pub fn fits(img: &bmp::Image) -> (ok: bool)
        ensures
            ok == tilemap_fits(bitmap_width(*img), bitmap_height(*img)),
    {
        let width: u32 = bitmap_get_width(img);
        let height: u32 = bitmap_get_height(img);
        area(width / 8, height / 8) == 128 && area(width, height) / 64 == 128
    }

    /// Converts a bitmap into a tile map, where the bitmap fits; says why
    /// not where it does not.
    pub fn try_load(img: &bmp::Image) -> (loaded: Result<Self, AssetError>)
        ensures
            tilemap_fits(bitmap_width(*img), bitmap_height(*img)) ==> (loaded matches Ok(map)
                && map.wf() && map@ == loaded_tiles(bitmap_pixels(*img), bitmap_width(*img))),
            !tilemap_fits(bitmap_width(*img), bitmap_height(*img)) ==> (loaded matches Err(e) && e
                == AssetError::TilemapSize),
    {
        if Self::fits(img) {
            Ok(Self::load(img))
        } else {
            Err(AssetError::TilemapSize)
        }
    }

    /// Converts a bitmap into a tile map. The bitmap must resolve to exactly
    /// 128 tiles; `fits` tells whether it does.
    pub fn load(img: &bmp::Image) -> (map: Self)
        requires
            tilemap_fits(bitmap_width(*img), bitmap_height(*img)),
        ensures
            map.wf(),
            map@ == loaded_tiles(bitmap_pixels(*img), bitmap_width(*img)),
    {
        let width: u32 = bitmap_get_width(img);
        let height: u32 = bitmap_get_height(img);
        let across: u32 = width / 8;
        let down: u32 = height / 8;
        assert(across > 0 && down > 0) by (nonlinear_arith)
            requires
                across * down == 128,
        ;
        let mut tiles: Vec<Tile> = Vec::new();
        let mut t: u32 = 0;
        while t < 128
            invariant
                t <= 128,
                width == bitmap_width(*img),
                height == bitmap_height(*img),
                across == width / 8,
                down == height / 8,
                across * down == 128,
                across > 0,
                width * height <= u32::MAX,
                tiles@.len() == t,
                forall|k: int|
                    0 <= k < t ==> (#[trigger] tiles@[k])@ == loaded_tiles(
                        bitmap_pixels(*img),
                        width as int,
                    )[k],
            decreases 128 - t,
        {
            assert((t / across + 1) * 8 <= height) by (nonlinear_arith)
                requires
                    t < across * down,
                    across > 0,
                    down == height / 8,
            ;
            let pixels = read_block(img, t, across, 8, false);
            let tile = Tile { pixels };
            assert(tile@ =~= loaded_tiles(bitmap_pixels(*img), width as int)[t as int]);
            tiles.push(tile);
            t += 1;
        }
        let map = TileMap { tiles };
        assert(map@ =~= loaded_tiles(bitmap_pixels(*img), width as int));
        map
    }

    /// All the words of the map, tile after tile.
    pub fn words(&self) -> (words: Vec<u16>)
        requires
            self.wf(),
        ensures
            words@ == flat(self@, 64),
    {
        let n: usize = self.tiles.len();
        let mut words: Vec<u16> = Vec::new();
        let mut t: usize = 0;
        while t < n
            invariant
                self.wf(),
                n == self@.len(),
                t <= n,
                words@.len() == t * 64,
                forall|k: int| 0 <= k < words@.len() ==> words@[k] == self@[k / 64][k % 64],
            decreases n - t,
        {
            assert(self@[t as int] == self.tiles@[t as int]@);
            let mut p: usize = 0;
            while p < 64
                invariant
                    self.wf(),
                    n == self@.len(),
                    t < n,
                    p <= 64,
                    self@[t as int] == self.tiles@[t as int]@,
                    words@.len() == t * 64 + p,
                    forall|k: int| 0 <= k < words@.len() ==> words@[k] == self@[k / 64][k % 64],
                decreases 64 - p,
            {
                words.push(self.tiles[t].pixels[p]);
                p += 1;
            }
            t += 1;
        }
        assert(words@ =~= flat(self@, 64));
        words
    }

    /// The binary dump of the map: for every word of every tile its low
    /// byte, then its high byte.
    pub fn save_bin_map(&self) -> (bytes: Vec<u8>)
        requires
            self.wf(),
            128 * self@.len() <= usize::MAX,
        ensures
            bytes@ == bin_dump(flat(self@, 64)),
    {
        let words = self.words();
        bin_dump_bytes(&words)
    }

    /// The hex listing of the map: the line `@0`, then one line for each
    /// tile with its 64 words, each as four hex digits followed by a space.
    pub fn save_hex_map(&self) -> (text: Vec<u8>)
        requires
            self.wf(),
            3 + 384 * self@.len() <= usize::MAX,
        ensures
            text@ == hex_dump(flat(self@, 64), 64, 0x20),
    {
        let words = self.words();
        hex_dump_text(&words, 64, 0x20)
    }
}

} // verus!
