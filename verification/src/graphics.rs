//! The rasterizer: turns a snapshot of the frame buffer, the tile map, the
//! sprite table and the scroll and scale registers into a frame, and says
//! how the host's events are to be answered.
//!
//! A frame is stated pixel by pixel. The physical pixel `(x, y)` shows the
//! logical pixel `(x / 2^n, y / 2^n)`, where `n` is the scale register. A
//! logical pixel shows the topmost sprite pixel that covers it and is not
//! transparent, and the tile plane where there is none. The tile plane is
//! the frame buffer's grid of tiles, moved right and down by the scroll
//! registers and wrapped at the edges of the logical frame.

use vstd::prelude::*;
use vstd::arithmetic::power2::pow2;
use vstd::arithmetic::power2::lemma2_to64;
use vstd::arithmetic::power2::lemma_pow2_strictly_increases;
use vstd::arithmetic::power2::lemma_pow2_pos;
use vstd::arithmetic::div_mod::lemma_basic_div;
use vstd::arithmetic::div_mod::lemma_div_nonincreasing;
use vstd::bits::lemma_u32_shr_is_div;
use crate::canvas::Canvas;
use crate::canvas::canvas_get;
use crate::canvas::canvas_height;
use crate::canvas::canvas_new;
use crate::canvas::canvas_pixels;
use crate::canvas::canvas_put;
use crate::canvas::canvas_raw;
use crate::canvas::canvas_width;
use crate::canvas::points;
use crate::canvas::raw_layout;
use crate::frame_buffer::FrameBuffer;
use crate::frame_buffer::FrameBufferView;
use crate::memory::FRAME_HEIGHT;
use crate::memory::FRAME_WIDTH;
use crate::sprite::SpriteMap;
use crate::sprite::SpriteView;
use crate::sprite::sprites_wf;
use crate::tile::TileMap;
use crate::tile::tiles_wf;

verus! {

/// Width of the window, in physical pixels. Frames are clipped to it.
pub const SCREEN_WIDTH: u32 = 640;

/// Height of the window, in physical pixels. Frames are clipped to it.
pub const SCREEN_HEIGHT: u32 = 480;

/// The colour of a pixel word: red in bits 0..3, green in bits 4..7, blue in
/// bits 8..11, each scaled by 16, and full alpha.
pub open spec fn color_of(word: u16) -> (u8, u8, u8, u8) {
    (
        ((word % 16) * 16) as u8,
        (((word / 16) % 16) * 16) as u8,
        (((word / 256) % 16) * 16) as u8,
        255u8,
    )
}

/// Whether a sprite's pixel word is transparent: bits 12..15 all set.
pub open spec fn transparent(word: u16) -> bool {
    word >= 0xf000
}

/// Whether a sprite covers the logical pixel `(lx, ly)`. Sprites do not wrap.
pub open spec fn covers(sprite: SpriteView, lx: int, ly: int) -> bool {
    &&& sprite.x <= lx < sprite.x + 32
    &&& sprite.y <= ly < sprite.y + 32
}

/// The word that the first `count` sprites show at the logical pixel
/// `(lx, ly)`, if any: that of the last of them that covers the pixel with a
/// word that is not transparent.
pub open spec fn sprite_layer(sprites: Seq<SpriteView>, lx: int, ly: int, count: nat) -> Option<u16>
    decreases count,
{
    if count == 0 {
        None
    } else {
        let sprite = sprites[count - 1];
        let word = sprite.pixels[(lx - sprite.x) + (ly - sprite.y) * 32];
        if covers(sprite, lx, ly) && !transparent(word) {
            Some(word)
        } else {
            sprite_layer(sprites, lx, ly, (count - 1) as nat)
        }
    }
}

/// Whether every tile pointer in the packed words names one of `tiles` tiles.
pub open spec fn pointers_valid(words: Seq<u16>, tiles: nat) -> bool {
    forall|i: int| 0 <= i < words.len() ==> (#[trigger] words[i]) % 256 < tiles && words[i] / 256 < tiles
}

/// A snapshot of everything that a frame is made from.
pub struct Scene {
    pub frame_buffer: FrameBufferView,
    pub tile_map: Seq<Seq<u16>>,
    pub sprite_map: Seq<SpriteView>,
    pub hscroll: u16,
    pub vscroll: u16,
    pub scale: u16,
}

impl Scene {
    /// The frame buffer covers the logical frame, and tiles and sprites have
    /// their sizes.
    pub open spec fn wf(self) -> bool {
        &&& self.frame_buffer.wf()
        &&& self.frame_buffer.width == FRAME_WIDTH / 8
        &&& self.frame_buffer.height == FRAME_HEIGHT / 8
        &&& tiles_wf(self.tile_map)
        &&& sprites_wf(self.sprite_map)
        &&& self.sprite_map.len() <= 0x10000
    }

    /// The word that the tile plane shows at the logical pixel `(lx, ly)`.
    pub open spec fn tile_plane(self, lx: int, ly: int) -> u16 {
        let tx = (lx - self.hscroll) % (FRAME_WIDTH as int);
        let ty = (ly - self.vscroll) % (FRAME_HEIGHT as int);
        let tile = self.frame_buffer.tile(tx / 8, ty / 8);
        self.tile_map[tile as int][tx % 8 + (ty % 8) * 8]
    }

    /// The colour of the logical pixel `(lx, ly)`.
    pub open spec fn logical_color(self, lx: int, ly: int) -> (u8, u8, u8, u8) {
        match sprite_layer(self.sprite_map, lx, ly, self.sprite_map.len()) {
            Some(word) => color_of(word),
            None => color_of(self.tile_plane(lx, ly)),
        }
    }

    /// The colour of the physical pixel `(x, y)`.
    pub open spec fn color(self, x: int, y: int) -> (u8, u8, u8, u8) {
        let block = pow2(self.scale as nat) as int;
        self.logical_color(x / block, y / block)
    }
}

/// The window: the physical pixels that a frame paints.
pub open spec fn in_window(p: (int, int)) -> bool {
    0 <= p.0 < SCREEN_WIDTH && 0 <= p.1 < SCREEN_HEIGHT
}

/// The canvas after the first `n` pixels of the window, counted row by row,
/// have been painted with the scene.
pub open spec fn painted(
    before: Map<(int, int), (u8, u8, u8, u8)>,
    scene: Scene,
    n: int,
) -> Map<(int, int), (u8, u8, u8, u8)> {
    Map::new(
        |p: (int, int)| before.dom().contains(p),
        |p: (int, int)|
            if in_window(p) && p.1 * SCREEN_WIDTH + p.0 < n {
                scene.color(p.0, p.1)
            } else {
                before[p]
            },
    )
}

/// The canvas after a frame: every pixel of the window shows the scene, and
/// what lies outside the window is as before.
pub open spec fn rendered(
    before: Map<(int, int), (u8, u8, u8, u8)>,
    scene: Scene,
) -> Map<(int, int), (u8, u8, u8, u8)> {
    painted(before, scene, SCREEN_WIDTH * SCREEN_HEIGHT)
}

/// Why no frame was drawn.
#[derive(Clone, Copy, Debug, PartialEq, Eq, Structural)]
pub enum RenderError {
    /// A cell of the frame buffer points past the end of the tile map.
    TilePointer,
}

/// What the host reports to the rasterizer.
#[derive(Clone, Copy, Debug, PartialEq, Eq, Structural)]
pub enum Event {
    /// An update tick.
    Update,
    /// The window wants to be drawn.
    Render,
    /// A key with the given code went down.
    KeyPress(u16),
    /// A key with the given code came up.
    KeyRelease(u16),
    /// Anything else.
    Other,
}

/// What the host is to do about an event.
#[derive(Clone, Copy, Debug, PartialEq, Eq, Structural)]
pub enum Action {
    /// Compose a new frame from the shared state; ask the window to close
    /// first where `close` is set.
    Refresh { close: bool },
    /// Show the latest frame.
    Present,
    /// Append the key code to the input queue.
    Enqueue(u16),
    /// Nothing.
    Ignore,
}

/// The answer to each event. On an update tick a window that is not meant
/// to stay open closes once the program has finished.
pub open spec fn reaction(event: Event, finished: bool, stay_open: bool) -> Action {
    match event {
        Event::Update => Action::Refresh { close: !stay_open && finished },
        Event::Render => Action::Present,
        Event::KeyPress(key) => Action::Enqueue(key),
        Event::KeyRelease(key) => Action::Ignore,
        Event::Other => Action::Ignore,
    }
}

/// Decodes a pixel word into its colour.
pub fn decode_color(word: u16) -> (color: (u8, u8, u8, u8))
    ensures
        color == color_of(word),
{
    let red: u16 = (word % 16) * 16;
    let green: u16 = ((word / 16) % 16) * 16;
    let blue: u16 = ((word / 256) % 16) * 16;
    (red as u8, green as u8, blue as u8, 255)
}

/// The logical coordinate that a physical coordinate inside the window shows
/// at the given scale.
fn logical(physical: u32, scale: u16) -> (l: u32)
    requires
        physical < 0x10000,
    ensures
        l == physical as int / (pow2(scale as nat) as int),
        l <= physical,
{
    proof {
        lemma2_to64();
        lemma_pow2_pos(scale as nat);
        lemma_div_nonincreasing(physical as int, pow2(scale as nat) as int);
    }
    if scale >= 16 {
        proof {
            if scale > 16 {
                lemma_pow2_strictly_increases(16, scale as nat);
            }
            lemma_basic_div(physical as int, pow2(scale as nat) as int);
        }
        0
    } else {
        proof {
            lemma_u32_shr_is_div(physical, scale as u32);
        }
        physical >> (scale as u32)
    }
}

/// Whether every tile pointer in the frame buffer names a tile of the map.
fn pointers_in_range(fb: &FrameBuffer, tiles: usize) -> (ok: bool)
    requires
        fb.wf(),
    ensures
        ok == pointers_valid(fb@.words, tiles as nat),
{
    let n: usize = fb.len();
    let mut i: usize = 0;
    while i < n
        invariant
            n == fb@.words.len(),
            n <= u32::MAX,
            i <= n,
            forall|k: int|
                0 <= k < i ==> (#[trigger] fb@.words[k]) % 256 < tiles && fb@.words[k] / 256
                    < tiles,
        decreases n - i,
    {
        let word: u16 = fb.get_tile_pair(i as u32);
        if (word % 256) as usize >= tiles || (word / 256) as usize >= tiles {
            assert(!(fb@.words[i as int] % 256 < tiles && fb@.words[i as int] / 256 < tiles));
            return false;
        }
        i += 1;
    }
    true
}

fn tile_plane_word(
    fb: &FrameBuffer,
    tile_map: &TileMap,
    hscroll: u16,
    vscroll: u16,
    lx: u32,
    ly: u32,
    Ghost(scene): Ghost<Scene>,
) -> (word: u16)
    requires
        scene.wf(),
        scene.frame_buffer == fb@,
        scene.tile_map == tile_map@,
        scene.hscroll == hscroll,
        scene.vscroll == vscroll,
        pointers_valid(fb@.words, tile_map@.len()),
        tile_map.wf(),
        fb.wf(),
        lx < FRAME_WIDTH,
        ly < FRAME_HEIGHT,
    ensures
        word == scene.tile_plane(lx as int, ly as int),
{
    let tx: u32 = (lx + 0x10000 - hscroll as u32) % FRAME_WIDTH;
    let ty: u32 = (ly + 0x10000 - vscroll as u32) % FRAME_HEIGHT;
    assert(tx == (lx - hscroll) % (FRAME_WIDTH as int));
    assert(ty == (ly - vscroll) % (FRAME_HEIGHT as int));
    let cx: u32 = tx / 8;
    let cy: u32 = ty / 8;
    proof {
        assert(fb@.width * fb@.height == 8192) by (nonlinear_arith)
            requires
                fb@.width == 128,
                fb@.height == 64,
        ;
        assert(cy * fb@.width == cy * 128) by (nonlinear_arith)
            requires
                fb@.width == 128,
        ;
        let idx = cx + cy * fb@.width;
        assert(0 <= idx / 2 < fb@.words.len());
        assert(fb@.words[idx / 2] % 256 < tile_map@.len() && fb@.words[idx / 2] / 256
            < tile_map@.len());
    }
    let tile: u8 = fb.get_tile(cx, cy);
    let addr: u32 = (tile as u32) * 64 + tx % 8 + (ty % 8) * 8;
    assert(addr / 64 == tile && addr % 64 == tx % 8 + (ty % 8) * 8);
    tile_map.get_tile_word(addr)
}

fn sprite_layer_word(sprite_map: &SpriteMap, lx: u32, ly: u32) -> (shown: Option<u16>)
    requires
        sprite_map.wf(),
        sprite_map@.len() <= 0x10000,
        lx < 0x10000,
        ly < 0x10000,
    ensures
        shown == sprite_layer(sprite_map@, lx as int, ly as int, sprite_map@.len()),
{
    let n: usize = sprite_map.len();
    let mut shown: Option<u16> = None;
    let mut k: usize = 0;
    while k < n
        invariant
            n == sprite_map@.len(),
            n <= 0x10000,
            k <= n,
            sprite_map.wf(),
            lx < 0x10000,
            ly < 0x10000,
            shown == sprite_layer(sprite_map@, lx as int, ly as int, k as nat),
        decreases n - k,
    {
        let sx: u32 = sprite_map.get_sprite_reg(2 * (k as u32)) as u32;
        let sy: u32 = sprite_map.get_sprite_reg(2 * (k as u32) + 1) as u32;
        if sx <= lx && lx < sx + 32 && sy <= ly && ly < sy + 32 {
            let word: u16 = sprite_map.get_sprite_word(
                (k as u32) * 1024 + (lx - sx) + (ly - sy) * 32,
            );
            if word < 0xf000 {
                shown = Some(word);
            }
        }
        k += 1;
    }
    shown
}

/// The rasterizer, with the canvas that it draws frames into.
pub struct Graphics {
    canvas: Canvas,
}

impl Graphics {
    /// The pixels of the canvas: the `(r, g, b, a)` at each `(x, y)`.
    pub closed spec fn pixels(&self) -> Map<(int, int), (u8, u8, u8, u8)> {
        canvas_pixels(self.canvas)
    }

    /// The canvas is `size().0` pixels wide and `size().1` pixels high.
    pub closed spec fn size(&self) -> (int, int) {
        (canvas_width(self.canvas), canvas_height(self.canvas))
    }

    /// The canvas has the size of the logical frame.
    pub open spec fn wf(&self) -> bool {
        &&& self.size() == (FRAME_WIDTH as int, FRAME_HEIGHT as int)
        &&& self.pixels().dom() == points(FRAME_WIDTH as int, FRAME_HEIGHT as int)
    }

    /// A rasterizer whose canvas is cleared to zero.
    pub fn new() -> (graphics: Graphics)
        ensures
            graphics.wf(),
            forall|p: (int, int)|
                graphics.pixels().dom().contains(p) ==> graphics.pixels()[p] == (
                    0u8,
                    0u8,
                    0u8,
                    0u8,
                ),
    {
        let graphics = Graphics { canvas: canvas_new(FRAME_WIDTH, FRAME_HEIGHT) };
        assert(graphics.pixels().dom() =~= points(FRAME_WIDTH as int, FRAME_HEIGHT as int));
        graphics
    }

    /// The pixel at `(x, y)`, or `None` for a point outside the canvas.
    pub fn get_pixel(&self, x: u32, y: u32) -> (pixel: Option<(u8, u8, u8, u8)>)
        requires
            self.wf(),
        ensures
            pixel == if x < FRAME_WIDTH && y < FRAME_HEIGHT {
                Some(self.pixels()[(x as int, y as int)])
            } else {
                None
            },
    {
        if x < FRAME_WIDTH && y < FRAME_HEIGHT {
            Some(canvas_get(&self.canvas, x, y))
        } else {
            None
        }
    }

    /// The bytes of the canvas, for the host to show: four for each pixel in
    /// the order red, green, blue, alpha, the pixels row by row from the top.
    pub fn as_raw(&self) -> (bytes: &Vec<u8>)
        requires
            self.wf(),
        ensures
            bytes@ == raw_layout(self.pixels(), FRAME_WIDTH as int, FRAME_HEIGHT as int),
    {
        canvas_raw(&self.canvas)
    }

    /// Composes a frame from a snapshot of the shared state and paints it
    /// onto the window part of the canvas. Where a cell of the frame buffer
    /// points past the end of the tile map, no frame is drawn.
    pub fn update(
        &mut self,
        frame_buffer: &FrameBuffer,
        tile_map: &TileMap,
        sprite_map: &SpriteMap,
        hscroll: u16,
        vscroll: u16,
        scale: u16,
    ) -> (done: Result<(), RenderError>)
        requires
            old(self).wf(),
            (Scene {
                frame_buffer: frame_buffer@,
                tile_map: tile_map@,
                sprite_map: sprite_map@,
                hscroll,
                vscroll,
                scale,
            }).wf(),
        ensures
            final(self).wf(),
            pointers_valid(frame_buffer@.words, tile_map@.len()) ==> done == Ok::<
                (),
                RenderError,
            >(()) && final(self).pixels() == rendered(
                old(self).pixels(),
                Scene {
                    frame_buffer: frame_buffer@,
                    tile_map: tile_map@,
                    sprite_map: sprite_map@,
                    hscroll,
                    vscroll,
                    scale,
                },
            ),
            !pointers_valid(frame_buffer@.words, tile_map@.len()) ==> done == Err::<
                (),
                RenderError,
            >(RenderError::TilePointer) && final(self).pixels() == old(self).pixels(),
    {
        let ghost scene = Scene {
            frame_buffer: frame_buffer@,
            tile_map: tile_map@,
            sprite_map: sprite_map@,
            hscroll,
            vscroll,
            scale,
        };
        let ghost before = self.pixels();
        if !pointers_in_range(frame_buffer, tile_map.len()) {
            return Err(RenderError::TilePointer);
        }
        assert(self.pixels() =~= painted(before, scene, 0));
        let mut y: u32 = 0;
        while y < SCREEN_HEIGHT
            invariant
                y <= SCREEN_HEIGHT,
                self.size() == (FRAME_WIDTH as int, FRAME_HEIGHT as int),
                before.dom() == points(FRAME_WIDTH as int, FRAME_HEIGHT as int),
                self.pixels() == painted(before, scene, y * SCREEN_WIDTH),
                scene.wf(),
                scene.frame_buffer == frame_buffer@,
                scene.tile_map == tile_map@,
                scene.sprite_map == sprite_map@,
                scene.hscroll == hscroll,
                scene.vscroll == vscroll,
                scene.scale == scale,
                frame_buffer.wf(),
                tile_map.wf(),
                sprite_map.wf(),
                pointers_valid(frame_buffer@.words, tile_map@.len()),
            decreases SCREEN_HEIGHT - y,
        {
            let ly: u32 = logical(y, scale);
            let mut x: u32 = 0;
            while x < SCREEN_WIDTH
                invariant
                    x <= SCREEN_WIDTH,
                    y < SCREEN_HEIGHT,
                    ly == y as int / (pow2(scale as nat) as int),
                    ly <= y,
                    self.size() == (FRAME_WIDTH as int, FRAME_HEIGHT as int),
                    before.dom() == points(FRAME_WIDTH as int, FRAME_HEIGHT as int),
                    self.pixels() == painted(before, scene, y * SCREEN_WIDTH + x),
                    scene.wf(),
                    scene.frame_buffer == frame_buffer@,
                    scene.tile_map == tile_map@,
                    scene.sprite_map == sprite_map@,
                    scene.hscroll == hscroll,
                    scene.vscroll == vscroll,
                    scene.scale == scale,
                    frame_buffer.wf(),
                    tile_map.wf(),
                    sprite_map.wf(),
                    pointers_valid(frame_buffer@.words, tile_map@.len()),
                decreases SCREEN_WIDTH - x,
            {
                let lx: u32 = logical(x, scale);
                let word: u16 = match sprite_layer_word(sprite_map, lx, ly) {
                    Some(word) => word,
                    None => tile_plane_word(
                        frame_buffer,
                        tile_map,
                        hscroll,
                        vscroll,
                        lx,
                        ly,
                        Ghost(scene),
                    ),
                };
                let color = decode_color(word);
                assert(color == scene.color(x as int, y as int));
                canvas_put(&mut self.canvas, x, y, color);
                assert(self.pixels() =~= painted(before, scene, y * SCREEN_WIDTH + x + 1));
                x += 1;
            }
            y += 1;
        }
        assert(self.pixels().dom() =~= before.dom());
        Ok(())
    }

    /// Says what the host is to do about an event, given whether the program
    /// has finished and whether the window is meant to stay open after that.
    pub fn react(event: Event, finished: bool, stay_open: bool) -> (action: Action)
        ensures
            action == reaction(event, finished, stay_open),
    {
        match event {
            Event::Update => Action::Refresh { close: !stay_open && finished },
            Event::Render => Action::Present,
            Event::KeyPress(key) => Action::Enqueue(key),
            Event::KeyRelease(_) => Action::Ignore,
            Event::Other => Action::Ignore,
        }
    }
}

/// A frame is a function of the snapshot alone: inside the window, the
/// canvas after a frame shows the scene, whatever it showed before. So two
/// frames composed from equal snapshots are equal there.
pub proof fn lemma_frame_is_function_of_scene(
    before_a: Map<(int, int), (u8, u8, u8, u8)>,
    before_b: Map<(int, int), (u8, u8, u8, u8)>,
    scene: Scene,
)
    ensures
        forall|p: (int, int)|
            in_window(p) && before_a.dom().contains(p) ==> #[trigger] rendered(before_a, scene)[p]
                == scene.color(p.0, p.1),
        forall|p: (int, int)|
            in_window(p) && before_a.dom().contains(p) && before_b.dom().contains(p)
                ==> #[trigger] rendered(before_a, scene)[p] == rendered(before_b, scene)[p],
        before_a == before_b ==> rendered(before_a, scene) == rendered(before_b, scene),
{
}

/// The tile plane wraps: two scenes that differ only in their scroll
/// registers, by a multiple of the frame's width in the horizontal one and
/// by a multiple of its height in the vertical one, give the same frame.
pub proof fn lemma_scroll_wraps(
    scene: Scene,
    other: Scene,
    before: Map<(int, int), (u8, u8, u8, u8)>,
)
    requires
        other == (Scene { hscroll: other.hscroll, vscroll: other.vscroll, ..scene }),
        scene.hscroll % 1024 == other.hscroll % 1024,
        scene.vscroll % 512 == other.vscroll % 512,
    ensures
        forall|x: int, y: int| scene.color(x, y) == other.color(x, y),
        rendered(before, scene) == rendered(before, other),
{
    assert forall|lx: int, ly: int| scene.tile_plane(lx, ly) == other.tile_plane(lx, ly) by {
        assert((lx - scene.hscroll) % 1024 == (lx - other.hscroll) % 1024);
        assert((ly - scene.vscroll) % 512 == (ly - other.vscroll) % 512);
    }
    assert forall|x: int, y: int| scene.color(x, y) == other.color(x, y) by {
        let block = pow2(scene.scale as nat) as int;
        assert(scene.tile_plane(x / block, y / block) == other.tile_plane(x / block, y / block));
    }
    assert(rendered(before, scene) =~= rendered(before, other));
}

} // verus!
