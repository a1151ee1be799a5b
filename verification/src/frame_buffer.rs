//! The frame buffer: a grid of 8-bit tile pointers, packed two to a word.

use vstd::prelude::*;

verus! {

/// A grid of `width` by `height` tile pointers. Cell `(x, y)` has index
/// `x + y * width`; word `i` holds cell `2i` in its low byte and cell
/// `2i + 1` in its high byte.
pub struct FrameBuffer {
    width: u32,
    height: u32,
    tile_ptrs: Vec<u16>,
}

/// What a frame buffer is, as plain values.
#[verifier::ext_equal]
pub struct FrameBufferView {
    /// Number of cells in the x direction.
    pub width: nat,
    /// Number of cells in the y direction.
    pub height: nat,
    /// The packed words.
    pub words: Seq<u16>,
}

impl View for FrameBuffer {
    type V = FrameBufferView;

    closed spec fn view(&self) -> FrameBufferView {
        FrameBufferView {
            width: self.width as nat,
            height: self.height as nat,
            words: self.tile_ptrs@,
        }
    }
}

impl FrameBufferView {
    /// The buffer holds one word for every two cells.
    pub open spec fn wf(self) -> bool {
        &&& self.width * self.height <= u32::MAX
        &&& self.words.len() == (self.width * self.height) / 2
    }

    /// A cell that lies on the grid and has a word behind it. (On a grid with
    /// an odd number of cells the last one has none.)
    pub open spec fn holds(self, x: int, y: int) -> bool {
        &&& 0 <= x < self.width
        &&& 0 <= y < self.height
        &&& (x + y * self.width) / 2 < self.words.len()
    }

    /// The tile pointer of cell `(x, y)`.
    pub open spec fn tile(self, x: int, y: int) -> u8 {
        let idx = x + y * self.width;
        let word = self.words[idx / 2];
        if idx % 2 == 0 {
            (word % 256) as u8
        } else {
            (word / 256) as u8
        }
    }
}

impl FrameBuffer {
    pub open spec fn wf(&self) -> bool {
        self@.wf()
    }

    /// The zeroed buffer for a frame of `frame_width` by `frame_height`
    /// pixels: one cell for each whole 8x8 block.
    pub fn new(frame_width: u32, frame_height: u32) -> (fb: FrameBuffer)
        requires
            (frame_width / 8) * (frame_height / 8) <= u32::MAX,
        ensures
            fb.wf(),
            fb@.width == frame_width / 8,
            fb@.height == frame_height / 8,
            fb@.words == Seq::new(fb@.words.len(), |i: int| 0u16),
    {
        let width: u32 = frame_width / 8;
        let height: u32 = frame_height / 8;
        let cells: u32 = width * height;
        let tile_ptrs: Vec<u16> = vec![0; (cells / 2) as usize];
        let fb = FrameBuffer { width, height, tile_ptrs };
        assert(fb@.words =~= Seq::new(fb@.words.len(), |i: int| 0u16));
        fb
    }

    /// Number of cells in the x direction.
    pub fn width(&self) -> (w: u32)
        ensures
            w == self@.width,
    {
        self.width
    }

    /// Number of cells in the y direction.
    pub fn height(&self) -> (h: u32)
        ensures
            h == self@.height,
    {
        self.height
    }

    /// Number of packed words.
    pub fn len(&self) -> (n: usize)
        ensures
            n == self@.words.len(),
    {
        self.tile_ptrs.len()
    }

    /// Writes word `i`, which sets two neighbouring cells at once.
    pub fn set_tile_pair(&mut self, i: u32, tile_pair_value: u16)
        requires
            i < old(self)@.words.len(),
        ensures
            final(self)@ == (FrameBufferView {
                words: old(self)@.words.update(i as int, tile_pair_value),
                ..old(self)@
            }),
    {
        self.tile_ptrs[i as usize] = tile_pair_value;
    }

    /// Reads word `i`.
    pub fn get_tile_pair(&self, i: u32) -> (word: u16)
        requires
            i < self@.words.len(),
        ensures
            word == self@.words[i as int],
    {
        self.tile_ptrs[i as usize]
    }

    /// The tile pointer of cell `(x, y)`.
    pub fn get_tile(&self, x: u32, y: u32) -> (tile: u8)
        requires
            self.wf(),
            self@.holds(x as int, y as int),
        ensures
            tile == self@.tile(x as int, y as int),
    {
        assert(x + y * self.width <= self.width * self.height - 1) by (nonlinear_arith)
            requires
                x < self.width,
                y < self.height,
        ;
        let idx: u32 = x + y * self.width;
        let word: u16 = self.tile_ptrs[(idx / 2) as usize];
        if idx % 2 == 0 {
            (word % 256) as u8
        } else {
            (word / 256) as u8
        }
    }
}

} // verus!
