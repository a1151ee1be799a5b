//! The memory fabric: 64 Ki words of RAM, overlaid with windows onto the
//! tile map, the frame buffer, the sprite table, the scroll and scale
//! registers and the input queue.
//!
//! | Range             | Meaning                                         |
//! |-------------------|-------------------------------------------------|
//! | `0xA000..=0xAFFF` | sprite pixels, 1024 words per sprite            |
//! | `0xC000..=0xDFFF` | tile pixels, 64 words per tile                  |
//! | `0xE000..=0xEFFF` | frame buffer, two cells per word                |
//! | `0xFFE0..=0xFFEF` | sprite coordinates, x then y for each sprite    |
//! | `0xFFFC`          | scale register                                  |
//! | `0xFFFD`          | horizontal scroll                               |
//! | `0xFFFE`          | vertical scroll                                 |
//! | `0xFFFF`          | input port (read only)                          |
//!
//! Every other address is plain RAM. A write to a window also lands in the
//! RAM word behind it; a read of a window never shows that shadow.
//!
//! The structures behind the windows have modules of their own; their types
//! are re-exported here.

use vstd::prelude::*;
use std::collections::VecDeque;
pub use crate::frame_buffer::FrameBuffer;
use crate::frame_buffer::FrameBufferView;
pub use crate::sprite::SPRITE_SIZE;
pub use crate::sprite::Sprite;
pub use crate::sprite::SpriteMap;
use crate::sprite::SpriteView;
use crate::sprite::sprite_reg;
use crate::sprite::sprite_word;
use crate::sprite::sprites_wf;
use crate::sprite::sprites_with_reg;
use crate::sprite::sprites_with_word;
pub use crate::tile::TILE_SIZE;
pub use crate::tile::Tile;
pub use crate::tile::TileMap;
use crate::tile::tile_word;
use crate::tile::tiles_wf;
use crate::tile::tiles_with_word;

verus! {

/// Width of the logical frame, in pixels.
pub const FRAME_WIDTH: u32 = 1024;

/// Height of the logical frame, in pixels.
pub const FRAME_HEIGHT: u32 = 512;

/// Number of words in the address space.
pub const RAM_SIZE: usize = 0x10000;

pub const SPRITE_MAP_START: usize = 0xA000;

pub const SPRITE_MAP_SIZE: usize = 0x1000;

pub const TILE_MAP_START: usize = 0xC000;

pub const TILE_MAP_SIZE: usize = 0x2000;

pub const FRAME_BUFFER_START: usize = 0xE000;

pub const FRAME_BUFFER_SIZE: usize = 0x1000;

pub const SPRITE_REGISTERS_START: usize = 0xFFE0;

pub const SPRITE_REGISTERS_SIZE: usize = 0x10;

/// Each logical pixel is shown as a square of `2^n` physical pixels, where
/// `n` is the word at this address.
pub const SCALE_REGISTER_START: usize = 0xFFFC;

pub const H_SCROLL_START: usize = 0xFFFD;

pub const V_SCROLL_START: usize = 0xFFFE;

pub const IO_BUFFER_START: usize = 0xFFFF;

/// What an address is mapped to.
#[derive(Clone, Copy, Debug, PartialEq, Eq, Structural)]
pub enum Region {
    Ram,
    SpritePixels,
    TilePixels,
    FrameCells,
    SpriteRegisters,
    ScaleRegister,
    HScrollRegister,
    VScrollRegister,
    InputPort,
}

/// The address map.
pub open spec fn region_of(addr: int) -> Region {
    if 0xA000 <= addr < 0xB000 {
        Region::SpritePixels
    } else if 0xC000 <= addr < 0xE000 {
        Region::TilePixels
    } else if 0xE000 <= addr < 0xF000 {
        Region::FrameCells
    } else if 0xFFE0 <= addr < 0xFFF0 {
        Region::SpriteRegisters
    } else if addr == 0xFFFC {
        Region::ScaleRegister
    } else if addr == 0xFFFD {
        Region::HScrollRegister
    } else if addr == 0xFFFE {
        Region::VScrollRegister
    } else if addr == 0xFFFF {
        Region::InputPort
    } else {
        Region::Ram
    }
}

/// Looks an address up in the address map.
pub fn region(addr: usize) -> (r: Region)
    ensures
        r == region_of(addr as int),
{
    if addr >= SPRITE_MAP_START && addr < SPRITE_MAP_START + SPRITE_MAP_SIZE {
        Region::SpritePixels
    } else if addr >= TILE_MAP_START && addr < TILE_MAP_START + TILE_MAP_SIZE {
        Region::TilePixels
    } else if addr >= FRAME_BUFFER_START && addr < FRAME_BUFFER_START + FRAME_BUFFER_SIZE {
        Region::FrameCells
    } else if addr >= SPRITE_REGISTERS_START && addr < SPRITE_REGISTERS_START
        + SPRITE_REGISTERS_SIZE {
        Region::SpriteRegisters
    } else if addr == SCALE_REGISTER_START {
        Region::ScaleRegister
    } else if addr == H_SCROLL_START {
        Region::HScrollRegister
    } else if addr == V_SCROLL_START {
        Region::VScrollRegister
    } else if addr == IO_BUFFER_START {
        Region::InputPort
    } else {
        Region::Ram
    }
}

/// The whole state behind the address space, as plain values.
#[verifier::ext_equal]
pub struct MemoryView {
    pub ram: Seq<u16>,
    pub frame_buffer: FrameBufferView,
    pub tile_map: Seq<Seq<u16>>,
    pub sprite_map: Seq<SpriteView>,
    /// The key codes waiting at the input port, oldest first.
    pub io_buffer: Seq<u16>,
    pub vscroll: u16,
    pub hscroll: u16,
    pub scale: u16,
}

impl MemoryView {
    /// The shape of a booted machine: 65,536 words of RAM, a frame buffer of
    /// 128 by 64 cells, 128 tiles and 8 sprites.
    pub open spec fn wf(self) -> bool {
        &&& self.ram.len() == RAM_SIZE
        &&& self.frame_buffer.wf()
        &&& self.frame_buffer.width == FRAME_WIDTH / 8
        &&& self.frame_buffer.height == FRAME_HEIGHT / 8
        &&& self.tile_map.len() == 128
        &&& tiles_wf(self.tile_map)
        &&& self.sprite_map.len() == 8
        &&& sprites_wf(self.sprite_map)
    }

    /// The word that a read of `addr` returns.
    pub open spec fn read(self, addr: int) -> u16 {
        match region_of(addr) {
            Region::SpritePixels => sprite_word(self.sprite_map, addr - 0xA000),
            Region::TilePixels => tile_word(self.tile_map, addr - 0xC000),
            Region::FrameCells => self.frame_buffer.words[addr - 0xE000],
            Region::SpriteRegisters => sprite_reg(self.sprite_map, addr - 0xFFE0),
            Region::ScaleRegister => self.scale,
            Region::HScrollRegister => self.hscroll,
            Region::VScrollRegister => self.vscroll,
            Region::InputPort => if self.io_buffer.len() > 0 {
                self.io_buffer[0]
            } else {
                0
            },
            Region::Ram => self.ram[addr],
        }
    }

    /// The state that a read of `addr` leaves: a read of the input port takes
    /// the oldest key code off the queue, any other read changes nothing.
    pub open spec fn after_read(self, addr: int) -> MemoryView {
        if addr == 0xFFFF && self.io_buffer.len() > 0 {
            MemoryView { io_buffer: self.io_buffer.skip(1), ..self }
        } else {
            self
        }
    }

    /// The state that a write of `data` to `addr` leaves, for every address
    /// but the input port: the mapped structure takes the word, and so does
    /// the RAM word behind it.
    pub open spec fn after_write(self, addr: int, data: u16) -> MemoryView {
        let shadowed = MemoryView { ram: self.ram.update(addr, data), ..self };
        match region_of(addr) {
            Region::SpritePixels => MemoryView {
                sprite_map: sprites_with_word(self.sprite_map, addr - 0xA000, data),
                ..shadowed
            },
            Region::TilePixels => MemoryView {
                tile_map: tiles_with_word(self.tile_map, addr - 0xC000, data),
                ..shadowed
            },
            Region::FrameCells => MemoryView {
                frame_buffer: FrameBufferView {
                    words: self.frame_buffer.words.update(addr - 0xE000, data),
                    ..self.frame_buffer
                },
                ..shadowed
            },
            Region::SpriteRegisters => MemoryView {
                sprite_map: sprites_with_reg(self.sprite_map, addr - 0xFFE0, data),
                ..shadowed
            },
            Region::ScaleRegister => MemoryView { scale: data, ..shadowed },
            Region::HScrollRegister => MemoryView { hscroll: data, ..shadowed },
            Region::VScrollRegister => MemoryView { vscroll: data, ..shadowed },
            Region::InputPort => self,
            Region::Ram => shadowed,
        }
    }

    /// The state after the host has delivered the key code `key`.
    pub open spec fn after_key(self, key: u16) -> MemoryView {
        MemoryView { io_buffer: self.io_buffer.push(key), ..self }
    }
}

/// The memory fabric.
pub struct Memory {
    ram: Vec<u16>,
    frame_buffer: FrameBuffer,
    tile_map: TileMap,
    io_buffer: VecDeque<u16>,
    vscroll_register: u16,
    hscroll_register: u16,
    scale_register: u16,
    sprite_map: SpriteMap,
}

impl View for Memory {
    type V = MemoryView;

    closed spec fn view(&self) -> MemoryView {
        MemoryView {
            ram: self.ram@,
            frame_buffer: self.frame_buffer@,
            tile_map: self.tile_map@,
            sprite_map: self.sprite_map@,
            io_buffer: self.io_buffer@,
            vscroll: self.vscroll_register,
            hscroll: self.hscroll_register,
            scale: self.scale_register,
        }
    }
}

/// RAM at boot: the program image from address 0, cut off at the end of the
/// address space, and zero beyond the image.
pub open spec fn boot_ram(image: Seq<u16>) -> Seq<u16> {
    Seq::new(
        RAM_SIZE as nat,
        |a: int|
            if a < image.len() {
                image[a]
            } else {
                0u16
            },
    )
}

impl Memory {
    pub open spec fn wf(&self) -> bool {
        self@.wf()
    }

    /// Boots the fabric: RAM holds `ram_init` from address 0 and zero after
    /// it, the frame buffer, the registers and the input queue are cleared,
    /// and the tile map and sprite table are the ones given.
    pub fn new(ram_init: Vec<u16>, tile_map: TileMap, sprite_map: SpriteMap) -> (mem: Memory)
        requires
            tile_map.wf(),
            tile_map@.len() == 128,
            sprite_map.wf(),
            sprite_map@.len() == 8,
        ensures
            mem.wf(),
            mem@.ram == boot_ram(ram_init@),
            mem@.frame_buffer.words == Seq::new(4096, |i: int| 0u16),
            mem@.tile_map == tile_map@,
            mem@.sprite_map == sprite_map@,
            mem@.io_buffer == Seq::<u16>::empty(),
            mem@.vscroll == 0,
            mem@.hscroll == 0,
            mem@.scale == 0,
    {
        let mut ram = ram_init;
        ram.resize(RAM_SIZE, 0);
        assert(ram@ =~= boot_ram(ram_init@));
        let frame_buffer = FrameBuffer::new(FRAME_WIDTH, FRAME_HEIGHT);
        assert(frame_buffer@.words =~= Seq::new(4096, |i: int| 0u16));
        Memory {
            ram,
            frame_buffer,
            tile_map,
            io_buffer: VecDeque::new(),
            vscroll_register: 0,
            hscroll_register: 0,
            scale_register: 0,
            sprite_map,
        }
    }

    pub fn get_frame_buffer(&self) -> (fb: &FrameBuffer)
        ensures
            fb@ == self@.frame_buffer,
    {
        &self.frame_buffer
    }

    pub fn get_tile_map(&self) -> (tiles: &TileMap)
        ensures
            tiles@ == self@.tile_map,
    {
        &self.tile_map
    }

    pub fn get_io_buffer(&self) -> (keys: &VecDeque<u16>)
        ensures
            keys@ == self@.io_buffer,
    {
        &self.io_buffer
    }

    pub fn get_vscroll_register(&self) -> (word: u16)
        ensures
            word == self@.vscroll,
    {
        self.vscroll_register
    }

    pub fn get_hscroll_register(&self) -> (word: u16)
        ensures
            word == self@.hscroll,
    {
        self.hscroll_register
    }

    pub fn get_scale_register(&self) -> (word: u16)
        ensures
            word == self@.scale,
    {
        self.scale_register
    }

    pub fn get_sprite_map(&self) -> (sprites: &SpriteMap)
        ensures
            sprites@ == self@.sprite_map,
    {
        &self.sprite_map
    }

    /// Appends a key code to the input queue, as the host does on a key press.
    pub fn push_key(&mut self, key: u16)
        ensures
            final(self)@ == old(self)@.after_key(key),
    {
        self.io_buffer.push_back(key);
    }

    /// Reads the word at `addr`. A read of the input port takes the oldest
    /// key code off the queue, or returns 0 where the queue is empty.
    pub fn read(&mut self, addr: usize) -> (word: u16)
        requires
            old(self).wf(),
            addr < RAM_SIZE,
        ensures
            final(self).wf(),
            word == old(self)@.read(addr as int),
            final(self)@ == old(self)@.after_read(addr as int),
    {
        match region(addr) {
            Region::SpritePixels => self.sprite_map.get_sprite_word(
                (addr - SPRITE_MAP_START) as u32,
            ),
            Region::TilePixels => self.tile_map.get_tile_word((addr - TILE_MAP_START) as u32),
            Region::FrameCells => self.frame_buffer.get_tile_pair(
                (addr - FRAME_BUFFER_START) as u32,
            ),
            Region::SpriteRegisters => self.sprite_map.get_sprite_reg(
                (addr - SPRITE_REGISTERS_START) as u32,
            ),
            Region::ScaleRegister => self.scale_register,
            Region::HScrollRegister => self.hscroll_register,
            Region::VScrollRegister => self.vscroll_register,
            Region::InputPort => {
                let key = self.io_buffer.pop_front();
                assert(self@ =~= old(self)@.after_read(addr as int));
                match key {
                    Some(code) => code,
                    None => 0,
                }
            },
            Region::Ram => self.ram[addr],
        }
    }

    /// Writes `data` to `addr`: the mapped structure and the RAM word behind
    /// it both take the word. The input port cannot be written.
    pub fn write(&mut self, addr: usize, data: u16)
        requires
            old(self).wf(),
            addr < RAM_SIZE,
            addr != IO_BUFFER_START,
        ensures
            final(self).wf(),
            final(self)@ == old(self)@.after_write(addr as int, data),
    {
        match region(addr) {
            Region::SpritePixels => {
                self.sprite_map.set_sprite_word((addr - SPRITE_MAP_START) as u32, data);
            },
            Region::TilePixels => {
                self.tile_map.set_tile_word((addr - TILE_MAP_START) as u32, data);
            },
            Region::FrameCells => {
                self.frame_buffer.set_tile_pair((addr - FRAME_BUFFER_START) as u32, data);
            },
            Region::SpriteRegisters => {
                self.sprite_map.set_sprite_reg((addr - SPRITE_REGISTERS_START) as u32, data);
            },
            Region::ScaleRegister => {
                self.scale_register = data;
            },
            Region::HScrollRegister => {
                self.hscroll_register = data;
            },
            Region::VScrollRegister => {
                self.vscroll_register = data;
            },
            Region::InputPort => {},
            Region::Ram => {},
        }
        self.ram[addr] = data;
        assert(self@ =~= old(self)@.after_write(addr as int, data));
    }
}

/// A word written to any address but the input port is the word that the
/// next read of that address returns, and the read leaves the state as the
/// write left it. In a window the word read is the one that the structure
/// behind the window holds at that place.
pub proof fn lemma_write_then_read(mem: MemoryView, addr: int, data: u16)
    requires
        mem.wf(),
        0 <= addr < 0xFFFF,
    ensures
        mem.after_write(addr, data).wf(),
        mem.after_write(addr, data).read(addr) == data,
        mem.after_write(addr, data).after_read(addr) == mem.after_write(addr, data),
        region_of(addr) == Region::TilePixels ==> tile_word(
            mem.after_write(addr, data).tile_map,
            addr - 0xC000,
        ) == data,
        region_of(addr) == Region::SpritePixels ==> sprite_word(
            mem.after_write(addr, data).sprite_map,
            addr - 0xA000,
        ) == data,
        region_of(addr) == Region::SpriteRegisters ==> sprite_reg(
            mem.after_write(addr, data).sprite_map,
            addr - 0xFFE0,
        ) == data,
        region_of(addr) == Region::FrameCells ==> mem.after_write(
            addr,
            data,
        ).frame_buffer.words[addr - 0xE000] == data,
{
}

/// A write changes what is read at no other address: every address but the
/// one written and the input port reads as before.
pub proof fn lemma_write_leaves_others(mem: MemoryView, addr: int, data: u16, other: int)
    requires
        mem.wf(),
        0 <= addr < 0xFFFF,
        0 <= other < 0xFFFF,
        other != addr,
    ensures
        mem.after_write(addr, data).read(other) == mem.read(other),
{
}

} // verus!
