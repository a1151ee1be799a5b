//! The memory fabric and the structures behind its windows.

use bemu::memory::region;
use bemu::memory::FrameBuffer;
use bemu::memory::Memory;
use bemu::memory::Region;
use bemu::memory::Sprite;
use bemu::memory::SpriteMap;
use bemu::memory::Tile;
use bemu::memory::TileMap;
use bemu::memory::FRAME_HEIGHT;
use bemu::memory::FRAME_WIDTH;
use bemu::memory::SPRITE_SIZE;
use bemu::memory::TILE_SIZE;

fn fabric(ram: Vec<u16>) -> Memory {
    Memory::new(ram, TileMap::new(128), SpriteMap::new(8))
}

#[test]
fn address_map_has_the_documented_ranges() {
    assert_eq!(region(0x0000), Region::Ram);
    assert_eq!(region(0x9fff), Region::Ram);
    assert_eq!(region(0xa000), Region::SpritePixels);
    assert_eq!(region(0xafff), Region::SpritePixels);
    assert_eq!(region(0xb000), Region::Ram);
    assert_eq!(region(0xbfff), Region::Ram);
    assert_eq!(region(0xc000), Region::TilePixels);
    assert_eq!(region(0xdfff), Region::TilePixels);
    assert_eq!(region(0xe000), Region::FrameCells);
    assert_eq!(region(0xefff), Region::FrameCells);
    assert_eq!(region(0xf000), Region::Ram);
    assert_eq!(region(0xffdf), Region::Ram);
    assert_eq!(region(0xffe0), Region::SpriteRegisters);
    assert_eq!(region(0xffef), Region::SpriteRegisters);
    assert_eq!(region(0xfff0), Region::Ram);
    assert_eq!(region(0xfffb), Region::Ram);
    assert_eq!(region(0xfffc), Region::ScaleRegister);
    assert_eq!(region(0xfffd), Region::HScrollRegister);
    assert_eq!(region(0xfffe), Region::VScrollRegister);
    assert_eq!(region(0xffff), Region::InputPort);
}

#[test]
fn boot_loads_the_image_and_clears_the_rest() {
    let mut mem = fabric(vec![0x1111, 0x2222, 0x3333]);
    assert_eq!(mem.read(0), 0x1111);
    assert_eq!(mem.read(1), 0x2222);
    assert_eq!(mem.read(2), 0x3333);
    assert_eq!(mem.read(3), 0);
    assert_eq!(mem.read(0x9fff), 0);
    assert_eq!(mem.read(0xfffc), 0);
    assert_eq!(mem.read(0xfffd), 0);
    assert_eq!(mem.read(0xfffe), 0);
    assert_eq!(mem.read(0xe000), 0);
    assert_eq!(mem.get_io_buffer().len(), 0);
    assert_eq!(mem.get_frame_buffer().width(), 128);
    assert_eq!(mem.get_frame_buffer().height(), 64);
    assert_eq!(mem.get_frame_buffer().len(), 4096);
    assert_eq!(mem.get_tile_map().len(), 128);
    assert_eq!(mem.get_sprite_map().len(), 8);
}

#[test]
fn boot_cuts_an_image_longer_than_the_address_space() {
    let mut image = vec![7u16; 0x10000];
    image.push(9);
    image.push(9);
    let mut mem = fabric(image);
    assert_eq!(mem.read(0), 7);
    assert_eq!(mem.read(0x9fff), 7);
    assert_eq!(mem.read(0xfff0), 7);
    // The windows show their structures, not the image behind them.
    assert_eq!(mem.read(0xc000), 0);
    assert_eq!(mem.read(0xffff), 0);
}

#[test]
fn a_word_written_is_the_word_read_back() {
    let mut mem = fabric(vec![]);
    let addresses: [usize; 20] = [
        0x0000, 0x0001, 0x1234, 0x9fff, 0xa000, 0xa3ff, 0xa400, 0xafff, 0xb000, 0xc000, 0xc03f,
        0xc040, 0xdfff, 0xe000, 0xefff, 0xf000, 0xffe0, 0xffef, 0xfff0, 0xfffb,
    ];
    for (i, addr) in addresses.iter().enumerate() {
        let word = 0x0100 + i as u16;
        mem.write(*addr, word);
        assert_eq!(mem.read(*addr), word);
    }
    // None of the writes disturbed another.
    for (i, addr) in addresses.iter().enumerate() {
        assert_eq!(mem.read(*addr), 0x0100 + i as u16);
    }
}

#[test]
fn every_address_but_the_input_port_reads_back_what_was_written() {
    let mut mem = fabric(vec![]);
    for addr in 0..0xffffusize {
        let word = (addr as u16).wrapping_mul(31).wrapping_add(7);
        mem.write(addr, word);
        assert_eq!(mem.read(addr), word);
    }
    for addr in 0..0xffffusize {
        let word = (addr as u16).wrapping_mul(31).wrapping_add(7);
        assert_eq!(mem.read(addr), word);
    }
}

#[test]
fn scroll_and_scale_registers_read_back() {
    let mut mem = fabric(vec![]);
    mem.write(0xfffc, 2);
    mem.write(0xfffd, 300);
    mem.write(0xfffe, 0xfff0);
    assert_eq!(mem.read(0xfffc), 2);
    assert_eq!(mem.read(0xfffd), 300);
    assert_eq!(mem.read(0xfffe), 0xfff0);
    assert_eq!(mem.get_scale_register(), 2);
    assert_eq!(mem.get_hscroll_register(), 300);
    assert_eq!(mem.get_vscroll_register(), 0xfff0);
}

#[test]
fn tile_window_addresses_pixel_by_tile() {
    let mut mem = fabric(vec![]);
    // Tile 3, pixel 5.
    mem.write(0xc000 + 3 * 64 + 5, 0x0abc);
    assert_eq!(mem.get_tile_map().get_tile_word(3 * 64 + 5), 0x0abc);
    assert_eq!(mem.get_tile_map().get_tile_word(3 * 64 + 4), 0);
    assert_eq!(mem.get_tile_map().get_tile_word(2 * 64 + 5), 0);
    // The last pixel of the last tile.
    mem.write(0xdfff, 0x0123);
    assert_eq!(mem.get_tile_map().get_tile_word(127 * 64 + 63), 0x0123);
}

#[test]
fn sprite_window_addresses_pixel_by_sprite() {
    let mut mem = fabric(vec![]);
    // Sprite 2, pixel 33.
    assert_eq!(mem.read(0xa000 + 2 * 1024 + 33), 0xffff);
    mem.write(0xa000 + 2 * 1024 + 33, 0x0fed);
    assert_eq!(mem.get_sprite_map().get_sprite_word(2 * 1024 + 33), 0x0fed);
    assert_eq!(mem.get_sprite_map().get_sprite_word(2 * 1024 + 32), 0xffff);
    // The window ends with the last pixel of sprite 3.
    mem.write(0xafff, 0x0001);
    assert_eq!(mem.get_sprite_map().get_sprite_word(3 * 1024 + 1023), 0x0001);
    assert_eq!(mem.get_sprite_map().get_sprite_word(4 * 1024), 0xffff);
}

#[test]
fn sprite_registers_pair_x_then_y() {
    let mut mem = fabric(vec![]);
    assert_eq!(mem.read(0xffe0), 0xffff);
    assert_eq!(mem.read(0xffe1), 0xffff);
    mem.write(0xffe0, 10);
    mem.write(0xffe1, 20);
    mem.write(0xffee, 30);
    mem.write(0xffef, 40);
    assert_eq!(mem.get_sprite_map().get_sprite_reg(0), 10);
    assert_eq!(mem.get_sprite_map().get_sprite_reg(1), 20);
    assert_eq!(mem.get_sprite_map().get_sprite_reg(14), 30);
    assert_eq!(mem.get_sprite_map().get_sprite_reg(15), 40);
    assert_eq!(mem.get_sprite_map().get_sprite_reg(2), 0xffff);
}

#[test]
fn frame_buffer_window_packs_two_cells_per_word() {
    let mut mem = fabric(vec![]);
    mem.write(0xe000, 0x0201);
    // Cell (5, 2) has index 5 + 2 * 128 = 261: the high byte of word 130.
    mem.write(0xe000 + 130, 0x7f00);
    let fb = mem.get_frame_buffer();
    assert_eq!(fb.get_tile(0, 0), 1);
    assert_eq!(fb.get_tile(1, 0), 2);
    assert_eq!(fb.get_tile(2, 0), 0);
    assert_eq!(fb.get_tile(4, 2), 0);
    assert_eq!(fb.get_tile(5, 2), 0x7f);
    assert_eq!(fb.get_tile_pair(130), 0x7f00);
}

#[test]
fn input_port_hands_out_keys_oldest_first() {
    let mut mem = fabric(vec![]);
    assert_eq!(mem.read(0xffff), 0);
    mem.push_key(65);
    mem.push_key(66);
    mem.push_key(67);
    assert_eq!(mem.get_io_buffer().len(), 3);
    assert_eq!(mem.read(0xffff), 65);
    assert_eq!(mem.read(0xffff), 66);
    mem.push_key(68);
    assert_eq!(mem.read(0xffff), 67);
    assert_eq!(mem.read(0xffff), 68);
    assert_eq!(mem.read(0xffff), 0);
    assert_eq!(mem.read(0xffff), 0);
}

#[test]
fn reading_anything_but_the_port_keeps_the_queue() {
    let mut mem = fabric(vec![]);
    mem.push_key(65);
    for addr in [0usize, 0xa000, 0xc000, 0xe000, 0xffe0, 0xfffc, 0xfffd, 0xfffe] {
        mem.read(addr);
    }
    assert_eq!(mem.get_io_buffer().len(), 1);
}

#[test]
fn frame_buffer_has_one_cell_per_whole_block() {
    let fb = FrameBuffer::new(1024, 512);
    assert_eq!(fb.width(), 128);
    assert_eq!(fb.height(), 64);
    assert_eq!(fb.len(), 4096);
    let fb = FrameBuffer::new(39, 17);
    assert_eq!(fb.width(), 4);
    assert_eq!(fb.height(), 2);
    assert_eq!(fb.len(), 4);
    for i in 0..4 {
        assert_eq!(fb.get_tile_pair(i), 0);
    }
}

#[test]
fn frame_buffer_cells_are_low_byte_then_high_byte() {
    let mut fb = FrameBuffer::new(32, 16);
    // A 4 by 2 grid: cell (x, y) has index x + 4 * y.
    fb.set_tile_pair(0, 0x1110);
    fb.set_tile_pair(1, 0x1312);
    fb.set_tile_pair(2, 0x2120);
    fb.set_tile_pair(3, 0x2322);
    assert_eq!(fb.get_tile(0, 0), 0x10);
    assert_eq!(fb.get_tile(1, 0), 0x11);
    assert_eq!(fb.get_tile(2, 0), 0x12);
    assert_eq!(fb.get_tile(3, 0), 0x13);
    assert_eq!(fb.get_tile(0, 1), 0x20);
    assert_eq!(fb.get_tile(1, 1), 0x21);
    assert_eq!(fb.get_tile(2, 1), 0x22);
    assert_eq!(fb.get_tile(3, 1), 0x23);
    assert_eq!(fb.get_tile_pair(2), 0x2120);
}

#[test]
fn the_frame_is_cut_into_whole_tiles() {
    assert_eq!(FRAME_WIDTH, 1024);
    assert_eq!(FRAME_HEIGHT, 512);
    assert_eq!(TILE_SIZE, 8);
    assert_eq!(SPRITE_SIZE, 32);
    let fb = FrameBuffer::new(FRAME_WIDTH, FRAME_HEIGHT);
    assert_eq!(fb.width(), FRAME_WIDTH / TILE_SIZE);
    assert_eq!(fb.height(), FRAME_HEIGHT / TILE_SIZE);
}

#[test]
fn a_clone_holds_the_same_pixels() {
    let tile = Tile::white();
    let copy = tile.clone();
    assert_eq!(copy.pixels(), tile.pixels());
    let sprite = Sprite::invisible();
    let copy = sprite.clone();
    assert_eq!(copy.x(), 0xffff);
    assert_eq!(copy.y(), 0xffff);
    assert_eq!(copy.pixels(), sprite.pixels());
}

#[test]
fn tiles_are_black_or_white() {
    let black = Tile::black();
    let white = Tile::white();
    assert_eq!(black.pixels().len(), 64);
    assert_eq!(white.pixels().len(), 64);
    assert!(black.pixels().iter().all(|word| *word == 0));
    assert!(white.pixels().iter().all(|word| *word == 0xffff));
}

#[test]
fn a_new_tile_map_is_black() {
    let mut map = TileMap::new(3);
    assert_eq!(map.len(), 3);
    for addr in 0..3 * 64 {
        assert_eq!(map.get_tile_word(addr), 0);
    }
    map.set_tile_word(64 + 7, 0x0f0f);
    assert_eq!(map.get_tile_word(64 + 7), 0x0f0f);
    assert_eq!(map.get_tile_word(64 + 6), 0);
    assert_eq!(map.get_tile_word(7), 0);
    assert_eq!(TileMap::new(0).len(), 0);
}

#[test]
fn an_invisible_sprite_is_parked_and_transparent() {
    let sprite = Sprite::invisible();
    assert_eq!(sprite.x(), 0xffff);
    assert_eq!(sprite.y(), 0xffff);
    assert_eq!(sprite.pixels().len(), 1024);
    assert!(sprite.pixels().iter().all(|word| *word == 0xffff));
}

#[test]
fn a_new_sprite_map_is_invisible() {
    let mut map = SpriteMap::new(2);
    assert_eq!(map.len(), 2);
    for addr in 0..2 * 1024 {
        assert_eq!(map.get_sprite_word(addr), 0xffff);
    }
    for reg in 0..4 {
        assert_eq!(map.get_sprite_reg(reg), 0xffff);
    }
    map.set_sprite_word(1024 + 5, 0x0123);
    map.set_sprite_reg(2, 100);
    map.set_sprite_reg(3, 200);
    assert_eq!(map.get_sprite_word(1024 + 5), 0x0123);
    assert_eq!(map.get_sprite_word(5), 0xffff);
    assert_eq!(map.get_sprite_reg(2), 100);
    assert_eq!(map.get_sprite_reg(3), 200);
    assert_eq!(map.get_sprite_reg(0), 0xffff);
    assert_eq!(map.get_sprite_reg(1), 0xffff);
}
