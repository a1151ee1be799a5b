//! Emulator core for a small 16-bit word-addressed machine with a
//! tile-and-sprite video processor and a keyboard input port.
//!
//! The crate is organised leaves first:
//!
//! - [`tile`], [`sprite`] and [`frame_buffer`] hold the video structures;
//!   [`bitmap`] and [`dump`] load them from bitmaps and list them.
//! - [`memory`] is the memory fabric that overlays them, the scroll and
//!   scale registers and the input queue on 64 Ki words of RAM.
//! - [`isa`], [`alu`] and [`cpu`] are the CPU core; [`emulator`] drives the
//!   fabric with it, one instruction at a time.
//! - [`graphics`] composes frames from the video state onto a [`canvas`].
//!
//! Every type has a view: what it is as plain mathematical values. The
//! contracts of the executable functions are stated over these views, and
//! so are the laws that hold of the machine as a whole.

pub mod alu;
pub mod bitmap;
pub mod canvas;
pub mod cpu;
pub mod dump;
pub mod emulator;
pub mod frame_buffer;
pub mod graphics;
pub mod isa;
pub mod memory;
pub mod sprite;
pub mod tile;
