//! Memory-mapped hardware of an 8-bit game console: the cartridge image
//! loader, the cartridge address translation, the picture unit with its
//! register file and video memory, and the system address bus.
//!
//! Every function carries a contract over a mathematical model of the
//! state it touches; none of them panics on inputs that meet its
//! precondition.

pub mod apu;
pub mod bits;
pub mod input;
pub mod mapper;
pub mod mem;
pub mod ppu;
pub mod rom;

pub use crate::mem::NESMemory;
pub use crate::ppu::screen::Screen;
pub use crate::ppu::{SCREEN_HEIGHT, SCREEN_WIDTH};
