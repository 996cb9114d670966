//! NES cartridge mappers: the address-translation and bank-switching logic
//! that lets the fixed 16-bit CPU/PPU address bus reach an oversized,
//! segmented cartridge ROM/RAM image.
//!
//! A loaded [`rom::Rom`] is handed to [`mapper::create_mapper`], which selects
//! the chip variant declared by the header (fixed mapping, shift-register
//! banking, or indexed banking) and returns it behind the four-operation
//! [`mapper::Mapper`] capability that CPU and PPU emulation drive.

pub mod mapper;
pub mod nrom;
pub mod rom;
pub mod sxrom;
pub mod txrom;
