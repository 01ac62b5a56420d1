//! A cycle-accurate core for the Nintendo Entertainment System: a micro-coded
//! 6502 processor model, a dot-by-dot picture processing unit, the address
//! decoding fabric that joins them to cartridge memory and controller ports,
//! and an iNES cartridge parser with the NROM mapper.

pub mod memory;
pub mod cpu;
pub mod opcodes;
pub mod controller;
pub mod mappers;
pub mod cartridge;
pub mod utils;
pub mod ppu;
pub mod bus;
