//! A 6502-family processor core with its memory bus and a bank-switching
//! cartridge adapter. Each executable item is proved against a model over
//! plain values: `model::CpuView` for the processor, `mem::MemView` for the
//! bus and `mapper::Mapper2View` for the cartridge.

pub mod codec;
pub mod cpu;
pub mod error;
pub mod mapper;
pub mod mem;
pub mod model;
pub mod opcode;
pub mod ppu;
