//! Zilog Z80, the sound processor.
pub mod alu;
pub mod alu_laws;
pub mod block;
pub mod bus;
pub mod cpu;
pub mod exec;
pub mod flags;
pub mod index;
pub mod instruction_laws;
pub mod laws;
pub mod main_page;
pub mod mirror;
pub mod other_laws;
pub mod page_laws;
pub mod prefixed;
pub mod unindexed;

pub use bus::Z80Bus;
pub use cpu::{Cpu, Regs};
