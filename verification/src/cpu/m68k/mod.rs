//! Motorola 68000, the main processor.
pub mod arith;
pub mod bitwise;
pub mod branch;
pub mod bus;
pub mod ccr;
pub mod cpu;
pub mod dual;
pub mod ea;
pub mod exec;
pub mod flow_laws;
pub mod instruction_laws;
pub mod laws;
pub mod misc;
pub mod more_laws;
pub mod operand_laws;
pub mod operation_laws;
pub mod rmw;
pub mod saved;
pub mod shift_laws;
pub mod transfer;

pub use bus::Bus;
pub use cpu::{AddressErrorInfo, Condition, Cpu, Exception, Size, StatusRegister};
