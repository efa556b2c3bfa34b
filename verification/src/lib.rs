//! The writeback stage of an RV32UI instruction-set emulator: the architectural
//! state it owns and the rule by which one instruction is committed to it.

pub mod bus;
pub mod cs_register;
pub mod decode;
pub mod execute;
pub mod laws;
pub mod writeback;
pub mod x_register;
