pub mod alu;
pub mod cpu;
pub mod flags;
pub mod laws;
pub mod machine;
pub mod opcode;
pub mod regs;

pub use cpu::CPU;
pub use flags::Flags;
pub use machine::Machine;
pub use opcode::{AddressingType, Family, Inst, Opcode};
pub use regs::Regs;
